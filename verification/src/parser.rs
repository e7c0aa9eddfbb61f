//! The escape-sequence interpreter: a byte-stream state machine that
//! recognizes printable characters (UTF-8 decoded), the common C0 control
//! bytes, and CSI sequences with numeric parameters, an optional private
//! marker or intermediate, and a final letter. Escape, OSC and DCS-class
//! sequences outside that subset are consumed and discarded without
//! disturbing synchronization, and no byte sequence can corrupt the screen
//! state: every step is specified by `spec_step` and proved total.

use vstd::prelude::*;
use crate::screen::{TerminalState, ScreenView, sat_sub, min_nat};

verus! {

/// At most this many numeric parameters are kept per CSI sequence; later
/// ones are dropped.
pub const MAX_PARAMS: usize = 32;

/// At most this many private-marker or intermediate bytes are kept; later
/// ones are dropped.
pub const MAX_INTERMEDIATES: usize = 2;

/// Where the state machine stands between bytes.
#[derive(Clone, Copy, Debug, PartialEq, Eq, Structural)]
pub enum ParseState {
    /// Printable characters and control bytes act directly.
    Ground,
    /// An escape byte was seen; the next byte selects the sequence class.
    Escape,
    /// An escape sequence with intermediate bytes; its final byte is
    /// discarded.
    EscapeIntermediate,
    /// Just after the control-sequence introducer.
    CsiEntry,
    /// Collecting numeric parameters.
    CsiParam,
    /// Collecting intermediate bytes after the parameters.
    CsiIntermediate,
    /// A malformed control sequence, consumed up to its final byte and
    /// discarded.
    CsiIgnore,
    /// An operating-system-command string, consumed up to its terminator.
    OscString,
    /// A DCS, SOS, PM or APC string, consumed up to its terminator.
    StringSeq,
    /// Inside a multi-byte UTF-8 encoding.
    Utf8,
}

/// The mathematical image of the parser between bytes.
#[verifier::ext_equal]
pub ghost struct ParserView {
    pub state: ParseState,
    pub params: Seq<u16>,
    pub cur_param: u16,
    pub param_any: bool,
    pub in_subparam: bool,
    pub intermediates: Seq<u8>,
    pub utf8_cp: u32,
    pub utf8_rem: u8,
    pub utf8_min: u32,
}

impl ParserView {
    /// What the parser's bookkeeping always satisfies: bounded parameter
    /// and intermediate stores, and a partial code point small enough that
    /// the next continuation byte cannot overflow it.
    pub open spec fn wf(self) -> bool {
        &&& self.params.len() <= MAX_PARAMS as nat
        &&& self.intermediates.len() <= MAX_INTERMEDIATES as nat
        &&& self.utf8_rem <= 3
        &&& (self.state == ParseState::Utf8 ==> self.utf8_rem >= 1)
        &&& (self.utf8_rem == 3 ==> self.utf8_cp <= 0x07)
        &&& (self.utf8_rem == 2 ==> self.utf8_cp <= 0x1ff)
        &&& (self.utf8_rem == 1 ==> self.utf8_cp <= 0x7fff)
    }

    /// The state a fresh parser starts in.
    pub open spec fn init() -> ParserView {
        ParserView {
            state: ParseState::Ground,
            params: Seq::empty(),
            cur_param: 0,
            param_any: false,
            in_subparam: false,
            intermediates: Seq::empty(),
            utf8_cp: 0,
            utf8_rem: 0,
            utf8_min: 0,
        }
    }

    /// One digit appended to the current parameter, saturating at the
    /// largest 16-bit value; digits inside a colon-separated subparameter
    /// are discarded.
    pub open spec fn spec_param_digit(self, d: u16) -> ParserView {
        if self.in_subparam {
            self
        } else {
            let x = self.cur_param * 10 + d;
            ParserView {
                cur_param: if x > 0xffff {
                    0xffff
                } else {
                    x as u16
                },
                param_any: true,
                ..self
            }
        }
    }

    /// A parameter separator: the current parameter is stored (dropped
    /// once the store is full) and collection starts over.
    pub open spec fn spec_param_sep(self) -> ParserView {
        ParserView {
            params: if self.params.len() < MAX_PARAMS as nat {
                self.params.push(self.cur_param)
            } else {
                self.params
            },
            cur_param: 0,
            param_any: false,
            in_subparam: false,
            ..self
        }
    }

    /// A private marker or intermediate byte stored, dropped once the
    /// store is full.
    pub open spec fn spec_collect(self, b: u8) -> ParserView {
        ParserView {
            intermediates: if self.intermediates.len() < MAX_INTERMEDIATES as nat {
                self.intermediates.push(b)
            } else {
                self.intermediates
            },
            ..self
        }
    }

    /// The parameter list a final byte dispatches with: the parameter
    /// being collected joins the store if it has digits or follows a
    /// separator.
    pub open spec fn spec_final_params(self) -> Seq<u16> {
        if self.param_any || self.params.len() > 0 {
            if self.params.len() < MAX_PARAMS as nat {
                self.params.push(self.cur_param)
            } else {
                self.params
            }
        } else {
            self.params
        }
    }

    /// The parser after a final byte: back in ground state, the finalized
    /// parameter list stored.
    pub open spec fn spec_dispatch_parser(self) -> ParserView {
        ParserView { state: ParseState::Ground, params: self.spec_final_params(), ..self }
    }

    /// This view in control-sequence entry with the parameter and
    /// intermediate stores cleared, ready for a new control sequence.
    pub open spec fn spec_csi_entry(self) -> ParserView {
        ParserView {
            state: ParseState::CsiEntry,
            params: Seq::empty(),
            cur_param: 0,
            param_any: false,
            in_subparam: false,
            intermediates: Seq::empty(),
            ..self
        }
    }

    /// Only the machine state replaced.
    pub open spec fn with_state(self, s: ParseState) -> ParserView {
        ParserView { state: s, ..self }
    }
}

/// The effect of a C0 control byte on the screen: carriage return, line
/// feed, backspace and horizontal tab act; every other control byte is
/// discarded.
pub open spec fn spec_execute(v: ScreenView, b: u8) -> ScreenView {
    if b == 0x0d {
        v.spec_carriage_return()
    } else if b == 0x0a {
        v.spec_line_feed()
    } else if b == 0x08 {
        v.spec_backspace()
    } else if b == 0x09 {
        v.spec_tab()
    } else {
        v
    }
}

/// The first stored parameter, 1-based, brought to 0-based; a missing
/// parameter means the first row or column.
pub open spec fn spec_p0_pos(params: Seq<u16>) -> nat {
    if params.len() > 0 {
        sat_sub(params[0] as nat, 1)
    } else {
        0
    }
}

/// The second stored parameter, treated like `spec_p0_pos`.
pub open spec fn spec_p1_pos(params: Seq<u16>) -> nat {
    if params.len() > 1 {
        sat_sub(params[1] as nat, 1)
    } else {
        0
    }
}

/// The first stored parameter as a count, with a default for a missing
/// one.
pub open spec fn spec_p0_or(params: Seq<u16>, default: nat) -> nat {
    if params.len() > 0 {
        params[0] as nat
    } else {
        default
    }
}

/// Private-mode set and reset, applied to each stored parameter in order:
/// 25 toggles cursor visibility, 1 application cursor-key mode, and 1049
/// enters or leaves the alternate screen.
pub open spec fn spec_modes(v: ScreenView, params: Seq<u16>, i: int, set: bool) -> ScreenView
    decreases params.len() - i,
{
    if i < 0 || i >= params.len() {
        v
    } else {
        let p = params[i];
        let v1 = if p == 25 {
            v.spec_set_cursor_visible(set)
        } else if p == 1 {
            v.spec_set_application_cursor(set)
        } else if p == 1049 {
            if set {
                v.spec_enter_alt_screen()
            } else {
                v.spec_exit_alt_screen()
            }
        } else {
            v
        };
        spec_modes(v1, params, i + 1, set)
    }
}

/// What a complete control sequence does to the screen. A final byte not
/// listed here is a no-op.
pub open spec fn spec_csi_dispatch(
    v: ScreenView,
    params: Seq<u16>,
    inter: Seq<u8>,
    fin: u8,
) -> ScreenView {
    let has_q = inter.len() == 1 && inter[0] == 0x3f;
    if fin == 0x6d {  // m
        v.spec_apply_sgr(params)
    } else if fin == 0x48 || fin == 0x66 {  // H, f
        v.spec_cursor_goto(spec_p0_pos(params), spec_p1_pos(params))
    } else if fin == 0x47 {  // G
        v.spec_cursor_col_abs(spec_p0_pos(params))
    } else if fin == 0x64 {  // d
        v.spec_cursor_row_abs(spec_p0_pos(params))
    } else if fin == 0x4a {  // J
        if spec_p0_or(params, 0) == 2 {
            v.spec_erase_all()
        } else {
            v
        }
    } else if fin == 0x4b {  // K
        v.spec_erase_row_range(v.cursor_col, v.cols)
    } else if fin == 0x58 {  // X
        v.spec_erase_row_range(
            v.cursor_col,
            min_nat((v.cursor_col + spec_p0_or(params, 1)) as nat, v.cols),
        )
    } else if fin == 0x50 {  // P
        v.spec_delete_chars(spec_p0_or(params, 1))
    } else if fin == 0x68 && has_q {  // h
        spec_modes(v, params, 0, true)
    } else if fin == 0x6c && has_q {  // l
        spec_modes(v, params, 0, false)
    } else if fin == 0x41 {  // A
        v.spec_cursor_up(spec_p0_or(params, 1))
    } else if fin == 0x42 {  // B
        v.spec_cursor_down(spec_p0_or(params, 1))
    } else if fin == 0x43 {  // C
        v.spec_cursor_right(spec_p0_or(params, 1))
    } else if fin == 0x44 {  // D
        v.spec_cursor_left(spec_p0_or(params, 1))
    } else {
        v
    }
}

/// One byte handled from ground state: an escape byte opens a sequence,
/// other control bytes act directly, printable ASCII prints, and lead
/// bytes of multi-byte UTF-8 encodings start collection; stray
/// continuation bytes and invalid lead bytes are discarded.
pub open spec fn spec_step_ground(p: ParserView, v: ScreenView, b: u8) -> (ParserView, ScreenView) {
    if b == 0x1b {
        (p.with_state(ParseState::Escape), v)
    } else if b < 0x20 {
        (p, spec_execute(v, b))
    } else if b <= 0x7e {
        (p, v.spec_print(b as char))
    } else if 0xc2 <= b <= 0xdf {
        (
            ParserView {
                state: ParseState::Utf8,
                utf8_cp: (b & 0x1f) as u32,
                utf8_rem: 1,
                utf8_min: 0x80,
                ..p
            },
            v,
        )
    } else if 0xe0 <= b <= 0xef {
        (
            ParserView {
                state: ParseState::Utf8,
                utf8_cp: (b & 0x0f) as u32,
                utf8_rem: 2,
                utf8_min: 0x800,
                ..p
            },
            v,
        )
    } else if 0xf0 <= b <= 0xf4 {
        (
            ParserView {
                state: ParseState::Utf8,
                utf8_cp: (b & 0x07) as u32,
                utf8_rem: 3,
                utf8_min: 0x10000,
                ..p
            },
            v,
        )
    } else {
        (p, v)
    }
}

/// One byte of the whole machine. Control bytes keep acting inside escape
/// and control sequences; cancel and substitute abandon them; a stray
/// escape byte restarts one.
pub open spec fn spec_step(p: ParserView, v: ScreenView, b: u8) -> (ParserView, ScreenView) {
    match p.state {
        ParseState::Ground => spec_step_ground(p, v, b),
        ParseState::Utf8 => {
            if 0x80 <= b <= 0xbf {
                let cp = (p.utf8_cp * 64 + (b & 0x3f) as u32) as u32;
                if p.utf8_rem == 1 {
                    let pg = ParserView {
                        state: ParseState::Ground,
                        utf8_cp: cp,
                        utf8_rem: 0,
                        ..p
                    };
                    if cp >= p.utf8_min && vstd::utf8::is_scalar(cp) {
                        (pg, v.spec_print(cp as char))
                    } else {
                        (pg, v)
                    }
                } else {
                    (
                        ParserView { utf8_cp: cp, utf8_rem: (p.utf8_rem - 1) as u8, ..p },
                        v,
                    )
                }
            } else {
                spec_step_ground(
                    ParserView { state: ParseState::Ground, utf8_rem: 0, ..p },
                    v,
                    b,
                )
            }
        },
        ParseState::Escape => {
            if b == 0x5b {
                (p.spec_csi_entry(), v)
            } else if b == 0x5d {
                (p.with_state(ParseState::OscString), v)
            } else if b == 0x50 || b == 0x58 || b == 0x5e || b == 0x5f {
                (p.with_state(ParseState::StringSeq), v)
            } else if b == 0x1b {
                (p, v)
            } else if b == 0x18 || b == 0x1a {
                (p.with_state(ParseState::Ground), v)
            } else if b < 0x20 {
                (p, spec_execute(v, b))
            } else if b <= 0x2f {
                (p.with_state(ParseState::EscapeIntermediate), v)
            } else if b <= 0x7e {
                (p.with_state(ParseState::Ground), v)
            } else {
                (p, v)
            }
        },
        ParseState::EscapeIntermediate => {
            if b == 0x1b {
                (p.with_state(ParseState::Escape), v)
            } else if b == 0x18 || b == 0x1a {
                (p.with_state(ParseState::Ground), v)
            } else if b < 0x20 {
                (p, spec_execute(v, b))
            } else if b <= 0x2f {
                (p, v)
            } else if b <= 0x7e {
                (p.with_state(ParseState::Ground), v)
            } else {
                (p, v)
            }
        },
        ParseState::CsiEntry => {
            if b == 0x1b {
                (p.with_state(ParseState::Escape), v)
            } else if b == 0x18 || b == 0x1a {
                (p.with_state(ParseState::Ground), v)
            } else if b < 0x20 {
                (p, spec_execute(v, b))
            } else if b <= 0x2f {
                (p.spec_collect(b).with_state(ParseState::CsiIntermediate), v)
            } else if 0x30 <= b <= 0x39 {
                (p.spec_param_digit((b - 0x30) as u16).with_state(ParseState::CsiParam), v)
            } else if b == 0x3a {
                (p.with_state(ParseState::CsiIgnore), v)
            } else if b == 0x3b {
                (p.spec_param_sep().with_state(ParseState::CsiParam), v)
            } else if b <= 0x3f {
                (p.spec_collect(b).with_state(ParseState::CsiParam), v)
            } else if b <= 0x7e {
                (
                    p.spec_dispatch_parser(),
                    spec_csi_dispatch(v, p.spec_final_params(), p.intermediates, b),
                )
            } else {
                (p, v)
            }
        },
        ParseState::CsiParam => {
            if b == 0x1b {
                (p.with_state(ParseState::Escape), v)
            } else if b == 0x18 || b == 0x1a {
                (p.with_state(ParseState::Ground), v)
            } else if b < 0x20 {
                (p, spec_execute(v, b))
            } else if b <= 0x2f {
                (p.spec_collect(b).with_state(ParseState::CsiIntermediate), v)
            } else if 0x30 <= b <= 0x39 {
                (p.spec_param_digit((b - 0x30) as u16), v)
            } else if b == 0x3a {
                (ParserView { in_subparam: true, ..p }, v)
            } else if b == 0x3b {
                (p.spec_param_sep(), v)
            } else if b <= 0x3f {
                (p.with_state(ParseState::CsiIgnore), v)
            } else if b <= 0x7e {
                (
                    p.spec_dispatch_parser(),
                    spec_csi_dispatch(v, p.spec_final_params(), p.intermediates, b),
                )
            } else {
                (p, v)
            }
        },
        ParseState::CsiIntermediate => {
            if b == 0x1b {
                (p.with_state(ParseState::Escape), v)
            } else if b == 0x18 || b == 0x1a {
                (p.with_state(ParseState::Ground), v)
            } else if b < 0x20 {
                (p, spec_execute(v, b))
            } else if b <= 0x2f {
                (p.spec_collect(b), v)
            } else if b <= 0x3f {
                (p.with_state(ParseState::CsiIgnore), v)
            } else if b <= 0x7e {
                (
                    p.spec_dispatch_parser(),
                    spec_csi_dispatch(v, p.spec_final_params(), p.intermediates, b),
                )
            } else {
                (p, v)
            }
        },
        ParseState::CsiIgnore => {
            if b == 0x1b {
                (p.with_state(ParseState::Escape), v)
            } else if b == 0x18 || b == 0x1a {
                (p.with_state(ParseState::Ground), v)
            } else if b < 0x20 {
                (p, spec_execute(v, b))
            } else if 0x40 <= b <= 0x7e {
                (p.with_state(ParseState::Ground), v)
            } else {
                (p, v)
            }
        },
        ParseState::OscString => {
            if b == 0x07 {
                (p.with_state(ParseState::Ground), v)
            } else if b == 0x1b {
                (p.with_state(ParseState::Escape), v)
            } else if b == 0x18 || b == 0x1a {
                (p.with_state(ParseState::Ground), v)
            } else {
                (p, v)
            }
        },
        ParseState::StringSeq => {
            if b == 0x1b {
                (p.with_state(ParseState::Escape), v)
            } else if b == 0x18 || b == 0x1a {
                (p.with_state(ParseState::Ground), v)
            } else {
                (p, v)
            }
        },
    }
}

/// Relies on char::from_u32 of std: it returns the character with the
/// given code exactly on Unicode scalar values (not a surrogate, at most
/// 0x10FFFF), and None otherwise.
pub assume_specification[ char::from_u32 ](i: u32) -> (r: Option<char>)
    ensures
        r is Some <==> vstd::utf8::is_scalar(i),
        r matches Some(c) ==> c as u32 == i,
;

/// Apply one C0 control byte to the screen, as `spec_execute` describes.
fn execute_control(term: &mut TerminalState, b: u8)
    requires
        old(term)@.wf(),
    ensures
        final(term)@ == spec_execute(old(term)@, b),
        final(term)@.wf(),
{
    if b == 0x0d {
        term.carriage_return();
    } else if b == 0x0a {
        term.line_feed();
    } else if b == 0x08 {
        term.backspace();
    } else if b == 0x09 {
        term.tab();
    }
}

/// The first stored parameter, 1-based, brought to 0-based.
fn p0_pos(params: &Vec<u16>) -> (r: usize)
    ensures
        r as nat == spec_p0_pos(params@),
{
    if params.len() > 0 {
        let p = params[0];
        if p > 0 {
            (p - 1) as usize
        } else {
            0
        }
    } else {
        0
    }
}

/// The second stored parameter, 1-based, brought to 0-based.
fn p1_pos(params: &Vec<u16>) -> (r: usize)
    ensures
        r as nat == spec_p1_pos(params@),
{
    if params.len() > 1 {
        let p = params[1];
        if p > 0 {
            (p - 1) as usize
        } else {
            0
        }
    } else {
        0
    }
}

/// The first stored parameter as a count, with a default.
fn p0_or(params: &Vec<u16>, default: usize) -> (r: usize)
    ensures
        r as nat == spec_p0_or(params@, default as nat),
{
    if params.len() > 0 {
        params[0] as usize
    } else {
        default
    }
}

/// Apply private-mode set or reset for every stored parameter, as
/// `spec_modes` describes.
fn apply_modes(term: &mut TerminalState, params: &Vec<u16>, set: bool)
    requires
        old(term)@.wf(),
    ensures
        final(term)@ == spec_modes(old(term)@, params@, 0, set),
        final(term)@.wf(),
{
    let mut i: usize = 0;
    while i < params.len()
        invariant
            i <= params@.len(),
            term@.wf(),
            spec_modes(term@, params@, i as int, set) == spec_modes(old(term)@, params@, 0, set),
        decreases params@.len() - i,
    {
        let p = params[i];
        if p == 25 {
            term.set_cursor_visible(set);
        } else if p == 1 {
            term.set_application_cursor(set);
        } else if p == 1049 {
            if set {
                term.enter_alt_screen();
            } else {
                term.exit_alt_screen();
            }
        }
        i = i + 1;
    }
}

/// Apply one complete control sequence to the screen, as
/// `spec_csi_dispatch` describes.
fn dispatch_csi(term: &mut TerminalState, params: &Vec<u16>, inter: &Vec<u8>, fin: u8)
    requires
        old(term)@.wf(),
    ensures
        final(term)@ == spec_csi_dispatch(old(term)@, params@, inter@, fin),
        final(term)@.wf(),
{
    let has_q = inter.len() == 1 && inter[0] == 0x3f;
    if fin == 0x6d {
        term.apply_sgr(params);
    } else if fin == 0x48 || fin == 0x66 {
        let r0 = p0_pos(params);
        let c0 = p1_pos(params);
        term.cursor_goto(r0, c0);
    } else if fin == 0x47 {
        let c0 = p0_pos(params);
        term.cursor_col_abs(c0);
    } else if fin == 0x64 {
        let r0 = p0_pos(params);
        term.cursor_row_abs(r0);
    } else if fin == 0x4a {
        if p0_or(params, 0) == 2 {
            term.erase_all();
        }
    } else if fin == 0x4b {
        term.erase_line_from_cursor();
    } else if fin == 0x58 {
        let n = p0_or(params, 1);
        term.erase_chars(n);
    } else if fin == 0x50 {
        let n = p0_or(params, 1);
        term.delete_chars(n);
    } else if fin == 0x68 && has_q {
        apply_modes(term, params, true);
    } else if fin == 0x6c && has_q {
        apply_modes(term, params, false);
    } else if fin == 0x41 {
        let n = p0_or(params, 1);
        term.cursor_up(n);
    } else if fin == 0x42 {
        let n = p0_or(params, 1);
        term.cursor_down(n);
    } else if fin == 0x43 {
        let n = p0_or(params, 1);
        term.cursor_right(n);
    } else if fin == 0x44 {
        let n = p0_or(params, 1);
        term.cursor_left(n);
    }
}

/// The escape-sequence interpreter's state between bytes.
pub struct Parser {
    pub state: ParseState,
    pub params: Vec<u16>,
    pub cur_param: u16,
    pub param_any: bool,
    pub in_subparam: bool,
    pub intermediates: Vec<u8>,
    pub utf8_cp: u32,
    pub utf8_rem: u8,
    pub utf8_min: u32,
}

impl View for Parser {
    type V = ParserView;

    open spec fn view(&self) -> ParserView {
        ParserView {
            state: self.state,
            params: self.params@,
            cur_param: self.cur_param,
            param_any: self.param_any,
            in_subparam: self.in_subparam,
            intermediates: self.intermediates@,
            utf8_cp: self.utf8_cp,
            utf8_rem: self.utf8_rem,
            utf8_min: self.utf8_min,
        }
    }
}

impl Parser {
    /// A fresh parser in ground state.
    pub fn new() -> (p: Parser)
        ensures
            p@ == ParserView::init(),
            p@.wf(),
    {
        let p = Parser {
            state: ParseState::Ground,
            params: Vec::new(),
            cur_param: 0,
            param_any: false,
            in_subparam: false,
            intermediates: Vec::new(),
            utf8_cp: 0,
            utf8_rem: 0,
            utf8_min: 0,
        };
        proof {
            assert(p@ =~~= ParserView::init());
        }
        p
    }

    /// Store a private marker or intermediate byte.
    fn collect(&mut self, b: u8)
        ensures
            final(self)@ == old(self)@.spec_collect(b),
    {
        if self.intermediates.len() < MAX_INTERMEDIATES {
            self.intermediates.push(b);
        }
        proof {
            assert(self@ =~~= old(self)@.spec_collect(b));
        }
    }

    /// Feed one digit into the current parameter.
    fn param_digit(&mut self, d: u16)
        requires
            d <= 9,
        ensures
            final(self)@ == old(self)@.spec_param_digit(d),
    {
        if !self.in_subparam {
            let x: u32 = self.cur_param as u32 * 10 + d as u32;
            self.cur_param = if x > 0xffff {
                0xffff
            } else {
                x as u16
            };
            self.param_any = true;
        }
        proof {
            assert(self@ =~~= old(self)@.spec_param_digit(d));
        }
    }

    /// Close the current parameter at a separator.
    fn param_sep(&mut self)
        ensures
            final(self)@ == old(self)@.spec_param_sep(),
    {
        if self.params.len() < MAX_PARAMS {
            self.params.push(self.cur_param);
        }
        self.cur_param = 0;
        self.param_any = false;
        self.in_subparam = false;
        proof {
            assert(self@ =~~= old(self)@.spec_param_sep());
        }
    }

    /// Finalize the parameter list, dispatch the sequence, return to
    /// ground state.
    fn finish_csi(&mut self, term: &mut TerminalState, fin: u8)
        requires
            old(term)@.wf(),
        ensures
            final(self)@ == old(self)@.spec_dispatch_parser(),
            final(term)@ == spec_csi_dispatch(
                old(term)@,
                old(self)@.spec_final_params(),
                old(self)@.intermediates,
                fin,
            ),
            final(term)@.wf(),
    {
        if self.param_any || self.params.len() > 0 {
            if self.params.len() < MAX_PARAMS {
                self.params.push(self.cur_param);
            }
        }
        self.state = ParseState::Ground;
        dispatch_csi(term, &self.params, &self.intermediates, fin);
        proof {
            assert(self@ =~~= old(self)@.spec_dispatch_parser());
        }
    }

    /// Handle one byte from ground state, as `spec_step_ground` describes.
    fn ground_byte(&mut self, term: &mut TerminalState, b: u8)
        requires
            old(self)@.wf(),
            old(term)@.wf(),
        ensures
            final(self)@ == spec_step_ground(old(self)@, old(term)@, b).0,
            final(term)@ == spec_step_ground(old(self)@, old(term)@, b).1,
            final(self)@.wf(),
            final(term)@.wf(),
    {
        if b == 0x1b {
            self.state = ParseState::Escape;
        } else if b < 0x20 {
            execute_control(term, b);
        } else if b <= 0x7e {
            term.print(b as char);
        } else if 0xc2 <= b && b <= 0xdf {
            proof {
                assert(b & 0x1f <= 0x1f) by (bit_vector);
            }
            self.state = ParseState::Utf8;
            self.utf8_cp = (b & 0x1f) as u32;
            self.utf8_rem = 1;
            self.utf8_min = 0x80;
        } else if 0xe0 <= b && b <= 0xef {
            proof {
                assert(b & 0x0f <= 0x0f) by (bit_vector);
            }
            self.state = ParseState::Utf8;
            self.utf8_cp = (b & 0x0f) as u32;
            self.utf8_rem = 2;
            self.utf8_min = 0x800;
        } else if 0xf0 <= b && b <= 0xf4 {
            proof {
                assert(b & 0x07 <= 0x07) by (bit_vector);
            }
            self.state = ParseState::Utf8;
            self.utf8_cp = (b & 0x07) as u32;
            self.utf8_rem = 3;
            self.utf8_min = 0x10000;
        }
        proof {
            assert(self@ =~~= spec_step_ground(old(self)@, old(term)@, b).0);
        }
    }

    /// Feed one byte of terminal output to the interpreter, as `spec_step`
    /// describes. Total: no byte sequence panics or corrupts the screen
    /// state.
    pub fn advance(&mut self, term: &mut TerminalState, b: u8)
        requires
            old(self)@.wf(),
            old(term)@.wf(),
        ensures
            final(self)@ == spec_step(old(self)@, old(term)@, b).0,
            final(term)@ == spec_step(old(self)@, old(term)@, b).1,
            final(self)@.wf(),
            final(term)@.wf(),
    {
        match self.state {
            ParseState::Ground => {
                self.ground_byte(term, b);
            },
            ParseState::Utf8 => {
                if 0x80 <= b && b <= 0xbf {
                    proof {
                        assert(b & 0x3f <= 0x3f) by (bit_vector);
                    }
                    let cp: u32 = self.utf8_cp * 64 + ((b & 0x3f) as u32);
                    if self.utf8_rem == 1 {
                        self.state = ParseState::Ground;
                        self.utf8_cp = cp;
                        self.utf8_rem = 0;
                        if cp >= self.utf8_min {
                            match char::from_u32(cp) {
                                Some(ch) => {
                                    proof {
                                        vstd::utf8::char_u32_cast(ch, cp);
                                    }
                                    term.print(ch);
                                },
                                None => {},
                            }
                        }
                    } else {
                        self.utf8_cp = cp;
                        self.utf8_rem = self.utf8_rem - 1;
                    }
                } else {
                    self.state = ParseState::Ground;
                    self.utf8_rem = 0;
                    self.ground_byte(term, b);
                }
            },
            ParseState::Escape => {
                if b == 0x5b {
                    self.state = ParseState::CsiEntry;
                    self.params.clear();
                    self.cur_param = 0;
                    self.param_any = false;
                    self.in_subparam = false;
                    self.intermediates.clear();
                    proof {
                        assert(self@ =~~= old(self)@.spec_csi_entry());
                    }
                } else if b == 0x5d {
                    self.state = ParseState::OscString;
                } else if b == 0x50 || b == 0x58 || b == 0x5e || b == 0x5f {
                    self.state = ParseState::StringSeq;
                } else if b == 0x1b {
                } else if b == 0x18 || b == 0x1a {
                    self.state = ParseState::Ground;
                } else if b < 0x20 {
                    execute_control(term, b);
                } else if b <= 0x2f {
                    self.state = ParseState::EscapeIntermediate;
                } else if b <= 0x7e {
                    self.state = ParseState::Ground;
                }
            },
            ParseState::EscapeIntermediate => {
                if b == 0x1b {
                    self.state = ParseState::Escape;
                } else if b == 0x18 || b == 0x1a {
                    self.state = ParseState::Ground;
                } else if b < 0x20 {
                    execute_control(term, b);
                } else if b <= 0x2f {
                } else if b <= 0x7e {
                    self.state = ParseState::Ground;
                }
            },
            ParseState::CsiEntry => {
                if b == 0x1b {
                    self.state = ParseState::Escape;
                } else if b == 0x18 || b == 0x1a {
                    self.state = ParseState::Ground;
                } else if b < 0x20 {
                    execute_control(term, b);
                } else if b <= 0x2f {
                    self.collect(b);
                    self.state = ParseState::CsiIntermediate;
                } else if 0x30 <= b && b <= 0x39 {
                    self.param_digit((b - 0x30) as u16);
                    self.state = ParseState::CsiParam;
                } else if b == 0x3a {
                    self.state = ParseState::CsiIgnore;
                } else if b == 0x3b {
                    self.param_sep();
                    self.state = ParseState::CsiParam;
                } else if b <= 0x3f {
                    self.collect(b);
                    self.state = ParseState::CsiParam;
                } else if b <= 0x7e {
                    self.finish_csi(term, b);
                }
            },
            ParseState::CsiParam => {
                if b == 0x1b {
                    self.state = ParseState::Escape;
                } else if b == 0x18 || b == 0x1a {
                    self.state = ParseState::Ground;
                } else if b < 0x20 {
                    execute_control(term, b);
                } else if b <= 0x2f {
                    self.collect(b);
                    self.state = ParseState::CsiIntermediate;
                } else if 0x30 <= b && b <= 0x39 {
                    self.param_digit((b - 0x30) as u16);
                } else if b == 0x3a {
                    self.in_subparam = true;
                } else if b == 0x3b {
                    self.param_sep();
                } else if b <= 0x3f {
                    self.state = ParseState::CsiIgnore;
                } else if b <= 0x7e {
                    self.finish_csi(term, b);
                }
            },
            ParseState::CsiIntermediate => {
                if b == 0x1b {
                    self.state = ParseState::Escape;
                } else if b == 0x18 || b == 0x1a {
                    self.state = ParseState::Ground;
                } else if b < 0x20 {
                    execute_control(term, b);
                } else if b <= 0x2f {
                    self.collect(b);
                } else if b <= 0x3f {
                    self.state = ParseState::CsiIgnore;
                } else if b <= 0x7e {
                    self.finish_csi(term, b);
                }
            },
            ParseState::CsiIgnore => {
                if b == 0x1b {
                    self.state = ParseState::Escape;
                } else if b == 0x18 || b == 0x1a {
                    self.state = ParseState::Ground;
                } else if b < 0x20 {
                    execute_control(term, b);
                } else if 0x40 <= b && b <= 0x7e {
                    self.state = ParseState::Ground;
                }
            },
            ParseState::OscString => {
                if b == 0x07 {
                    self.state = ParseState::Ground;
                } else if b == 0x1b {
                    self.state = ParseState::Escape;
                } else if b == 0x18 || b == 0x1a {
                    self.state = ParseState::Ground;
                }
            },
            ParseState::StringSeq => {
                if b == 0x1b {
                    self.state = ParseState::Escape;
                } else if b == 0x18 || b == 0x1a {
                    self.state = ParseState::Ground;
                }
            },
        }
    }

    /// Feed a whole chunk of terminal output, byte by byte.
    pub fn advance_bytes(&mut self, term: &mut TerminalState, bytes: &[u8])
        requires
            old(self)@.wf(),
            old(term)@.wf(),
        ensures
            final(self)@ == spec_advance_seq(old(self)@, old(term)@, bytes@).0,
            final(term)@ == spec_advance_seq(old(self)@, old(term)@, bytes@).1,
            final(self)@.wf(),
            final(term)@.wf(),
    {
        let mut i: usize = 0;
        proof {
            assert(bytes@.subrange(0, bytes@.len() as int) =~= bytes@);
        }
        while i < bytes.len()
            invariant
                i <= bytes@.len(),
                self@.wf(),
                term@.wf(),
                spec_advance_seq(self@, term@, bytes@.subrange(i as int, bytes@.len() as int))
                    == spec_advance_seq(old(self)@, old(term)@, bytes@),
            decreases bytes@.len() - i,
        {
            let b = bytes[i];
            proof {
                let rest = bytes@.subrange(i as int, bytes@.len() as int);
                assert(rest[0] == bytes@[i as int]);
                assert(rest.drop_first() =~= bytes@.subrange(i as int + 1, bytes@.len() as int));
            }
            self.advance(term, b);
            i = i + 1;
        }
        proof {
            assert(bytes@.subrange(bytes@.len() as int, bytes@.len() as int)
                =~= Seq::<u8>::empty());
        }
    }
}

/// A whole byte sequence folded through `spec_step`.
pub open spec fn spec_advance_seq(
    p: ParserView,
    v: ScreenView,
    bytes: Seq<u8>,
) -> (ParserView, ScreenView)
    decreases bytes.len(),
{
    if bytes.len() == 0 {
        (p, v)
    } else {
        let s = spec_step(p, v, bytes[0]);
        spec_advance_seq(s.0, s.1, bytes.drop_first())
    }
}

} // verus!
