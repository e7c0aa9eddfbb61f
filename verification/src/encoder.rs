//! The input encoder: a keyboard event becomes the byte sequence the shell
//! expects, respecting application cursor-key mode. Literal text goes to
//! the shell as its UTF-8 bytes, outside this module; everything else is
//! one of the events below.

use vstd::prelude::*;

verus! {

/// A recognized keyboard event. Keys outside this set produce no bytes
/// and are filtered before reaching the encoder.
#[derive(Clone, Copy, Debug, PartialEq, Eq, Structural)]
pub enum KeyEvent {
    /// The enter key.
    Enter,
    /// Backspace, plain or with the control modifier.
    Backspace { ctrl: bool },
    /// The up arrow.
    ArrowUp,
    /// The down arrow.
    ArrowDown,
    /// The right arrow.
    ArrowRight,
    /// The left arrow.
    ArrowLeft,
    /// The tab key.
    Tab,
    /// The escape key.
    Escape,
    /// Control-C: interrupt.
    CtrlC,
    /// Control-D: end of input.
    CtrlD,
    /// Control-L: clear.
    CtrlL,
    /// Control-Z: suspend.
    CtrlZ,
}

/// What each event encodes to. Arrows depend on application cursor-key
/// mode: `ESC [ A..D` normally, `ESC O A..D` in application mode. Enter is
/// carriage return; plain backspace is delete, control-backspace erases a
/// word.
pub open spec fn spec_encode_key(k: KeyEvent, app: bool) -> Seq<u8> {
    match k {
        KeyEvent::Enter => seq![0x0du8],
        KeyEvent::Backspace { ctrl } => if ctrl {
            seq![0x17u8]
        } else {
            seq![0x7fu8]
        },
        KeyEvent::ArrowUp => if app {
            seq![0x1bu8, 0x4fu8, 0x41u8]
        } else {
            seq![0x1bu8, 0x5bu8, 0x41u8]
        },
        KeyEvent::ArrowDown => if app {
            seq![0x1bu8, 0x4fu8, 0x42u8]
        } else {
            seq![0x1bu8, 0x5bu8, 0x42u8]
        },
        KeyEvent::ArrowRight => if app {
            seq![0x1bu8, 0x4fu8, 0x43u8]
        } else {
            seq![0x1bu8, 0x5bu8, 0x43u8]
        },
        KeyEvent::ArrowLeft => if app {
            seq![0x1bu8, 0x4fu8, 0x44u8]
        } else {
            seq![0x1bu8, 0x5bu8, 0x44u8]
        },
        KeyEvent::Tab => seq![0x09u8],
        KeyEvent::Escape => seq![0x1bu8],
        KeyEvent::CtrlC => seq![0x03u8],
        KeyEvent::CtrlD => seq![0x04u8],
        KeyEvent::CtrlL => seq![0x0cu8],
        KeyEvent::CtrlZ => seq![0x1au8],
    }
}

/// Encode one keyboard event, as `spec_encode_key` describes. Stateless
/// but for the application cursor-key flag the caller reads from the
/// screen state.
pub fn encode_key(k: &KeyEvent, application_cursor: bool) -> (r: Vec<u8>)
    ensures
        r@ == spec_encode_key(*k, application_cursor),
{
    let mut r: Vec<u8> = Vec::new();
    match k {
        KeyEvent::Enter => {
            r.push(0x0d);
        },
        KeyEvent::Backspace { ctrl } => {
            if *ctrl {
                r.push(0x17);
            } else {
                r.push(0x7f);
            }
        },
        KeyEvent::ArrowUp => {
            r.push(0x1b);
            r.push(if application_cursor {
                0x4f
            } else {
                0x5b
            });
            r.push(0x41);
        },
        KeyEvent::ArrowDown => {
            r.push(0x1b);
            r.push(if application_cursor {
                0x4f
            } else {
                0x5b
            });
            r.push(0x42);
        },
        KeyEvent::ArrowRight => {
            r.push(0x1b);
            r.push(if application_cursor {
                0x4f
            } else {
                0x5b
            });
            r.push(0x43);
        },
        KeyEvent::ArrowLeft => {
            r.push(0x1b);
            r.push(if application_cursor {
                0x4f
            } else {
                0x5b
            });
            r.push(0x44);
        },
        KeyEvent::Tab => {
            r.push(0x09);
        },
        KeyEvent::Escape => {
            r.push(0x1b);
        },
        KeyEvent::CtrlC => {
            r.push(0x03);
        },
        KeyEvent::CtrlD => {
            r.push(0x04);
        },
        KeyEvent::CtrlL => {
            r.push(0x0c);
        },
        KeyEvent::CtrlZ => {
            r.push(0x1a);
        },
    }
    proof {
        assert(r@ =~= spec_encode_key(*k, application_cursor));
    }
    r
}

} // verus!
