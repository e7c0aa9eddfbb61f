//! The screen-buffer model: a primary and an alternate grid of cells, a
//! bounded scrollback, the cursor, and the current text attributes. Every
//! operation is specified against `ScreenView`, a mathematical image of the
//! whole state, and proved to preserve its well-formedness.

use vstd::prelude::*;
use vstd::pervasive::VecAdditionalExecFns;
use crate::cell::{Cell, Color, spec_default_cell, spec_attr_cell};

verus! {

/// Scrollback keeps at most this many rows; pushing one more evicts the
/// oldest.
pub const SCROLLBACK_MAX: usize = 5000;

/// Terminal geometry is bounded by what the operating system's
/// pseudo-terminal can express: its window size carries rows and columns as
/// 16-bit numbers.
pub const MAX_DIM: usize = 65535;

/// The mathematical image of a whole terminal screen state.
#[verifier::ext_equal]
pub ghost struct ScreenView {
    pub rows: nat,
    pub cols: nat,
    pub cursor_row: nat,
    pub cursor_col: nat,
    pub saved_row: nat,
    pub saved_col: nat,
    pub primary: Seq<Seq<Cell>>,
    pub alt: Seq<Seq<Cell>>,
    pub history: Seq<Seq<Cell>>,
    pub is_alt_screen: bool,
    pub fg: Color,
    pub bg: Color,
    pub inverse: bool,
    pub cursor_visible: bool,
    pub application_cursor: bool,
}

/// Every row of a grid has length `cols`, and there are `rows` of them.
pub open spec fn grid_wf(g: Seq<Seq<Cell>>, rows: nat, cols: nat) -> bool {
    &&& g.len() == rows
    &&& forall|i: int| 0 <= i < g.len() ==> (#[trigger] g[i]).len() == cols
}

/// A row of `cols` copies of one cell.
pub open spec fn spec_fill_row(cols: nat, cell: Cell) -> Seq<Cell> {
    Seq::new(cols, |i: int| cell)
}

/// A row of blank cells.
pub open spec fn spec_blank_row(cols: nat) -> Seq<Cell> {
    spec_fill_row(cols, spec_default_cell())
}

/// A grid of `rows` blank rows.
pub open spec fn spec_blank_grid(rows: nat, cols: nat) -> Seq<Seq<Cell>> {
    Seq::new(rows, |i: int| spec_blank_row(cols))
}

/// `a - b`, stopping at zero.
pub open spec fn sat_sub(a: nat, b: nat) -> nat {
    if a >= b { (a - b) as nat } else { 0 }
}

/// The smaller of two naturals.
pub open spec fn min_nat(a: nat, b: nat) -> nat {
    if a <= b { a } else { b }
}

impl ScreenView {
    /// The grid that output currently lands in.
    pub open spec fn active(self) -> Seq<Seq<Cell>> {
        if self.is_alt_screen {
            self.alt
        } else {
            self.primary
        }
    }

    /// This view with the active grid replaced.
    pub open spec fn with_active(self, g: Seq<Seq<Cell>>) -> ScreenView {
        if self.is_alt_screen {
            ScreenView { alt: g, ..self }
        } else {
            ScreenView { primary: g, ..self }
        }
    }

    /// Everything well-formedness asks of the state apart from the cursor
    /// row: bounded non-degenerate geometry, rectangular grids, a bounded
    /// scrollback, a saved cursor inside the grid, and a cursor column at
    /// most one past the last column (where the next printed character
    /// wraps).
    pub open spec fn wf_frame(self) -> bool {
        &&& 1 <= self.rows <= MAX_DIM as nat
        &&& 1 <= self.cols <= MAX_DIM as nat
        &&& grid_wf(self.primary, self.rows, self.cols)
        &&& grid_wf(self.alt, self.rows, self.cols)
        &&& self.history.len() <= SCROLLBACK_MAX as nat
        &&& self.cursor_col <= self.cols
        &&& self.saved_row < self.rows
        &&& self.saved_col <= self.cols
    }

    /// Well-formedness: the frame conditions, and the cursor row inside the
    /// grid. Between advancing past the last row and the scroll that
    /// answers it, only `wf_frame` holds with the cursor row at `rows`.
    pub open spec fn wf(self) -> bool {
        &&& self.wf_frame()
        &&& self.cursor_row < self.rows
    }

    /// Resizing, dimension by dimension: a kept row is cut or padded with
    /// blank cells on the right to the new width; rows past the old height
    /// are blank.
    pub open spec fn spec_resize_row(r: Seq<Cell>, c: nat) -> Seq<Cell> {
        Seq::new(c, |j: int| if j < r.len() { r[j] } else { spec_default_cell() })
    }

    /// A whole grid resized: rows cut from the bottom or appended blank,
    /// every row brought to the new width.
    pub open spec fn spec_resize_grid(g: Seq<Seq<Cell>>, r: nat, c: nat) -> Seq<Seq<Cell>> {
        Seq::new(
            r,
            |i: int|
                if i < g.len() {
                    ScreenView::spec_resize_row(g[i], c)
                } else {
                    spec_blank_row(c)
                },
        )
    }

    /// Resize both grids to the new geometry and clamp the cursor and the
    /// saved cursor into it. Geometry the pseudo-terminal's 16-bit window
    /// size cannot carry, including zero, leaves the state untouched.
    pub open spec fn spec_resize(self, nr: nat, nc: nat) -> ScreenView {
        if nr == 0 || nc == 0 || nr > MAX_DIM as nat || nc > MAX_DIM as nat {
            self
        } else {
            ScreenView {
                rows: nr,
                cols: nc,
                primary: ScreenView::spec_resize_grid(self.primary, nr, nc),
                alt: ScreenView::spec_resize_grid(self.alt, nr, nc),
                cursor_row: min_nat(self.cursor_row, (nr - 1) as nat),
                cursor_col: min_nat(self.cursor_col, (nc - 1) as nat),
                saved_row: min_nat(self.saved_row, (nr - 1) as nat),
                saved_col: min_nat(self.saved_col, nc),
                ..self
            }
        }
    }

    /// The scroll step: the active grid loses its top row, which goes to
    /// scrollback when the primary grid is active (evicting the oldest
    /// entry past the cap); a blank row carrying the current attributes
    /// enters at the bottom; a cursor not on the top row follows its line.
    pub open spec fn spec_scroll_up(self) -> ScreenView {
        let top = self.active()[0];
        let shifted = self.active().subrange(1, self.active().len() as int).push(
            spec_fill_row(self.cols, spec_attr_cell(self.fg, self.bg, self.inverse)),
        );
        let pushed = self.history.push(top);
        let new_history = if self.is_alt_screen {
            self.history
        } else if pushed.len() > SCROLLBACK_MAX as nat {
            pushed.subrange(1, pushed.len() as int)
        } else {
            pushed
        };
        ScreenView {
            history: new_history,
            cursor_row: sat_sub(self.cursor_row, 1),
            ..self.with_active(shifted)
        }
    }
}

/// A character outside the narrow range occupies two display columns; its
/// second column holds a continuation cell.
pub open spec fn spec_is_wide(c: char) -> bool {
    c as u32 > 0x7f
}

/// Whether a character takes two display columns.
#[verifier::when_used_as_spec(spec_is_wide)]
pub fn is_wide(c: char) -> (b: bool)
    ensures
        b == spec_is_wide(c),
{
    c as u32 > 0x7f
}

/// The continuation marker written into the second column of a wide
/// character.
pub open spec fn spec_cont_cell(fg: Color, bg: Color, inverse: bool) -> Cell {
    Cell { c: ' ', fg, bg, inverse, is_wide_continuation: true }
}

impl ScreenView {
    /// One cell of the active grid replaced.
    pub open spec fn spec_set_active_cell(self, r: int, c: int, cell: Cell) -> ScreenView {
        self.with_active(self.active().update(r, self.active()[r].update(c, cell)))
    }

    /// Carriage return: the cursor returns to column zero.
    pub open spec fn spec_carriage_return(self) -> ScreenView {
        ScreenView { cursor_col: 0, ..self }
    }

    /// Line feed: the cursor advances one row, scrolling if it would leave
    /// the grid.
    pub open spec fn spec_line_feed(self) -> ScreenView {
        let v1 = ScreenView { cursor_row: (self.cursor_row + 1) as nat, ..self };
        if v1.cursor_row >= v1.rows {
            v1.spec_scroll_up()
        } else {
            v1
        }
    }

    /// Backspace: the cursor retreats one column, stopping at zero.
    pub open spec fn spec_backspace(self) -> ScreenView {
        ScreenView { cursor_col: sat_sub(self.cursor_col, 1), ..self }
    }

    /// Horizontal tab: the cursor advances to the next multiple of eight,
    /// clamped to the last column.
    pub open spec fn spec_tab(self) -> ScreenView {
        ScreenView {
            cursor_col: min_nat((self.cursor_col / 8 + 1) * 8, (self.cols - 1) as nat),
            ..self
        }
    }

    /// Printing one character: wrap to the start of the next row if the
    /// character no longer fits, scroll if that row leaves the grid, then
    /// write the cell (and, for a wide character with room, its
    /// continuation) in the current attributes and advance the cursor over
    /// what was written.
    pub open spec fn spec_print(self, ch: char) -> ScreenView {
        let width: nat = if spec_is_wide(ch) {
            2
        } else {
            1
        };
        let v1 = if self.cursor_col + width > self.cols {
            ScreenView { cursor_col: 0, cursor_row: (self.cursor_row + 1) as nat, ..self }
        } else {
            self
        };
        let v2 = if v1.cursor_row >= v1.rows {
            v1.spec_scroll_up()
        } else {
            v1
        };
        if v2.cursor_row < v2.rows {
            let row = v2.cursor_row as int;
            let col = v2.cursor_col as int;
            let head = Cell {
                c: ch,
                fg: v2.fg,
                bg: v2.bg,
                inverse: v2.inverse,
                is_wide_continuation: false,
            };
            let wide_cont = spec_is_wide(ch) && v2.cursor_col + 1 < v2.cols;
            let v3 = v2.spec_set_active_cell(row, col, head);
            let v4 = if wide_cont {
                v3.spec_set_active_cell(row, col + 1, spec_cont_cell(v2.fg, v2.bg, v2.inverse))
            } else {
                v3
            };
            ScreenView {
                cursor_col: if wide_cont {
                    (v2.cursor_col + 2) as nat
                } else {
                    (v2.cursor_col + 1) as nat
                },
                ..v4
            }
        } else {
            v2
        }
    }
}

/// One step of select-graphic-rendition, applied to the current attributes
/// `(fg, bg, inverse)` from parameter `i` on. Code 0 resets all three;
/// 7 and 27 set and clear inverse; 30-37 and 90-97 pick the foreground from
/// the palette, 40-47 and 100-107 the background; 38 and 48 followed by
/// `5;n` pick an indexed color, followed by `2;r;g;b` a literal color; 39
/// and 49 restore the defaults; anything else is ignored.
pub open spec fn spec_sgr(
    fg: Color,
    bg: Color,
    inv: bool,
    params: Seq<u16>,
    i: int,
) -> (Color, Color, bool)
    decreases params.len() - i,
{
    if i < 0 || i >= params.len() {
        (fg, bg, inv)
    } else {
        let p = params[i];
        if p == 0 {
            spec_sgr(Color::spec_default_fg(), Color::spec_transparent(), false, params, i + 1)
        } else if p == 7 {
            spec_sgr(fg, bg, true, params, i + 1)
        } else if p == 27 {
            spec_sgr(fg, bg, false, params, i + 1)
        } else if 30 <= p <= 37 {
            spec_sgr(crate::cell::spec_ansi_color((p - 30) as u8), bg, inv, params, i + 1)
        } else if p == 38 {
            if i + 1 >= params.len() {
                (fg, bg, inv)
            } else if params[i + 1] == 5 {
                if i + 2 < params.len() {
                    spec_sgr(
                        crate::cell::spec_ansi_color(params[i + 2] as u8),
                        bg,
                        inv,
                        params,
                        i + 3,
                    )
                } else {
                    (fg, bg, inv)
                }
            } else if params[i + 1] == 2 {
                let r = if i + 2 < params.len() {
                    params[i + 2] as u8
                } else {
                    0
                };
                let g = if i + 3 < params.len() {
                    params[i + 3] as u8
                } else {
                    0
                };
                let b = if i + 4 < params.len() {
                    params[i + 4] as u8
                } else {
                    0
                };
                spec_sgr(
                    Color::spec_rgb(r, g, b),
                    bg,
                    inv,
                    params,
                    if i + 5 <= params.len() {
                        i + 5
                    } else {
                        params.len() as int
                    },
                )
            } else {
                spec_sgr(fg, bg, inv, params, i + 2)
            }
        } else if p == 39 {
            spec_sgr(Color::spec_default_fg(), bg, inv, params, i + 1)
        } else if 40 <= p <= 47 {
            spec_sgr(fg, crate::cell::spec_ansi_color((p - 40) as u8), inv, params, i + 1)
        } else if p == 48 {
            if i + 1 >= params.len() {
                (fg, bg, inv)
            } else if params[i + 1] == 5 {
                if i + 2 < params.len() {
                    spec_sgr(
                        fg,
                        crate::cell::spec_ansi_color(params[i + 2] as u8),
                        inv,
                        params,
                        i + 3,
                    )
                } else {
                    (fg, bg, inv)
                }
            } else if params[i + 1] == 2 {
                let r = if i + 2 < params.len() {
                    params[i + 2] as u8
                } else {
                    0
                };
                let g = if i + 3 < params.len() {
                    params[i + 3] as u8
                } else {
                    0
                };
                let b = if i + 4 < params.len() {
                    params[i + 4] as u8
                } else {
                    0
                };
                spec_sgr(
                    fg,
                    Color::spec_rgb(r, g, b),
                    inv,
                    params,
                    if i + 5 <= params.len() {
                        i + 5
                    } else {
                        params.len() as int
                    },
                )
            } else {
                spec_sgr(fg, bg, inv, params, i + 2)
            }
        } else if p == 49 {
            spec_sgr(fg, Color::spec_transparent(), inv, params, i + 1)
        } else if 90 <= p <= 97 {
            spec_sgr(crate::cell::spec_ansi_color((p - 90 + 8) as u8), bg, inv, params, i + 1)
        } else if 100 <= p <= 107 {
            spec_sgr(fg, crate::cell::spec_ansi_color((p - 100 + 8) as u8), inv, params, i + 1)
        } else {
            spec_sgr(fg, bg, inv, params, i + 1)
        }
    }
}

impl ScreenView {
    /// Absolute cursor positioning (already 0-based), clamped into the grid.
    pub open spec fn spec_cursor_goto(self, r: nat, c: nat) -> ScreenView {
        ScreenView {
            cursor_row: min_nat(r, (self.rows - 1) as nat),
            cursor_col: min_nat(c, (self.cols - 1) as nat),
            ..self
        }
    }

    /// Absolute column (0-based), clamped.
    pub open spec fn spec_cursor_col_abs(self, c: nat) -> ScreenView {
        ScreenView { cursor_col: min_nat(c, (self.cols - 1) as nat), ..self }
    }

    /// Absolute row (0-based), clamped.
    pub open spec fn spec_cursor_row_abs(self, r: nat) -> ScreenView {
        ScreenView { cursor_row: min_nat(r, (self.rows - 1) as nat), ..self }
    }

    /// Relative moves, clamped at the edges; they never wrap or scroll.
    pub open spec fn spec_cursor_up(self, n: nat) -> ScreenView {
        ScreenView { cursor_row: sat_sub(self.cursor_row, n), ..self }
    }

    /// Down by `n`, stopping at the last row.
    pub open spec fn spec_cursor_down(self, n: nat) -> ScreenView {
        ScreenView { cursor_row: min_nat((self.cursor_row + n) as nat, (self.rows - 1) as nat), ..self }
    }

    /// Right by `n`, stopping at the last column.
    pub open spec fn spec_cursor_right(self, n: nat) -> ScreenView {
        ScreenView { cursor_col: min_nat((self.cursor_col + n) as nat, (self.cols - 1) as nat), ..self }
    }

    /// Left by `n`, stopping at column zero.
    pub open spec fn spec_cursor_left(self, n: nat) -> ScreenView {
        ScreenView { cursor_col: sat_sub(self.cursor_col, n), ..self }
    }

    /// Erase in display, full-clear form: the active grid becomes blank and
    /// the cursor returns to the origin.
    pub open spec fn spec_erase_all(self) -> ScreenView {
        ScreenView {
            cursor_row: 0,
            cursor_col: 0,
            ..self.with_active(spec_blank_grid(self.rows, self.cols))
        }
    }

    /// Cells `[from, to)` of the cursor's row replaced by blanks.
    pub open spec fn spec_erase_row_range(self, from: nat, to: nat) -> ScreenView {
        let row = self.cursor_row as int;
        let old_row = self.active()[row];
        let new_row = Seq::new(
            old_row.len(),
            |j: int|
                if from <= j < to {
                    spec_default_cell()
                } else {
                    old_row[j]
                },
        );
        self.with_active(self.active().update(row, new_row))
    }

    /// Delete `n` cells at the cursor column: the remainder of the row
    /// shifts left and blanks fill its tail. A cursor column past the last
    /// cell leaves the row alone.
    pub open spec fn spec_delete_chars(self, n: nat) -> ScreenView {
        if self.cursor_col < self.cols {
            let row = self.cursor_row as int;
            let col = self.cursor_col as int;
            let old_row = self.active()[row];
            let new_row = Seq::new(
                old_row.len(),
                |j: int|
                    if j < col {
                        old_row[j]
                    } else if j + n < old_row.len() {
                        old_row[j + n]
                    } else {
                        spec_default_cell()
                    },
            );
            self.with_active(self.active().update(row, new_row))
        } else {
            self
        }
    }

    /// Cursor visibility, toggled by private mode 25.
    pub open spec fn spec_set_cursor_visible(self, b: bool) -> ScreenView {
        ScreenView { cursor_visible: b, ..self }
    }

    /// Application cursor-key mode, toggled by private mode 1.
    pub open spec fn spec_set_application_cursor(self, b: bool) -> ScreenView {
        ScreenView { application_cursor: b, ..self }
    }

    /// Entering the alternate screen: the cursor is snapshotted into the
    /// saved slot, the alternate grid is cleared and becomes active, and
    /// the cursor returns to the origin.
    pub open spec fn spec_enter_alt_screen(self) -> ScreenView {
        ScreenView {
            saved_row: self.cursor_row,
            saved_col: self.cursor_col,
            is_alt_screen: true,
            alt: spec_blank_grid(self.rows, self.cols),
            cursor_row: 0,
            cursor_col: 0,
            ..self
        }
    }

    /// Leaving the alternate screen: the primary grid becomes active again,
    /// untouched, and the cursor returns to the saved slot.
    pub open spec fn spec_exit_alt_screen(self) -> ScreenView {
        ScreenView {
            is_alt_screen: false,
            cursor_row: self.saved_row,
            cursor_col: self.saved_col,
            ..self
        }
    }

    /// The new attributes after a select-graphic-rendition sequence.
    pub open spec fn spec_apply_sgr(self, params: Seq<u16>) -> ScreenView {
        let attrs = spec_sgr(self.fg, self.bg, self.inverse, params, 0);
        ScreenView { fg: attrs.0, bg: attrs.1, inverse: attrs.2, ..self }
    }
}

/// The grids a `TerminalState` owns, as sequences of rows.
pub open spec fn grid_view(g: Seq<Vec<Cell>>) -> Seq<Seq<Cell>> {
    Seq::new(g.len() as nat, |i: int| g[i]@)
}

/// The screen-buffer state of one terminal session.
pub struct TerminalState {
    pub rows: usize,
    pub cols: usize,
    pub cursor_row: usize,
    pub cursor_col: usize,
    pub saved_cursor: (usize, usize),
    pub primary_grid: Vec<Vec<Cell>>,
    pub alt_grid: Vec<Vec<Cell>>,
    pub history: Vec<Vec<Cell>>,
    pub is_alt_screen: bool,
    pub current_fg: Color,
    pub current_bg: Color,
    pub current_inverse: bool,
    pub cursor_visible: bool,
    pub application_cursor: bool,
}

impl View for TerminalState {
    type V = ScreenView;

    open spec fn view(&self) -> ScreenView {
        ScreenView {
            rows: self.rows as nat,
            cols: self.cols as nat,
            cursor_row: self.cursor_row as nat,
            cursor_col: self.cursor_col as nat,
            saved_row: self.saved_cursor.0 as nat,
            saved_col: self.saved_cursor.1 as nat,
            primary: grid_view(self.primary_grid@),
            alt: grid_view(self.alt_grid@),
            history: grid_view(self.history@),
            is_alt_screen: self.is_alt_screen,
            fg: self.current_fg,
            bg: self.current_bg,
            inverse: self.current_inverse,
            cursor_visible: self.cursor_visible,
            application_cursor: self.application_cursor,
        }
    }
}

/// A row of `cols` copies of `cell`.
fn fill_row(cols: usize, cell: Cell) -> (r: Vec<Cell>)
    ensures
        r@ == spec_fill_row(cols as nat, cell),
{
    let mut r: Vec<Cell> = Vec::new();
    let mut j: usize = 0;
    while j < cols
        invariant
            j <= cols,
            r@.len() == j,
            forall|k: int| 0 <= k < j ==> r@[k] == cell,
        decreases cols - j,
    {
        r.push(cell);
        j = j + 1;
    }
    proof {
        assert(r@ =~= spec_fill_row(cols as nat, cell));
    }
    r
}

/// A grid of `rows` blank rows of `cols` cells.
fn blank_grid(rows: usize, cols: usize) -> (g: Vec<Vec<Cell>>)
    ensures
        grid_view(g@) == spec_blank_grid(rows as nat, cols as nat),
{
    let mut g: Vec<Vec<Cell>> = Vec::new();
    let mut i: usize = 0;
    while i < rows
        invariant
            i <= rows,
            g@.len() == i,
            forall|k: int| 0 <= k < i ==> (#[trigger] g@[k])@ == spec_blank_row(cols as nat),
        decreases rows - i,
    {
        g.push(fill_row(cols, Cell::default()));
        i = i + 1;
    }
    proof {
        assert(grid_view(g@) =~~= spec_blank_grid(rows as nat, cols as nat));
    }
    g
}

impl TerminalState {
    /// The view a fresh session starts from: blank grids, the cursor at the
    /// origin, default attributes, an empty scrollback.
    pub open spec fn spec_new(rows: nat, cols: nat) -> ScreenView {
        ScreenView {
            rows,
            cols,
            cursor_row: 0,
            cursor_col: 0,
            saved_row: 0,
            saved_col: 0,
            primary: spec_blank_grid(rows, cols),
            alt: spec_blank_grid(rows, cols),
            history: Seq::empty(),
            is_alt_screen: false,
            fg: Color::spec_default_fg(),
            bg: Color::spec_transparent(),
            inverse: false,
            cursor_visible: true,
            application_cursor: false,
        }
    }

    /// A fresh screen state. Geometry must be non-degenerate and fit what
    /// the pseudo-terminal's 16-bit window size can carry.
    pub fn new(rows: usize, cols: usize) -> (s: TerminalState)
        requires
            1 <= rows <= MAX_DIM,
            1 <= cols <= MAX_DIM,
        ensures
            s@ == Self::spec_new(rows as nat, cols as nat),
            s@.wf(),
    {
        let s = TerminalState {
            rows,
            cols,
            cursor_row: 0,
            cursor_col: 0,
            saved_cursor: (0, 0),
            primary_grid: blank_grid(rows, cols),
            alt_grid: blank_grid(rows, cols),
            history: Vec::new(),
            is_alt_screen: false,
            current_fg: Color::default_fg(),
            current_bg: Color::transparent(),
            current_inverse: false,
            cursor_visible: true,
            application_cursor: false,
        };
        proof {
            assert(s@ =~~= Self::spec_new(rows as nat, cols as nat));
        }
        s
    }

    /// Scroll the active grid up one row, as `ScreenView::spec_scroll_up`
    /// describes. The cursor row may stand one past the last row here; the
    /// scroll brings it back inside.
    pub fn scroll_up(&mut self)
        requires
            old(self)@.wf_frame(),
            old(self)@.cursor_row <= old(self)@.rows,
        ensures
            final(self)@ == old(self)@.spec_scroll_up(),
            final(self)@.wf(),
    {
        let cols = self.cols;
        let fill = Cell {
            c: ' ',
            fg: self.current_fg,
            bg: self.current_bg,
            inverse: self.current_inverse,
            is_wide_continuation: false,
        };
        if self.is_alt_screen {
            let _top = self.alt_grid.remove(0);
            self.alt_grid.push(fill_row(cols, fill));
        } else {
            let top = self.primary_grid.remove(0);
            self.history.push(top);
            if self.history.len() > SCROLLBACK_MAX {
                let _evicted = self.history.remove(0);
            }
            self.primary_grid.push(fill_row(cols, fill));
        }
        if self.cursor_row > 0 {
            self.cursor_row = self.cursor_row - 1;
        }
        proof {
            assert(self@ =~~= old(self)@.spec_scroll_up());
        }
    }

    /// The grid that output currently lands in.
    pub fn grid(&self) -> (g: &Vec<Vec<Cell>>)
        ensures
            grid_view(g@) == self@.active(),
    {
        if self.is_alt_screen {
            &self.alt_grid
        } else {
            &self.primary_grid
        }
    }

    /// Write one cell of the active grid.
    fn set_active_cell(&mut self, r: usize, c: usize, cell: Cell)
        requires
            old(self)@.wf(),
            r < old(self)@.rows,
            c < old(self)@.cols,
        ensures
            final(self)@ == old(self)@.spec_set_active_cell(r as int, c as int, cell),
            final(self)@.wf(),
    {
        if self.is_alt_screen {
            let mut row = self.alt_grid.remove(r);
            proof {
                assert(old(self)@.alt[r as int].len() == old(self)@.cols);
            }
            row.set(c, cell);
            self.alt_grid.insert(r, row);
        } else {
            let mut row = self.primary_grid.remove(r);
            proof {
                assert(old(self)@.primary[r as int].len() == old(self)@.cols);
            }
            row.set(c, cell);
            self.primary_grid.insert(r, row);
        }
        proof {
            assert(self@ =~~= old(self)@.spec_set_active_cell(r as int, c as int, cell));
        }
    }

    /// Carriage return: back to column zero.
    pub fn carriage_return(&mut self)
        requires
            old(self)@.wf(),
        ensures
            final(self)@ == old(self)@.spec_carriage_return(),
            final(self)@.wf(),
    {
        self.cursor_col = 0;
    }

    /// Line feed: down one row, scrolling at the bottom edge.
    pub fn line_feed(&mut self)
        requires
            old(self)@.wf(),
        ensures
            final(self)@ == old(self)@.spec_line_feed(),
            final(self)@.wf(),
    {
        self.cursor_row = self.cursor_row + 1;
        if self.cursor_row >= self.rows {
            self.scroll_up();
        }
        proof {
            assert(self@ =~~= old(self)@.spec_line_feed());
        }
    }

    /// Backspace: back one column, stopping at zero.
    pub fn backspace(&mut self)
        requires
            old(self)@.wf(),
        ensures
            final(self)@ == old(self)@.spec_backspace(),
            final(self)@.wf(),
    {
        if self.cursor_col > 0 {
            self.cursor_col = self.cursor_col - 1;
        }
    }

    /// Horizontal tab: to the next multiple of eight, clamped to the last
    /// column.
    pub fn tab(&mut self)
        requires
            old(self)@.wf(),
        ensures
            final(self)@ == old(self)@.spec_tab(),
            final(self)@.wf(),
    {
        let next_tab = (self.cursor_col / 8 + 1) * 8;
        let last = self.cols - 1;
        self.cursor_col = if next_tab <= last {
            next_tab
        } else {
            last
        };
    }

    /// Print one character at the cursor, as `ScreenView::spec_print`
    /// describes: wrap and scroll first if needed, write the cell (and a
    /// continuation cell after a wide character, when there is room) in the
    /// current attributes, and advance the cursor.
    #[verifier::rlimit(30)]
    pub fn print(&mut self, ch: char)
        requires
            old(self)@.wf(),
        ensures
            final(self)@ == old(self)@.spec_print(ch),
            final(self)@.wf(),
    {
        let wide = is_wide(ch);
        let width: usize = if wide {
            2
        } else {
            1
        };
        if self.cursor_col + width > self.cols {
            self.cursor_col = 0;
            self.cursor_row = self.cursor_row + 1;
        }
        if self.cursor_row >= self.rows {
            self.scroll_up();
        }
        if self.cursor_row < self.rows {
            let head = Cell {
                c: ch,
                fg: self.current_fg,
                bg: self.current_bg,
                inverse: self.current_inverse,
                is_wide_continuation: false,
            };
            let r = self.cursor_row;
            let c = self.cursor_col;
            self.set_active_cell(r, c, head);
            if wide && c + 1 < self.cols {
                let cont = Cell {
                    c: ' ',
                    fg: head.fg,
                    bg: head.bg,
                    inverse: head.inverse,
                    is_wide_continuation: true,
                };
                self.set_active_cell(r, c + 1, cont);
                self.cursor_col = c + 2;
            } else {
                self.cursor_col = c + 1;
            }
        }
        proof {
            assert(self@ =~~= old(self)@.spec_print(ch));
        }
    }

    /// Replace row `r` of the active grid.
    fn set_active_row(&mut self, r: usize, row: Vec<Cell>)
        requires
            old(self)@.wf(),
            r < old(self)@.rows,
            row@.len() == old(self)@.cols,
        ensures
            final(self)@ == old(self)@.with_active(
                old(self)@.active().update(r as int, row@),
            ),
            final(self)@.wf(),
    {
        if self.is_alt_screen {
            let _old_row = self.alt_grid.remove(r);
            self.alt_grid.insert(r, row);
        } else {
            let _old_row = self.primary_grid.remove(r);
            self.primary_grid.insert(r, row);
        }
        proof {
            assert(self@ =~~= old(self)@.with_active(old(self)@.active().update(r as int, row@)));
        }
    }

    /// A copy of row `r` of the active grid with cells `[from, to)` blanked.
    fn blanked_row(&self, r: usize, from: usize, to: usize) -> (out: Vec<Cell>)
        requires
            self@.wf(),
            r < self@.rows,
            from <= to <= self@.cols,
        ensures
            out@ == Seq::new(
                self@.active()[r as int].len(),
                |j: int|
                    if from <= j < to {
                        spec_default_cell()
                    } else {
                        self@.active()[r as int][j]
                    },
            ),
    {
        proof {
            assert(self@.active()[r as int].len() == self@.cols);
        }
        let g = if self.is_alt_screen {
            &self.alt_grid
        } else {
            &self.primary_grid
        };
        let row = &g[r];
        let mut out: Vec<Cell> = Vec::new();
        let mut j: usize = 0;
        while j < row.len()
            invariant
                j <= row@.len(),
                row@ == self@.active()[r as int],
                out@.len() == j,
                from <= to,
                forall|k: int|
                    0 <= k < j ==> out@[k] == (if from <= k < to {
                        spec_default_cell()
                    } else {
                        row@[k]
                    }),
            decreases row@.len() - j,
        {
            if from <= j && j < to {
                out.push(Cell::default());
            } else {
                out.push(row[j]);
            }
            j = j + 1;
        }
        proof {
            assert(out@ =~= Seq::new(
                self@.active()[r as int].len(),
                |j: int|
                    if from <= j < to {
                        spec_default_cell()
                    } else {
                        self@.active()[r as int][j]
                    },
            ));
        }
        out
    }

    /// A copy of row `r` of the active grid with `n` cells deleted at
    /// column `col`: the remainder shifts left, blanks fill the tail.
    fn deleted_row(&self, r: usize, col: usize, n: usize) -> (out: Vec<Cell>)
        requires
            self@.wf(),
            r < self@.rows,
            col < self@.cols,
        ensures
            out@ == Seq::new(
                self@.active()[r as int].len(),
                |j: int|
                    if j < col {
                        self@.active()[r as int][j]
                    } else if j + n < self@.active()[r as int].len() {
                        self@.active()[r as int][j + n]
                    } else {
                        spec_default_cell()
                    },
            ),
    {
        proof {
            assert(self@.active()[r as int].len() == self@.cols);
        }
        let g = if self.is_alt_screen {
            &self.alt_grid
        } else {
            &self.primary_grid
        };
        let row = &g[r];
        let mut out: Vec<Cell> = Vec::new();
        let mut j: usize = 0;
        while j < row.len()
            invariant
                j <= row@.len(),
                row@ == self@.active()[r as int],
                row@.len() == self@.cols,
                out@.len() == j,
                forall|k: int|
                    0 <= k < j ==> out@[k] == (if k < col {
                        row@[k]
                    } else if k + n < row@.len() {
                        row@[k + n]
                    } else {
                        spec_default_cell()
                    }),
            decreases row@.len() - j,
        {
            if j < col {
                out.push(row[j]);
            } else if n < row.len() - j {
                out.push(row[j + n]);
            } else {
                out.push(Cell::default());
            }
            j = j + 1;
        }
        proof {
            assert(out@ =~= Seq::new(
                self@.active()[r as int].len(),
                |j: int|
                    if j < col {
                        self@.active()[r as int][j]
                    } else if j + n < self@.active()[r as int].len() {
                        self@.active()[r as int][j + n]
                    } else {
                        spec_default_cell()
                    },
            ));
        }
        out
    }

    /// Absolute cursor position, already 0-based, clamped into the grid.
    pub fn cursor_goto(&mut self, r: usize, c: usize)
        requires
            old(self)@.wf(),
        ensures
            final(self)@ == old(self)@.spec_cursor_goto(r as nat, c as nat),
            final(self)@.wf(),
    {
        let lr = self.rows - 1;
        self.cursor_row = if r <= lr {
            r
        } else {
            lr
        };
        let lc = self.cols - 1;
        self.cursor_col = if c <= lc {
            c
        } else {
            lc
        };
    }

    /// Absolute column, already 0-based, clamped.
    pub fn cursor_col_abs(&mut self, c: usize)
        requires
            old(self)@.wf(),
        ensures
            final(self)@ == old(self)@.spec_cursor_col_abs(c as nat),
            final(self)@.wf(),
    {
        let lc = self.cols - 1;
        self.cursor_col = if c <= lc {
            c
        } else {
            lc
        };
    }

    /// Absolute row, already 0-based, clamped.
    pub fn cursor_row_abs(&mut self, r: usize)
        requires
            old(self)@.wf(),
        ensures
            final(self)@ == old(self)@.spec_cursor_row_abs(r as nat),
            final(self)@.wf(),
    {
        let lr = self.rows - 1;
        self.cursor_row = if r <= lr {
            r
        } else {
            lr
        };
    }

    /// Up by `n`, stopping at the top row.
    pub fn cursor_up(&mut self, n: usize)
        requires
            old(self)@.wf(),
        ensures
            final(self)@ == old(self)@.spec_cursor_up(n as nat),
            final(self)@.wf(),
    {
        self.cursor_row = if self.cursor_row >= n {
            self.cursor_row - n
        } else {
            0
        };
    }

    /// Down by `n`, stopping at the last row.
    pub fn cursor_down(&mut self, n: usize)
        requires
            old(self)@.wf(),
        ensures
            final(self)@ == old(self)@.spec_cursor_down(n as nat),
            final(self)@.wf(),
    {
        let lr = self.rows - 1;
        self.cursor_row = if n <= lr - self.cursor_row {
            self.cursor_row + n
        } else {
            lr
        };
    }

    /// Right by `n`, stopping at the last column.
    pub fn cursor_right(&mut self, n: usize)
        requires
            old(self)@.wf(),
        ensures
            final(self)@ == old(self)@.spec_cursor_right(n as nat),
            final(self)@.wf(),
    {
        let lc = self.cols - 1;
        self.cursor_col = if self.cursor_col <= lc && n <= lc - self.cursor_col {
            self.cursor_col + n
        } else {
            lc
        };
    }

    /// Left by `n`, stopping at column zero.
    pub fn cursor_left(&mut self, n: usize)
        requires
            old(self)@.wf(),
        ensures
            final(self)@ == old(self)@.spec_cursor_left(n as nat),
            final(self)@.wf(),
    {
        self.cursor_col = if self.cursor_col >= n {
            self.cursor_col - n
        } else {
            0
        };
    }

    /// Erase in display, full-clear form: blank the active grid and home
    /// the cursor.
    pub fn erase_all(&mut self)
        requires
            old(self)@.wf(),
        ensures
            final(self)@ == old(self)@.spec_erase_all(),
            final(self)@.wf(),
    {
        let g = blank_grid(self.rows, self.cols);
        if self.is_alt_screen {
            self.alt_grid = g;
        } else {
            self.primary_grid = g;
        }
        self.cursor_row = 0;
        self.cursor_col = 0;
        proof {
            assert(self@ =~~= old(self)@.spec_erase_all());
        }
    }

    /// Erase in line: blank the cursor's row from the cursor column to the
    /// end of the row.
    pub fn erase_line_from_cursor(&mut self)
        requires
            old(self)@.wf(),
        ensures
            final(self)@ == old(self)@.spec_erase_row_range(
                old(self)@.cursor_col,
                old(self)@.cols,
            ),
            final(self)@.wf(),
    {
        let r = self.cursor_row;
        let new_row = self.blanked_row(r, self.cursor_col, self.cols);
        self.set_active_row(r, new_row);
        proof {
            assert(self@ =~~= old(self)@.spec_erase_row_range(
                old(self)@.cursor_col,
                old(self)@.cols,
            ));
        }
    }

    /// Erase `n` characters forward: blank the cursor's row from the cursor
    /// column up to `n` cells, stopping at the end of the row.
    pub fn erase_chars(&mut self, n: usize)
        requires
            old(self)@.wf(),
        ensures
            final(self)@ == old(self)@.spec_erase_row_range(
                old(self)@.cursor_col,
                min_nat((old(self)@.cursor_col + n) as nat, old(self)@.cols),
            ),
            final(self)@.wf(),
    {
        let r = self.cursor_row;
        let from = self.cursor_col;
        let to = if n <= self.cols - from {
            from + n
        } else {
            self.cols
        };
        let new_row = self.blanked_row(r, from, to);
        self.set_active_row(r, new_row);
        proof {
            assert(self@ =~~= old(self)@.spec_erase_row_range(
                old(self)@.cursor_col,
                min_nat((old(self)@.cursor_col + n) as nat, old(self)@.cols),
            ));
        }
    }

    /// Delete `n` characters at the cursor: the rest of the row shifts
    /// left, blanks fill its tail.
    pub fn delete_chars(&mut self, n: usize)
        requires
            old(self)@.wf(),
        ensures
            final(self)@ == old(self)@.spec_delete_chars(n as nat),
            final(self)@.wf(),
    {
        if self.cursor_col < self.cols {
            let r = self.cursor_row;
            let new_row = self.deleted_row(r, self.cursor_col, n);
            self.set_active_row(r, new_row);
        }
        proof {
            assert(self@ =~~= old(self)@.spec_delete_chars(n as nat));
        }
    }

    /// Show or hide the cursor (private mode 25).
    pub fn set_cursor_visible(&mut self, b: bool)
        requires
            old(self)@.wf(),
        ensures
            final(self)@ == old(self)@.spec_set_cursor_visible(b),
            final(self)@.wf(),
    {
        self.cursor_visible = b;
    }

    /// Set or clear application cursor-key mode (private mode 1).
    pub fn set_application_cursor(&mut self, b: bool)
        requires
            old(self)@.wf(),
        ensures
            final(self)@ == old(self)@.spec_set_application_cursor(b),
            final(self)@.wf(),
    {
        self.application_cursor = b;
    }

    /// Enter the alternate screen (private mode 1049 set): save the cursor,
    /// clear the alternate grid, make it active, home the cursor.
    pub fn enter_alt_screen(&mut self)
        requires
            old(self)@.wf(),
        ensures
            final(self)@ == old(self)@.spec_enter_alt_screen(),
            final(self)@.wf(),
    {
        self.saved_cursor = (self.cursor_row, self.cursor_col);
        self.is_alt_screen = true;
        self.alt_grid = blank_grid(self.rows, self.cols);
        self.cursor_row = 0;
        self.cursor_col = 0;
        proof {
            assert(self@ =~~= old(self)@.spec_enter_alt_screen());
        }
    }

    /// Leave the alternate screen (private mode 1049 reset): the primary
    /// grid becomes active unchanged and the cursor returns to the saved
    /// slot.
    pub fn exit_alt_screen(&mut self)
        requires
            old(self)@.wf(),
        ensures
            final(self)@ == old(self)@.spec_exit_alt_screen(),
            final(self)@.wf(),
    {
        self.is_alt_screen = false;
        let (sr, sc) = self.saved_cursor;
        self.cursor_row = sr;
        self.cursor_col = sc;
    }

    /// Apply a select-graphic-rendition parameter list to the current
    /// attributes, as `spec_sgr` describes.
    pub fn apply_sgr(&mut self, params: &Vec<u16>)
        requires
            old(self)@.wf(),
        ensures
            final(self)@ == old(self)@.spec_apply_sgr(params@),
            final(self)@.wf(),
    {
        let mut i: usize = 0;
        while i < params.len()
            invariant
                i <= params@.len(),
                self@ == (ScreenView {
                    fg: self@.fg,
                    bg: self@.bg,
                    inverse: self@.inverse,
                    ..old(self)@
                }),
                spec_sgr(self@.fg, self@.bg, self@.inverse, params@, i as int) == spec_sgr(
                    old(self)@.fg,
                    old(self)@.bg,
                    old(self)@.inverse,
                    params@,
                    0,
                ),
            decreases params@.len() - i,
        {
            let p = params[i];
            if p == 0 {
                self.current_fg = Color::default_fg();
                self.current_bg = Color::transparent();
                self.current_inverse = false;
                i = i + 1;
            } else if p == 7 {
                self.current_inverse = true;
                i = i + 1;
            } else if p == 27 {
                self.current_inverse = false;
                i = i + 1;
            } else if 30 <= p && p <= 37 {
                self.current_fg = crate::cell::ansi_color((p - 30) as u8);
                i = i + 1;
            } else if p == 38 || p == 48 {
                let rem = params.len() - i;
                if rem == 1 {
                    i = params.len();
                } else if params[i + 1] == 5 {
                    if rem >= 3 {
                        let color = crate::cell::ansi_color(#[verifier::truncate] (params[i + 2] as u8));
                        if p == 38 {
                            self.current_fg = color;
                        } else {
                            self.current_bg = color;
                        }
                        i = i + 3;
                    } else {
                        i = params.len();
                    }
                } else if params[i + 1] == 2 {
                    let r = if rem >= 3 {
                        #[verifier::truncate] (params[i + 2] as u8)
                    } else {
                        0
                    };
                    let g = if rem >= 4 {
                        #[verifier::truncate] (params[i + 3] as u8)
                    } else {
                        0
                    };
                    let b = if rem >= 5 {
                        #[verifier::truncate] (params[i + 4] as u8)
                    } else {
                        0
                    };
                    let color = Color::rgb(r, g, b);
                    if p == 38 {
                        self.current_fg = color;
                    } else {
                        self.current_bg = color;
                    }
                    i = if rem >= 5 {
                        i + 5
                    } else {
                        params.len()
                    };
                } else {
                    i = i + 2;
                }
            } else if p == 39 {
                self.current_fg = Color::default_fg();
                i = i + 1;
            } else if 40 <= p && p <= 47 {
                self.current_bg = crate::cell::ansi_color((p - 40) as u8);
                i = i + 1;
            } else if p == 49 {
                self.current_bg = Color::transparent();
                i = i + 1;
            } else if 90 <= p && p <= 97 {
                self.current_fg = crate::cell::ansi_color((p - 90 + 8) as u8);
                i = i + 1;
            } else if 100 <= p && p <= 107 {
                self.current_bg = crate::cell::ansi_color((p - 100 + 8) as u8);
                i = i + 1;
            } else {
                i = i + 1;
            }
        }
        proof {
            assert(self@ =~~= old(self)@.spec_apply_sgr(params@));
        }
    }

    /// Resize both grids, as `ScreenView::spec_resize` describes: kept rows
    /// are cut or padded on the right, rows are cut from or appended at the
    /// bottom, and the cursor and saved cursor are clamped into the new
    /// bounds. Geometry outside what the pseudo-terminal's 16-bit window
    /// size can carry, including zero, is a no-op.
    pub fn resize(&mut self, new_rows: usize, new_cols: usize)
        requires
            old(self)@.wf(),
        ensures
            final(self)@ == old(self)@.spec_resize(new_rows as nat, new_cols as nat),
            final(self)@.wf(),
    {
        if new_rows == 0 || new_cols == 0 || new_rows > MAX_DIM || new_cols > MAX_DIM {
            return ;
        }
        let p = resize_grid(&self.primary_grid, new_rows, new_cols);
        self.primary_grid = p;
        let a = resize_grid(&self.alt_grid, new_rows, new_cols);
        self.alt_grid = a;
        self.rows = new_rows;
        self.cols = new_cols;
        if self.cursor_row > new_rows - 1 {
            self.cursor_row = new_rows - 1;
        }
        if self.cursor_col > new_cols - 1 {
            self.cursor_col = new_cols - 1;
        }
        let (sr, sc) = self.saved_cursor;
        let nsr = if sr > new_rows - 1 {
            new_rows - 1
        } else {
            sr
        };
        let nsc = if sc > new_cols {
            new_cols
        } else {
            sc
        };
        self.saved_cursor = (nsr, nsc);
        proof {
            assert(self@ =~~= old(self)@.spec_resize(new_rows as nat, new_cols as nat));
        }
    }
}

/// A copy of one row brought to width `c`: cut on the right, or padded with
/// blank cells.
fn resized_row(row: &Vec<Cell>, c: usize) -> (r: Vec<Cell>)
    ensures
        r@ == ScreenView::spec_resize_row(row@, c as nat),
{
    let mut r: Vec<Cell> = Vec::new();
    let mut j: usize = 0;
    while j < c
        invariant
            j <= c,
            r@.len() == j,
            forall|k: int|
                0 <= k < j ==> r@[k] == (if k < row@.len() {
                    row@[k]
                } else {
                    spec_default_cell()
                }),
        decreases c - j,
    {
        if j < row.len() {
            r.push(row[j]);
        } else {
            r.push(Cell::default());
        }
        j = j + 1;
    }
    proof {
        assert(r@ =~= ScreenView::spec_resize_row(row@, c as nat));
    }
    r
}

/// A copy of a grid brought to `r` rows of `c` cells.
fn resize_grid(g: &Vec<Vec<Cell>>, r: usize, c: usize) -> (ng: Vec<Vec<Cell>>)
    ensures
        grid_view(ng@) == ScreenView::spec_resize_grid(grid_view(g@), r as nat, c as nat),
{
    let mut ng: Vec<Vec<Cell>> = Vec::new();
    let mut i: usize = 0;
    while i < r
        invariant
            i <= r,
            ng@.len() == i,
            forall|k: int|
                0 <= k < i ==> (#[trigger] ng@[k])@ == (if k < g@.len() {
                    ScreenView::spec_resize_row(g@[k]@, c as nat)
                } else {
                    spec_blank_row(c as nat)
                }),
        decreases r - i,
    {
        if i < g.len() {
            ng.push(resized_row(&g[i], c));
        } else {
            ng.push(fill_row(c, Cell::default()));
        }
        i = i + 1;
    }
    proof {
        assert(grid_view(ng@) =~~= ScreenView::spec_resize_grid(
            grid_view(g@),
            r as nat,
            c as nat,
        ));
    }
    ng
}

} // verus!
