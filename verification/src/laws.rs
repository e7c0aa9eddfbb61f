//! Laws of the engine, stated over the mathematical views and proved once
//! for all states: what printing writes and how the cursor moves, how
//! resizing composes, the scrollback bound and its eviction order, and the
//! alternate-screen round trip.

use vstd::prelude::*;
use crate::cell::Cell;
use crate::screen::{ScreenView, spec_is_wide, spec_cont_cell, MAX_DIM, SCROLLBACK_MAX};

verus! {

/// Printing a narrow character at a column short of the last one advances
/// the cursor by exactly one and writes exactly one cell — the character
/// in the current attributes at the old cursor position — leaving every
/// other cell, the geometry and the scrollback unchanged.
pub proof fn lemma_print_narrow(v: ScreenView, ch: char)
    requires
        v.wf(),
        !spec_is_wide(ch),
        v.cursor_col < v.cols - 1,
    ensures
        v.spec_print(ch).cursor_row == v.cursor_row,
        v.spec_print(ch).cursor_col == v.cursor_col + 1,
        v.spec_print(ch).active()[v.cursor_row as int][v.cursor_col as int] == (Cell {
            c: ch,
            fg: v.fg,
            bg: v.bg,
            inverse: v.inverse,
            is_wide_continuation: false,
        }),
        forall|i: int, j: int|
            0 <= i < v.rows && 0 <= j < v.cols && !(i == v.cursor_row && j == v.cursor_col)
                ==> v.spec_print(ch).active()[i][j] == v.active()[i][j],
        v.spec_print(ch).history == v.history,
        v.spec_print(ch).rows == v.rows,
        v.spec_print(ch).cols == v.cols,
{
}

/// Printing a wide character with both of its columns inside the row
/// writes the character cell at the cursor and a continuation cell right
/// of it, advances the cursor by two, and changes nothing else.
pub proof fn lemma_print_wide(v: ScreenView, ch: char)
    requires
        v.wf(),
        spec_is_wide(ch),
        v.cursor_col + 2 <= v.cols,
    ensures
        v.spec_print(ch).cursor_row == v.cursor_row,
        v.spec_print(ch).cursor_col == v.cursor_col + 2,
        v.spec_print(ch).active()[v.cursor_row as int][v.cursor_col as int] == (Cell {
            c: ch,
            fg: v.fg,
            bg: v.bg,
            inverse: v.inverse,
            is_wide_continuation: false,
        }),
        v.spec_print(ch).active()[v.cursor_row as int][v.cursor_col as int + 1] == spec_cont_cell(
            v.fg,
            v.bg,
            v.inverse,
        ),
        forall|i: int, j: int|
            0 <= i < v.rows && 0 <= j < v.cols && !(i == v.cursor_row && (j == v.cursor_col || j
                == v.cursor_col + 1)) ==> v.spec_print(ch).active()[i][j] == v.active()[i][j],
        v.spec_print(ch).history == v.history,
        v.spec_print(ch).rows == v.rows,
        v.spec_print(ch).cols == v.cols,
{
}

/// Printing a wide character at the last column wraps to the start of the
/// next row first: the character and its continuation land in columns
/// zero and one of the row below, and the cursor's old row keeps every
/// cell.
pub proof fn lemma_print_wide_wraps(v: ScreenView, ch: char)
    requires
        v.wf(),
        spec_is_wide(ch),
        v.cols >= 2,
        v.cursor_col == v.cols - 1,
        v.cursor_row < v.rows - 1,
    ensures
        v.spec_print(ch).cursor_row == v.cursor_row + 1,
        v.spec_print(ch).cursor_col == 2,
        v.spec_print(ch).active()[v.cursor_row as int + 1][0] == (Cell {
            c: ch,
            fg: v.fg,
            bg: v.bg,
            inverse: v.inverse,
            is_wide_continuation: false,
        }),
        v.spec_print(ch).active()[v.cursor_row as int + 1][1] == spec_cont_cell(v.fg, v.bg, v.inverse),
        forall|j: int|
            0 <= j < v.cols ==> v.spec_print(ch).active()[v.cursor_row as int][j] == v.active()[
                v.cursor_row as int
            ][j],
{
}

/// Resizing is idempotent on dimensions: going to `(r2, c2)`, then through
/// any `(r1, c1)`, then to `(r2, c2)` again ends at exactly the dimensions
/// a single resize to `(r2, c2)` gives, with the cursor inside them.
pub proof fn lemma_resize_dims_idempotent(v: ScreenView, r1: nat, c1: nat, r2: nat, c2: nat)
    requires
        v.wf(),
        1 <= r2 <= MAX_DIM as nat,
        1 <= c2 <= MAX_DIM as nat,
    ensures
        v.spec_resize(r2, c2).spec_resize(r1, c1).spec_resize(r2, c2).rows == v.spec_resize(
            r2,
            c2,
        ).rows,
        v.spec_resize(r2, c2).spec_resize(r1, c1).spec_resize(r2, c2).cols == v.spec_resize(
            r2,
            c2,
        ).cols,
        v.spec_resize(r2, c2).spec_resize(r1, c1).spec_resize(r2, c2).rows == r2,
        v.spec_resize(r2, c2).spec_resize(r1, c1).spec_resize(r2, c2).cols == c2,
        v.spec_resize(r2, c2).spec_resize(r1, c1).spec_resize(r2, c2).cursor_row < r2,
        v.spec_resize(r2, c2).spec_resize(r1, c1).spec_resize(r2, c2).cursor_col < c2,
{
}

/// Scrolling never takes the scrollback past its cap.
pub proof fn lemma_scrollback_bounded(v: ScreenView)
    requires
        v.wf(),
    ensures
        v.spec_scroll_up().history.len() <= SCROLLBACK_MAX as nat,
{
}

/// Scrolling with the scrollback already full keeps it full and evicts
/// exactly the oldest row: what remains is the old scrollback without its
/// first row, with the evicted grid row at the end.
pub proof fn lemma_scrollback_evicts_oldest(v: ScreenView)
    requires
        v.wf(),
        !v.is_alt_screen,
        v.history.len() == SCROLLBACK_MAX as nat,
    ensures
        v.spec_scroll_up().history.len() == SCROLLBACK_MAX as nat,
        v.spec_scroll_up().history == v.history.subrange(1, SCROLLBACK_MAX as int).push(
            v.active()[0],
        ),
{
    assert(v.spec_scroll_up().history =~= v.history.subrange(1, SCROLLBACK_MAX as int).push(
        v.active()[0],
    ));
}

/// Scrolling below the cap appends the evicted top row and drops nothing.
pub proof fn lemma_scrollback_grows(v: ScreenView)
    requires
        v.wf(),
        !v.is_alt_screen,
        v.history.len() < SCROLLBACK_MAX as nat,
    ensures
        v.spec_scroll_up().history == v.history.push(v.active()[0]),
{
}

/// Entering the alternate screen and leaving it again restores the cursor
/// to the exact position it held before entry, and the primary grid and
/// the scrollback are untouched.
pub proof fn lemma_alt_screen_round_trip(v: ScreenView)
    requires
        v.wf(),
    ensures
        v.spec_enter_alt_screen().spec_exit_alt_screen().cursor_row == v.cursor_row,
        v.spec_enter_alt_screen().spec_exit_alt_screen().cursor_col == v.cursor_col,
        v.spec_enter_alt_screen().spec_exit_alt_screen().primary == v.primary,
        v.spec_enter_alt_screen().spec_exit_alt_screen().history == v.history,
        !v.spec_enter_alt_screen().spec_exit_alt_screen().is_alt_screen,
{
}

/// While the alternate screen is active, printing leaves the primary
/// grid, the scrollback and the saved cursor untouched; with the previous
/// law, any amount of alternate-screen output between entry and exit
/// still restores the cursor and the primary grid exactly.
pub proof fn lemma_alt_print_preserves_primary(v: ScreenView, ch: char)
    requires
        v.wf(),
        v.is_alt_screen,
    ensures
        v.spec_print(ch).primary == v.primary,
        v.spec_print(ch).history == v.history,
        v.spec_print(ch).saved_row == v.saved_row,
        v.spec_print(ch).saved_col == v.saved_col,
        v.spec_print(ch).is_alt_screen,
{
}

/// Scrolling the alternate screen likewise leaves the primary grid, the
/// scrollback and the saved cursor untouched.
pub proof fn lemma_alt_scroll_preserves_primary(v: ScreenView)
    requires
        v.wf_frame(),
        v.is_alt_screen,
    ensures
        v.spec_scroll_up().primary == v.primary,
        v.spec_scroll_up().history == v.history,
        v.spec_scroll_up().saved_row == v.saved_row,
        v.spec_scroll_up().saved_col == v.saved_col,
        v.spec_scroll_up().is_alt_screen,
{
}

} // verus!
