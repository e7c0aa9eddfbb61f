//! Viewport windowing: which content rows — scrollback first, then the
//! active grid — a renderer shows for a given display height and scroll
//! offset, and how one content row is fetched. Pure reads; nothing here
//! mutates the screen.

use vstd::prelude::*;
use crate::cell::Cell;
use crate::screen::{TerminalState, sat_sub, min_nat};

verus! {

/// The inclusive content-row range `[top, bottom]` to display. The offset
/// counts rows scrolled up from the live bottom and never exceeds the
/// scrollback length; the window ends `offset` rows above the last content
/// row and reaches up `display_rows` rows.
pub open spec fn spec_viewport_range(
    history_len: nat,
    grid_rows: nat,
    display_rows: nat,
    scroll_offset: nat,
) -> (nat, nat) {
    let clamped = min_nat(scroll_offset, history_len);
    let bottom = sat_sub((history_len + grid_rows) as nat, (1 + clamped) as nat);
    let top = sat_sub(bottom, sat_sub(display_rows, 1));
    (top, bottom)
}

/// Compute the visible content-row range, as `spec_viewport_range`
/// describes.
pub fn viewport_range(
    history_len: usize,
    grid_rows: usize,
    display_rows: usize,
    scroll_offset: usize,
) -> (r: (usize, usize))
    requires
        display_rows >= 1,
        history_len + grid_rows <= usize::MAX,
    ensures
        r.0 as nat == spec_viewport_range(
            history_len as nat,
            grid_rows as nat,
            display_rows as nat,
            scroll_offset as nat,
        ).0,
        r.1 as nat == spec_viewport_range(
            history_len as nat,
            grid_rows as nat,
            display_rows as nat,
            scroll_offset as nat,
        ).1,
{
    let clamped = if scroll_offset <= history_len {
        scroll_offset
    } else {
        history_len
    };
    let total = history_len + grid_rows;
    let bottom = if total > clamped {
        total - clamped - 1
    } else {
        0
    };
    let up = display_rows - 1;
    let top = if bottom >= up {
        bottom - up
    } else {
        0
    };
    (top, bottom)
}

impl TerminalState {
    /// Content row `idx`, counting scrollback rows first and then the
    /// active grid's rows; None past the end.
    pub open spec fn spec_content_row(self, idx: nat) -> Option<Seq<Cell>> {
        let v = self@;
        if idx < v.history.len() {
            Some(v.history[idx as int])
        } else if idx - v.history.len() < v.active().len() {
            Some(v.active()[idx - v.history.len()])
        } else {
            None
        }
    }

    /// A copy of content row `idx`, as `spec_content_row` describes.
    pub fn content_row(&self, idx: usize) -> (r: Option<Vec<Cell>>)
        requires
            self@.wf(),
        ensures
            match r {
                Some(row) => self.spec_content_row(idx as nat) == Some(row@),
                None => self.spec_content_row(idx as nat) is None,
            },
    {
        if idx < self.history.len() {
            Some(copy_row(&self.history[idx]))
        } else {
            let rel = idx - self.history.len();
            let g = if self.is_alt_screen {
                &self.alt_grid
            } else {
                &self.primary_grid
            };
            if rel < g.len() {
                Some(copy_row(&g[rel]))
            } else {
                None
            }
        }
    }
}

/// An element-for-element copy of one row.
fn copy_row(row: &Vec<Cell>) -> (out: Vec<Cell>)
    ensures
        out@ == row@,
{
    let mut out: Vec<Cell> = Vec::new();
    let mut j: usize = 0;
    while j < row.len()
        invariant
            j <= row@.len(),
            out@ =~= row@.subrange(0, j as int),
        decreases row@.len() - j,
    {
        out.push(row[j]);
        j = j + 1;
    }
    proof {
        assert(out@ =~= row@);
    }
    out
}

} // verus!
