//! Screen dimensions, scroll offsets, and the scroll reconciliation rule.

use vstd::prelude::*;

verus! {

/// Moves `offset` just far enough that `pos` lies within the window of
/// `extent` cells starting at the offset: scroll up (or left) exactly to
/// `pos` when it lies before the window, down (or right) so that `pos`
/// becomes the last visible cell when it lies past it, else stay.
pub open spec fn scrolled_offset(offset: usize, pos: usize, extent: usize) -> usize {
    if pos < offset {
        pos
    } else if pos >= offset + extent {
        (pos - extent + 1) as usize
    } else {
        offset
    }
}

/// The visible window: character dimensions of the text area and the
/// top-left buffer coordinate currently shown.
#[derive(Clone, Copy, Debug, PartialEq, Eq, Structural)]
pub struct ViewportController {
    pub screen_cols: usize,
    pub screen_rows: usize,
    pub row_offset: usize,
    pub col_offset: usize,
}

impl ViewportController {
    /// Screen dimensions are at least one cell and come from a terminal,
    /// whose sizes are 16-bit.
    pub open spec fn wf(self) -> bool {
        1 <= self.screen_rows <= u16::MAX && 1 <= self.screen_cols <= u16::MAX
    }

    /// The cell at buffer row `row` and render column `rcol` lies inside
    /// the visible window.
    pub open spec fn in_view(self, row: int, rcol: int) -> bool {
        self.row_offset <= row < self.row_offset + self.screen_rows
            && self.col_offset <= rcol < self.col_offset + self.screen_cols
    }

    /// Both offsets after scrolling the cursor back into view.
    pub open spec fn reconcile_spec(self, row: usize, rcol: usize) -> ViewportController {
        ViewportController {
            row_offset: scrolled_offset(self.row_offset, row, self.screen_rows),
            col_offset: scrolled_offset(self.col_offset, rcol, self.screen_cols),
            ..self
        }
    }

    pub fn new(screen_cols: usize, screen_rows: usize) -> (r: ViewportController)
        requires
            1 <= screen_rows <= u16::MAX,
            1 <= screen_cols <= u16::MAX,
        ensures
            r.wf(),
            r.screen_cols == screen_cols,
            r.screen_rows == screen_rows,
            r.row_offset == 0,
            r.col_offset == 0,
    {
        ViewportController { screen_cols, screen_rows, row_offset: 0, col_offset: 0 }
    }

    /// Scrolls just far enough that the cursor cell is visible. A viewport
    /// that already shows the cursor is left exactly as it is.
    pub fn reconcile(&mut self, cursor_row: usize, render_col: usize)
        requires
            old(self).wf(),
        ensures
            *final(self) == old(self).reconcile_spec(cursor_row, render_col),
            final(self).wf(),
            final(self).in_view(cursor_row as int, render_col as int),
            old(self).in_view(cursor_row as int, render_col as int) ==> *final(self)
                == *old(self),
    {
        if cursor_row < self.row_offset {
            self.row_offset = cursor_row;
        } else if cursor_row - self.row_offset >= self.screen_rows {
            self.row_offset = cursor_row - self.screen_rows + 1;
        }
        if render_col < self.col_offset {
            self.col_offset = render_col;
        } else if render_col - self.col_offset >= self.screen_cols {
            self.col_offset = render_col - self.screen_cols + 1;
        }
    }

    /// Reconciliation is idempotent: a second reconciliation with the same
    /// cursor position leaves both offsets unchanged.
    pub proof fn lemma_reconcile_idempotent(self, row: usize, rcol: usize)
        requires
            self.wf(),
        ensures
            self.reconcile_spec(row, rcol).reconcile_spec(row, rcol) == self.reconcile_spec(
                row,
                rcol,
            ),
    {
    }

    /// On-screen row of an absolute buffer row inside the window.
    pub fn screen_row_for(&self, buffer_row: usize) -> (r: usize)
        requires
            self.row_offset <= buffer_row < self.row_offset + self.screen_rows,
        ensures
            r == buffer_row - self.row_offset,
    {
        buffer_row - self.row_offset
    }

    /// On-screen column of an absolute render column inside the window.
    pub fn screen_col_for(&self, render_col: usize) -> (r: usize)
        requires
            self.col_offset <= render_col < self.col_offset + self.screen_cols,
        ensures
            r == render_col - self.col_offset,
    {
        render_col - self.col_offset
    }
}

} // verus!
