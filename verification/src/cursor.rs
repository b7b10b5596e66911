//! The vi-style motion state machine: cursor position, sticky column, and
//! the simple and page-relative motions.

use vstd::prelude::*;

use crate::buffer::TextBuffer;
use crate::buffer::buf_render_width;
use crate::row::Row;
use crate::row::lemma_render_len_ge;
use crate::types::JumpCommand;
use crate::types::MoveCommand;
use crate::viewport::ViewportController;

verus! {

/// Whitespace as the first-non-blank motion sees it: the characters with
/// the Unicode `White_Space` property.
pub open spec fn is_blank_spec(c: char) -> bool {
    ('\u{9}' <= c <= '\u{d}') || c == ' ' || c == '\u{85}' || c == '\u{a0}' || c == '\u{1680}'
        || ('\u{2000}' <= c <= '\u{200a}') || c == '\u{2028}' || c == '\u{2029}' || c == '\u{202f}'
        || c == '\u{205f}' || c == '\u{3000}'
}

fn is_blank(c: char) -> (r: bool)
    ensures
        r == is_blank_spec(c),
{
    ('\u{9}' <= c && c <= '\u{d}') || c == ' ' || c == '\u{85}' || c == '\u{a0}'
        || c == '\u{1680}' || ('\u{2000}' <= c && c <= '\u{200a}') || c == '\u{2028}'
        || c == '\u{2029}' || c == '\u{202f}' || c == '\u{205f}' || c == '\u{3000}'
}

/// Index of the first non-blank character of a line, if any.
pub open spec fn find_non_blank(s: Seq<char>) -> Option<nat>
    decreases s.len(),
{
    if s.len() == 0 {
        None
    } else if !is_blank_spec(s[0]) {
        Some(0 as nat)
    } else {
        match find_non_blank(s.drop_first()) {
            None => None,
            Some(i) => Some(i + 1),
        }
    }
}

/// Where the first-non-blank motion lands: the index of the first
/// non-blank character, or column zero when the line is all blank.
pub open spec fn first_non_blank_of(s: Seq<char>) -> nat {
    match find_non_blank(s) {
        None => 0,
        Some(i) => i,
    }
}

proof fn lemma_find_non_blank_at(s: Seq<char>, i: int)
    requires
        0 <= i < s.len(),
        !is_blank_spec(s[i]),
        forall|j: int| 0 <= j < i ==> is_blank_spec(s[j]),
    ensures
        find_non_blank(s) == Some(i as nat),
    decreases i,
{
    if i > 0 {
        lemma_find_non_blank_at(s.drop_first(), i - 1);
    }
}

proof fn lemma_find_non_blank_none(s: Seq<char>)
    requires
        forall|j: int| 0 <= j < s.len() ==> is_blank_spec(s[j]),
    ensures
        find_non_blank(s) is None,
    decreases s.len(),
{
    if s.len() > 0 {
        lemma_find_non_blank_none(s.drop_first());
    }
}

fn first_non_blank(row: &Row) -> (r: usize)
    ensures
        r == first_non_blank_of(row@),
{
    let content = row.content();
    let mut i: usize = 0;
    while i < content.len()
        invariant
            i <= content@.len(),
            content@ == row@,
            forall|j: int| 0 <= j < i ==> is_blank_spec(content@[j]),
        decreases content@.len() - i,
    {
        if !is_blank(content[i]) {
            proof {
                lemma_find_non_blank_at(content@, i as int);
            }
            return i;
        }
        i += 1;
    }
    proof {
        lemma_find_non_blank_none(content@);
    }
    0
}

/// Column a vertical or horizontal step settles on: the sticky column if
/// the row is long enough to reach it, else the last render column, or
/// zero on an empty row.
pub open spec fn reclamp(sticky: usize, width: nat) -> usize {
    if width == 0 {
        0
    } else if sticky < width {
        sticky
    } else {
        (width - 1) as usize
    }
}

/// The logical cursor position and the sticky column that vertical
/// motions try to return to.
#[derive(Clone, Copy, Debug, PartialEq, Eq, Structural)]
pub struct CursorNavigator {
    pub cursor_row: usize,
    pub cursor_col: usize,
    pub sticky_col: usize,
}

impl CursorNavigator {
    pub fn new() -> (r: CursorNavigator)
        ensures
            r == (CursorNavigator { cursor_row: 0, cursor_col: 0, sticky_col: 0 }),
    {
        CursorNavigator { cursor_row: 0, cursor_col: 0, sticky_col: 0 }
    }

    /// The cursor column after reclamping against the current row.
    pub open spec fn reclamped(self, buf: Seq<Seq<char>>) -> CursorNavigator {
        CursorNavigator {
            cursor_col: reclamp(self.sticky_col, buf_render_width(buf, self.cursor_row as int)),
            ..self
        }
    }

    /// State after a simple motion. Every motion except the line-boundary
    /// jumps (end, start, first non-blank) finishes by reclamping the
    /// column against the target row.
    pub open spec fn move_spec(self, cmd: MoveCommand, buf: Seq<Seq<char>>) -> CursorNavigator {
        let rows = buf.len();
        match cmd {
            MoveCommand::Left => {
                let moved = if self.cursor_col > 0 {
                    CursorNavigator {
                        cursor_col: (self.cursor_col - 1) as usize,
                        sticky_col: (self.cursor_col - 1) as usize,
                        ..self
                    }
                } else {
                    self
                };
                moved.reclamped(buf)
            },
            MoveCommand::BackspaceLeft => {
                let moved = if self.cursor_col > 0 {
                    CursorNavigator {
                        cursor_col: (self.cursor_col - 1) as usize,
                        sticky_col: (self.cursor_col - 1) as usize,
                        ..self
                    }
                } else if self.cursor_row > 0 {
                    let w = buf_render_width(buf, self.cursor_row - 1);
                    CursorNavigator {
                        cursor_row: (self.cursor_row - 1) as usize,
                        cursor_col: w as usize,
                        sticky_col: w as usize,
                        ..self
                    }
                } else {
                    self
                };
                moved.reclamped(buf)
            },
            MoveCommand::Down => {
                let moved = if self.cursor_row + 1 < rows {
                    CursorNavigator { cursor_row: (self.cursor_row + 1) as usize, ..self }
                } else {
                    self
                };
                moved.reclamped(buf)
            },
            MoveCommand::Up => {
                let moved = if self.cursor_row > 0 {
                    CursorNavigator { cursor_row: (self.cursor_row - 1) as usize, ..self }
                } else {
                    self
                };
                moved.reclamped(buf)
            },
            MoveCommand::Right => {
                let w = buf_render_width(buf, self.cursor_row as int);
                let moved = if self.cursor_row < rows && self.cursor_col < w {
                    CursorNavigator {
                        cursor_col: (self.cursor_col + 1) as usize,
                        sticky_col: if self.sticky_col + 1 < w {
                            (self.cursor_col + 1) as usize
                        } else {
                            self.sticky_col
                        },
                        ..self
                    }
                } else {
                    self
                };
                moved.reclamped(buf)
            },
            MoveCommand::LineEnd => {
                if self.cursor_row < rows {
                    let n = buf[self.cursor_row as int].len();
                    CursorNavigator { cursor_col: n as usize, sticky_col: n as usize, ..self }
                } else {
                    self
                }
            },
            MoveCommand::LineStart => {
                CursorNavigator { cursor_col: 0, sticky_col: 0, ..self }
            },
            MoveCommand::FirstNonBlank => {
                if self.cursor_row < rows {
                    let i = first_non_blank_of(buf[self.cursor_row as int]);
                    CursorNavigator { cursor_col: i as usize, sticky_col: i as usize, ..self }
                } else {
                    self
                }
            },
        }
    }

    /// Cursor and viewport after a page-relative motion, for a buffer of
    /// at least one row. `eof` is the last row. Every jump finishes by
    /// reclamping the column; the full-page-up boundary correction keeps
    /// its literal extra step of two rows, clamped to the buffer.
    pub open spec fn jump_spec(
        self,
        vp: ViewportController,
        cmd: JumpCommand,
        buf: Seq<Seq<char>>,
    ) -> (CursorNavigator, ViewportController) {
        let eof = buf.len() - 1;
        let sr = vp.screen_rows as int;
        let hj = sr / 2;
        let ro = vp.row_offset as int;
        let row = self.cursor_row as int;
        let (row2, ro2): (int, int) = match cmd {
            JumpCommand::High => (ro, ro),
            JumpCommand::Low => (vstd::math::min(ro + sr - 1, eof), ro),
            JumpCommand::HalfDown => (
                vstd::math::min(row + hj, eof),
                if eof <= ro + sr {
                    ro
                } else {
                    vstd::math::min(ro + hj, eof - sr + 1)
                },
            ),
            JumpCommand::HalfUp => (vstd::math::max(row - hj, 0), vstd::math::max(ro - hj, 0)),
            JumpCommand::FullDown => {
                let newro = vstd::math::min(ro + sr - 1, eof);
                (
                    if row + sr > eof {
                        eof
                    } else if newro >= 1 {
                        newro - 1
                    } else {
                        0
                    },
                    newro,
                )
            },
            JumpCommand::FullUp => {
                let r1 = if ro == 0 {
                    row
                } else if row < ro + sr - 1 {
                    ro + 1
                } else {
                    row - sr + 2
                };
                let r2 = if ro == eof && ro != 0 {
                    r1 - 2
                } else {
                    r1
                };
                (vstd::math::min(r2, eof), vstd::math::max(ro - sr, 0))
            },
        };
        let nav = CursorNavigator { cursor_row: row2 as usize, ..self }.reclamped(buf);
        let vp2 = ViewportController { row_offset: ro2 as usize, ..vp };
        (nav, vp2)
    }

    /// Applies a simple motion against the buffer.
    pub fn move_cursor(&mut self, cmd: MoveCommand, buf: &TextBuffer)
        requires
            buf.wf(),
            buf@.len() >= 1,
            old(self).cursor_row < buf@.len(),
        ensures
            *final(self) == old(self).move_spec(cmd, buf@),
            final(self).cursor_row < buf@.len(),
            final(self).cursor_col <= buf_render_width(buf@, final(self).cursor_row as int),
    {
        let rows = buf.row_count();
        match cmd {
            MoveCommand::Left => {
                if self.cursor_col > 0 {
                    self.cursor_col = self.cursor_col - 1;
                    self.sticky_col = self.cursor_col;
                }
                self.reclamp_col(buf);
            },
            MoveCommand::BackspaceLeft => {
                if self.cursor_col > 0 {
                    self.cursor_col = self.cursor_col - 1;
                    self.sticky_col = self.cursor_col;
                } else if self.cursor_row > 0 {
                    self.cursor_row = self.cursor_row - 1;
                    self.cursor_col = buf.render_width(self.cursor_row);
                    self.sticky_col = self.cursor_col;
                }
                self.reclamp_col(buf);
            },
            MoveCommand::Down => {
                if self.cursor_row + 1 < rows {
                    self.cursor_row = self.cursor_row + 1;
                }
                self.reclamp_col(buf);
            },
            MoveCommand::Up => {
                if self.cursor_row > 0 {
                    self.cursor_row = self.cursor_row - 1;
                }
                self.reclamp_col(buf);
            },
            MoveCommand::Right => {
                let w = buf.render_width(self.cursor_row);
                if self.cursor_row < rows && self.cursor_col < w {
                    self.cursor_col = self.cursor_col + 1;
                    if self.sticky_col < w - 1 {
                        self.sticky_col = self.cursor_col;
                    }
                }
                self.reclamp_col(buf);
            },
            MoveCommand::LineEnd => {
                if self.cursor_row < rows {
                    let n = buf.row_at(self.cursor_row).len();
                    self.cursor_col = n;
                    self.sticky_col = n;
                    proof {
                        lemma_render_len_ge(buf@[self.cursor_row as int]);
                    }
                }
            },
            MoveCommand::LineStart => {
                self.cursor_col = 0;
                self.sticky_col = 0;
            },
            MoveCommand::FirstNonBlank => {
                if self.cursor_row < rows {
                    let i = first_non_blank(buf.row_at(self.cursor_row));
                    self.cursor_col = i;
                    self.sticky_col = i;
                    proof {
                        let s = buf@[self.cursor_row as int];
                        if find_non_blank(s) is Some {
                            lemma_find_some_in_range(s);
                        }
                        lemma_render_len_ge(s);
                    }
                }
            },
        }
    }

    /// Applies a page-relative motion, moving the scroll offset with the
    /// cursor as the motion demands.
    pub fn jump_cursor(&mut self, cmd: JumpCommand, vp: &mut ViewportController, buf: &TextBuffer)
        requires
            buf.wf(),
            buf@.len() >= 1,
            old(vp).wf(),
            old(self).cursor_row < buf@.len(),
            old(vp).row_offset <= old(self).cursor_row,
        ensures
            *final(self) == old(self).jump_spec(*old(vp), cmd, buf@).0,
            *final(vp) == old(self).jump_spec(*old(vp), cmd, buf@).1,
            final(self).cursor_row < buf@.len(),
            final(self).cursor_col <= buf_render_width(buf@, final(self).cursor_row as int),
            final(vp).wf(),
            final(vp).screen_rows == old(vp).screen_rows,
            final(vp).screen_cols == old(vp).screen_cols,
            final(vp).col_offset == old(vp).col_offset,
    {
        let eof = buf.row_count() - 1;
        let sr = vp.screen_rows;
        let hj = sr / 2;
        match cmd {
            JumpCommand::High => {
                self.cursor_row = vp.row_offset;
            },
            JumpCommand::Low => {
                self.cursor_row = if eof - vp.row_offset <= sr - 1 {
                    eof
                } else {
                    vp.row_offset + sr - 1
                };
            },
            JumpCommand::HalfDown => {
                self.cursor_row = if eof - self.cursor_row <= hj {
                    eof
                } else {
                    self.cursor_row + hj
                };
                if eof - vp.row_offset > sr {
                    let cap = eof - sr + 1;
                    vp.row_offset = if cap - vp.row_offset <= hj {
                        cap
                    } else {
                        vp.row_offset + hj
                    };
                }
            },
            JumpCommand::HalfUp => {
                self.cursor_row = if self.cursor_row >= hj {
                    self.cursor_row - hj
                } else {
                    0
                };
                vp.row_offset = if vp.row_offset >= hj {
                    vp.row_offset - hj
                } else {
                    0
                };
            },
            JumpCommand::FullDown => {
                let newro = if eof - vp.row_offset <= sr - 1 {
                    eof
                } else {
                    vp.row_offset + sr - 1
                };
                self.cursor_row = if eof - self.cursor_row < sr {
                    eof
                } else if newro >= 1 {
                    newro - 1
                } else {
                    0
                };
                vp.row_offset = newro;
            },
            JumpCommand::FullUp => {
                let ro = vp.row_offset;
                let r1 = if ro == 0 {
                    self.cursor_row
                } else if self.cursor_row - ro < sr - 1 {
                    ro + 1
                } else {
                    (self.cursor_row - (sr - 1)) + 1
                };
                let r2 = if ro == eof && ro != 0 {
                    r1 - 2
                } else {
                    r1
                };
                self.cursor_row = if r2 > eof {
                    eof
                } else {
                    r2
                };
                vp.row_offset = if ro >= sr {
                    ro - sr
                } else {
                    0
                };
            },
        }
        self.reclamp_col(buf);
    }

    /// Reclamps the cursor column against the current row.
    fn reclamp_col(&mut self, buf: &TextBuffer)
        requires
            buf.wf(),
        ensures
            *final(self) == old(self).reclamped(buf@),
    {
        let w = buf.render_width(self.cursor_row);
        self.cursor_col = if w == 0 {
            0
        } else if self.sticky_col < w {
            self.sticky_col
        } else {
            w - 1
        };
    }
}

/// A vertical motion never alters the sticky column, and on any row wide
/// enough to reach it the cursor settles exactly there: the column chosen
/// before a detour over shorter rows is restored.
pub proof fn lemma_vertical_motion_keeps_sticky(
    nav: CursorNavigator,
    cmd: MoveCommand,
    buf: Seq<Seq<char>>,
)
    requires
        cmd == MoveCommand::Down || cmd == MoveCommand::Up,
    ensures
        nav.move_spec(cmd, buf).sticky_col == nav.sticky_col,
        buf_render_width(buf, nav.move_spec(cmd, buf).cursor_row as int) > nav.sticky_col
            ==> nav.move_spec(cmd, buf).cursor_col == nav.sticky_col,
{
}

/// On a one-row buffer, no simple motion moves the cursor off row zero.
pub proof fn lemma_single_row_move_clamp(
    nav: CursorNavigator,
    cmd: MoveCommand,
    buf: Seq<Seq<char>>,
)
    requires
        buf.len() == 1,
        nav.cursor_row == 0,
    ensures
        nav.move_spec(cmd, buf).cursor_row == 0,
{
}

/// On a one-row buffer, no page-relative motion moves the cursor off row
/// zero either.
pub proof fn lemma_single_row_jump_clamp(
    nav: CursorNavigator,
    vp: ViewportController,
    cmd: JumpCommand,
    buf: Seq<Seq<char>>,
)
    requires
        buf.len() == 1,
        nav.cursor_row == 0,
        vp.wf(),
        vp.row_offset == 0,
    ensures
        nav.jump_spec(vp, cmd, buf).0.cursor_row == 0,
{
}

/// With the viewport at the top of a buffer no taller than the screen,
/// the bottom-of-viewport motion lands on the last row.
pub proof fn lemma_low_lands_on_eof(
    nav: CursorNavigator,
    vp: ViewportController,
    buf: Seq<Seq<char>>,
)
    requires
        vp.wf(),
        vp.row_offset == 0,
        1 <= buf.len() <= vp.screen_rows,
    ensures
        nav.jump_spec(vp, JumpCommand::Low, buf).0.cursor_row == buf.len() - 1,
{
}

/// A found first-non-blank index lies inside the line.
proof fn lemma_find_some_in_range(s: Seq<char>)
    requires
        find_non_blank(s) is Some,
    ensures
        find_non_blank(s).unwrap() < s.len(),
    decreases s.len(),
{
    if s.len() > 0 && is_blank_spec(s[0]) {
        if find_non_blank(s.drop_first()) is Some {
            lemma_find_some_in_range(s.drop_first());
        }
    }
}

} // verus!
