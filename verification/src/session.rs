//! One editing session: the buffer, the cursor, the viewport and the
//! dirty flag, wired together so that every command leaves the viewport
//! reconciled with the cursor.

use vstd::prelude::*;

use crate::buffer::TextBuffer;
use crate::buffer::buf_render_width;
use crate::cursor::CursorNavigator;
use crate::render::dec_digits;
use crate::render::gutter_width;
use crate::render::lemma_dec_digits_len_usize;
use crate::render::render_screen;
use crate::render::screen_line_spec;
use crate::render::to_decimal;
use crate::row::lemma_render_len_ge;
use crate::row::render_col_of;
use crate::text::join_spec;
use crate::text::lemma_join_snoc;
use crate::types::EditorError;
use crate::types::JumpCommand;
use crate::types::MoveCommand;
use crate::viewport::ViewportController;

verus! {

/// Render column of the cursor: the tab-aware column of `col` on row
/// `row`, and zero when the cursor sits outside the buffer.
pub open spec fn cursor_render_col(buf: Seq<Seq<char>>, row: nat, col: nat) -> nat {
    if row < buf.len() {
        render_col_of(buf[row as int], col as int)
    } else {
        0
    }
}

/// The state of one editing session.
pub struct EditorSession {
    buffer: TextBuffer,
    nav: CursorNavigator,
    vp: ViewportController,
    dirty: bool,
}

impl EditorSession {
    /// The logical line contents of the buffer.
    pub closed spec fn buf(&self) -> Seq<Seq<char>> {
        self.buffer@
    }

    /// The cursor state.
    pub closed spec fn cursor(&self) -> CursorNavigator {
        self.nav
    }

    /// The viewport state.
    pub closed spec fn viewport(&self) -> ViewportController {
        self.vp
    }

    /// Whether an insertion has happened since the last successful save.
    pub closed spec fn dirty(&self) -> bool {
        self.dirty
    }

    /// Session invariant: the buffer always holds at least one row, the
    /// cursor sits on a row of the buffer at a column within its rendered
    /// width, and the viewport is reconciled with the cursor.
    pub closed spec fn wf(&self) -> bool {
        &&& self.buffer.wf()
        &&& self.vp.wf()
        &&& self.buffer@.len() >= 1
        &&& self.nav.cursor_row < self.buffer@.len()
        &&& self.nav.cursor_col <= buf_render_width(self.buffer@, self.nav.cursor_row as int)
        &&& self.vp.in_view(
            self.nav.cursor_row as int,
            cursor_render_col(
                self.buffer@,
                self.nav.cursor_row as nat,
                self.nav.cursor_col as nat,
            ) as int,
        )
    }

    /// Opens a session over the loaded lines; an empty load materialises
    /// one empty row, so motions always have a row to work on.
    pub fn new(screen_cols: usize, screen_rows: usize, lines: &Vec<Vec<char>>) -> (s:
        EditorSession)
        requires
            1 <= screen_rows <= u16::MAX,
            1 <= screen_cols <= u16::MAX,
        ensures
            s.wf(),
            lines@.len() > 0 ==> s.buf().len() == lines@.len() && forall|i: int|
                0 <= i < lines@.len() ==> s.buf()[i] == #[trigger] lines@[i]@,
            lines@.len() == 0 ==> s.buf() == seq![Seq::<char>::empty()],
            s.cursor() == (CursorNavigator { cursor_row: 0, cursor_col: 0, sticky_col: 0 }),
            s.viewport() == (ViewportController {
                screen_cols,
                screen_rows,
                row_offset: 0,
                col_offset: 0,
            }),
            !s.dirty(),
    {
        let mut buffer = TextBuffer::from_lines(lines);
        if buffer.row_count() == 0 {
            buffer.append_empty_row();
            proof {
                assert(buffer@ =~= seq![Seq::<char>::empty()]);
            }
        }
        let s = EditorSession {
            buffer,
            nav: CursorNavigator::new(),
            vp: ViewportController::new(screen_cols, screen_rows),
            dirty: false,
        };
        proof {
            assert(s.buf()[0].take(0) =~= Seq::<char>::empty());
        }
        s
    }

    /// The cursor's render column, for the screen sink.
    fn render_col(&self) -> (r: usize)
        requires
            self.buffer.wf(),
            self.nav.cursor_row < self.buffer@.len(),
        ensures
            r == cursor_render_col(
                self.buffer@,
                self.nav.cursor_row as nat,
                self.nav.cursor_col as nat,
            ),
    {
        self.buffer.row_at(self.nav.cursor_row).logical_to_render_col(self.nav.cursor_col)
    }

    /// Applies a simple motion and reconciles the viewport.
    pub fn apply_move(&mut self, cmd: MoveCommand)
        requires
            old(self).wf(),
        ensures
            final(self).wf(),
            final(self).buf() == old(self).buf(),
            final(self).dirty() == old(self).dirty(),
            final(self).cursor() == old(self).cursor().move_spec(cmd, old(self).buf()),
            final(self).viewport() == old(self).viewport().reconcile_spec(
                final(self).cursor().cursor_row,
                cursor_render_col(
                    old(self).buf(),
                    final(self).cursor().cursor_row as nat,
                    final(self).cursor().cursor_col as nat,
                ) as usize,
            ),
    {
        self.nav.move_cursor(cmd, &self.buffer);
        let rc = self.render_col();
        self.vp.reconcile(self.nav.cursor_row, rc);
    }

    /// Applies a page-relative motion and reconciles the viewport.
    pub fn apply_jump(&mut self, cmd: JumpCommand)
        requires
            old(self).wf(),
        ensures
            final(self).wf(),
            final(self).buf() == old(self).buf(),
            final(self).dirty() == old(self).dirty(),
            final(self).cursor() == old(self).cursor().jump_spec(
                old(self).viewport(),
                cmd,
                old(self).buf(),
            ).0,
            final(self).viewport() == old(self).cursor().jump_spec(
                old(self).viewport(),
                cmd,
                old(self).buf(),
            ).1.reconcile_spec(
                final(self).cursor().cursor_row,
                cursor_render_col(
                    old(self).buf(),
                    final(self).cursor().cursor_row as nat,
                    final(self).cursor().cursor_col as nat,
                ) as usize,
            ),
    {
        self.nav.jump_cursor(cmd, &mut self.vp, &self.buffer);
        let rc = self.render_col();
        self.vp.reconcile(self.nav.cursor_row, rc);
    }

    /// Inserts `ch` at the cursor, advancing the cursor one column and
    /// marking the buffer dirty. A cursor column past the end of the
    /// row's content (possible after motions over tab-expanded rows) is
    /// surfaced as an error and changes nothing.
    pub fn insert_char(&mut self, ch: char) -> (r: Result<(), EditorError>)
        requires
            old(self).wf(),
        ensures
            final(self).wf(),
            old(self).cursor().cursor_col <= old(self).buf()[old(
                self,
            ).cursor().cursor_row as int].len() ==> {
                &&& r is Ok
                &&& final(self).buf() == old(self).buf().update(
                    old(self).cursor().cursor_row as int,
                    old(self).buf()[old(self).cursor().cursor_row as int].insert(
                        old(self).cursor().cursor_col as int,
                        ch,
                    ),
                )
                &&& final(self).cursor() == (CursorNavigator {
                    cursor_col: (old(self).cursor().cursor_col + 1) as usize,
                    ..old(self).cursor()
                })
                &&& final(self).dirty()
                &&& final(self).viewport() == old(self).viewport().reconcile_spec(
                    final(self).cursor().cursor_row,
                    cursor_render_col(
                        final(self).buf(),
                        final(self).cursor().cursor_row as nat,
                        final(self).cursor().cursor_col as nat,
                    ) as usize,
                )
            },
            old(self).cursor().cursor_col > old(self).buf()[old(
                self,
            ).cursor().cursor_row as int].len() ==> {
                &&& r == Err::<(), EditorError>(EditorError::IndexOutOfRange)
                &&& final(self).buf() == old(self).buf()
                &&& final(self).cursor() == old(self).cursor()
                &&& final(self).viewport() == old(self).viewport()
                &&& final(self).dirty() == old(self).dirty()
            },
    {
        let row = self.nav.cursor_row;
        let col = self.nav.cursor_col;
        let res = self.buffer.insert_char(row, col, ch);
        if let Err(e) = res {
            return Err(e);
        }
        proof {
            lemma_render_len_ge(self.buffer@[row as int]);
        }
        let new_len = self.buffer.row_at(row).len();
        assert(col < new_len);
        self.nav.cursor_col = col + 1;
        self.dirty = true;
        let rc = self.render_col();
        self.vp.reconcile(self.nav.cursor_row, rc);
        Ok(())
    }

    /// The buffer as saved text: the rows joined by a newline, with no
    /// trailing newline added.
    pub fn save_content(&self) -> (r: Vec<char>)
        requires
            self.wf(),
        ensures
            r@ == join_spec(self.buf()),
    {
        let mut out: Vec<char> = Vec::new();
        let rows = self.buffer.row_count();
        let mut i: usize = 0;
        proof {
            assert(self.buf().take(0) =~= Seq::<Seq<char>>::empty());
        }
        while i < rows
            invariant
                i <= rows,
                rows == self.buf().len(),
                self.wf(),
                out@ == join_spec(self.buf().take(i as int)),
            decreases rows - i,
        {
            if i > 0 {
                out.push('\n');
            }
            let ghost head = out@;
            let content = self.buffer.row_at(i).content();
            let mut j: usize = 0;
            while j < content.len()
                invariant
                    j <= content@.len(),
                    out@ == head + content@.take(j as int),
                decreases content@.len() - j,
            {
                out.push(content[j]);
                assert(out@ =~= head + content@.take(j + 1));
                j += 1;
            }
            proof {
                let pre = self.buf().take(i as int);
                lemma_join_snoc(pre, self.buf()[i as int]);
                assert(pre.push(self.buf()[i as int]) =~= self.buf().take(i + 1));
                assert(content@.take(content@.len() as int) =~= content@);
                if i == 0 {
                    assert(out@ =~= join_spec(self.buf().take(i + 1)));
                } else {
                    assert(out@ =~= join_spec(pre) + seq!['\n'] + self.buf()[i as int]);
                }
            }
            i += 1;
        }
        proof {
            assert(self.buf().take(self.buf().len() as int) =~= self.buf());
        }
        out
    }

    /// Clears the dirty flag after a successful save.
    pub fn mark_saved(&mut self)
        requires
            old(self).wf(),
        ensures
            final(self).wf(),
            final(self).buf() == old(self).buf(),
            final(self).cursor() == old(self).cursor(),
            final(self).viewport() == old(self).viewport(),
            !final(self).dirty(),
    {
        self.dirty = false;
    }

    /// Composes the visible screen for the screen sink.
    pub fn render(&self, welcome: &Vec<char>) -> (r: Vec<Vec<char>>)
        requires
            self.wf(),
        ensures
            r@.len() == self.viewport().screen_rows,
            forall|i: int| 0 <= i < r@.len() ==> (#[trigger] r@[i])@ == screen_line_spec(
                self.buf(),
                self.cursor().cursor_row as nat,
                self.viewport(),
                welcome@,
                i as nat,
            ),
    {
        render_screen(&self.buffer, self.nav.cursor_row, &self.vp, welcome)
    }

    /// Where the terminal cursor goes: the render column translated to
    /// the screen and pushed right past the gutter, and the cursor row
    /// translated to the screen.
    pub fn cursor_screen_position(&self) -> (r: (usize, usize))
        requires
            self.wf(),
        ensures
            r.0 == cursor_render_col(
                self.buf(),
                self.cursor().cursor_row as nat,
                self.cursor().cursor_col as nat,
            ) - self.viewport().col_offset + gutter_width(self.buf().len()) + 1,
            r.1 == self.cursor().cursor_row - self.viewport().row_offset,
    {
        let rc = self.render_col();
        let scol = self.vp.screen_col_for(rc);
        let srow = self.vp.screen_row_for(self.nav.cursor_row);
        let rows = self.buffer.row_count();
        let digits = to_decimal(rows);
        proof {
            lemma_dec_digits_len_usize(rows);
            assert(dec_digits(rows as nat).len() <= 20);
        }
        (scol + (digits.len() + 1) + 1, srow)
    }

    /// Number of rows in the buffer.
    pub fn row_count(&self) -> (n: usize)
        ensures
            n == self.buf().len(),
    {
        self.buffer.row_count()
    }

    pub fn cursor_row(&self) -> (n: usize)
        ensures
            n == self.cursor().cursor_row,
    {
        self.nav.cursor_row
    }

    pub fn cursor_col(&self) -> (n: usize)
        ensures
            n == self.cursor().cursor_col,
    {
        self.nav.cursor_col
    }

    pub fn sticky_col(&self) -> (n: usize)
        ensures
            n == self.cursor().sticky_col,
    {
        self.nav.sticky_col
    }

    pub fn row_offset(&self) -> (n: usize)
        ensures
            n == self.viewport().row_offset,
    {
        self.vp.row_offset
    }

    pub fn col_offset(&self) -> (n: usize)
        ensures
            n == self.viewport().col_offset,
    {
        self.vp.col_offset
    }

    pub fn is_dirty(&self) -> (b: bool)
        ensures
            b == self.dirty(),
    {
        self.dirty
    }

    /// Bounds-checked view of one row's content, for collaborators that
    /// read the buffer.
    pub fn line(&self, idx: usize) -> (r: Result<&Vec<char>, EditorError>)
        requires
            self.wf(),
        ensures
            idx < self.buf().len() ==> (r matches Ok(v) && v@ == self.buf()[idx as int]),
            idx >= self.buf().len() ==> r == Err::<&Vec<char>, EditorError>(
                EditorError::RowOutOfRange,
            ),
    {
        match self.buffer.get(idx) {
            Ok(row) => Ok(row.content()),
            Err(e) => Err(e),
        }
    }
}

} // verus!
