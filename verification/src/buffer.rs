//! The ordered collection of rows that makes up the open file.

use vstd::prelude::*;

use crate::row::Row;
use crate::row::render_of;
use crate::types::EditorError;

verus! {

/// Rendered width of row `row` of a buffer; rows outside the buffer have
/// width zero.
pub open spec fn buf_render_width(buf: Seq<Seq<char>>, row: int) -> nat {
    if 0 <= row < buf.len() {
        render_of(buf[row]).len()
    } else {
        0
    }
}

/// Copies a line of characters.
pub fn copy_chars(src: &Vec<char>) -> (r: Vec<char>)
    ensures
        r@ == src@,
{
    let mut r: Vec<char> = Vec::new();
    let mut i: usize = 0;
    while i < src.len()
        invariant
            i <= src@.len(),
            r@ == src@.take(i as int),
        decreases src@.len() - i,
    {
        r.push(src[i]);
        assert(r@ =~= src@.take(i + 1));
        i += 1;
    }
    assert(src@.take(src@.len() as int) =~= src@);
    r
}

/// Rows in insertion order, which is file order. The buffer views as the
/// sequence of logical line contents.
pub struct TextBuffer {
    rows: Vec<Row>,
}

impl View for TextBuffer {
    type V = Seq<Seq<char>>;

    closed spec fn view(&self) -> Seq<Seq<char>> {
        Seq::new(self.rows@.len(), |i: int| self.rows@[i]@)
    }
}

impl TextBuffer {
    /// Every row's render cache is in sync.
    pub closed spec fn wf(&self) -> bool {
        forall|i: int| 0 <= i < self.rows@.len() ==> (#[trigger] self.rows@[i]).wf()
    }

    pub fn new() -> (r: TextBuffer)
        ensures
            r.wf(),
            r@ == Seq::<Seq<char>>::empty(),
    {
        let r = TextBuffer { rows: Vec::new() };
        proof {
            assert(r@ =~= Seq::<Seq<char>>::empty());
        }
        r
    }

    /// Builds a buffer from loaded lines, one row per line.
    pub fn from_lines(lines: &Vec<Vec<char>>) -> (r: TextBuffer)
        ensures
            r.wf(),
            r@.len() == lines@.len(),
            forall|i: int| 0 <= i < lines@.len() ==> r@[i] == #[trigger] lines@[i]@,
    {
        let mut rows: Vec<Row> = Vec::new();
        let mut i: usize = 0;
        while i < lines.len()
            invariant
                i <= lines@.len(),
                rows@.len() == i,
                forall|j: int| 0 <= j < i ==> (#[trigger] rows@[j]).wf(),
                forall|j: int| 0 <= j < i ==> (#[trigger] rows@[j])@ == lines@[j]@,
            decreases lines@.len() - i,
        {
            let content = copy_chars(&lines[i]);
            rows.push(Row::new(content));
            i += 1;
        }
        TextBuffer { rows }
    }

    pub fn row_count(&self) -> (n: usize)
        ensures
            n == self@.len(),
    {
        self.rows.len()
    }

    /// Bounds-checked access to a row.
    pub fn get(&self, idx: usize) -> (r: Result<&Row, EditorError>)
        requires
            self.wf(),
        ensures
            idx < self@.len() ==> (r matches Ok(row) && row@ == self@[idx as int] && row.wf()),
            idx >= self@.len() ==> r == Err::<&Row, EditorError>(EditorError::RowOutOfRange),
    {
        if idx < self.rows.len() {
            Ok(&self.rows[idx])
        } else {
            Err(EditorError::RowOutOfRange)
        }
    }

    /// Direct access to a row the caller knows to exist.
    pub fn row_at(&self, idx: usize) -> (row: &Row)
        requires
            self.wf(),
            idx < self@.len(),
        ensures
            row@ == self@[idx as int],
            row.wf(),
    {
        &self.rows[idx]
    }

    /// Appends a new empty row, used when the cursor sits one row past the
    /// end and the first character is typed there.
    pub fn append_empty_row(&mut self)
        requires
            old(self).wf(),
        ensures
            final(self).wf(),
            final(self)@ == old(self)@.push(Seq::<char>::empty()),
    {
        self.rows.push(Row::new(Vec::new()));
        proof {
            assert(self@ =~= old(self)@.push(Seq::<char>::empty()));
        }
    }

    /// Rendered width of a row; zero for rows outside the buffer.
    pub fn render_width(&self, idx: usize) -> (n: usize)
        requires
            self.wf(),
        ensures
            n == buf_render_width(self@, idx as int),
    {
        if idx < self.rows.len() {
            self.rows[idx].render_width()
        } else {
            0
        }
    }

    /// Inserts `ch` at logical column `at` of row `row`. An out-of-bounds
    /// row or column is a caller error and leaves the buffer unchanged.
    pub fn insert_char(&mut self, row: usize, at: usize, ch: char) -> (r: Result<
        (),
        EditorError,
    >)
        requires
            old(self).wf(),
        ensures
            final(self).wf(),
            row >= old(self)@.len() ==> r == Err::<(), EditorError>(EditorError::RowOutOfRange)
                && final(self)@ == old(self)@,
            row < old(self)@.len() && at > old(self)@[row as int].len() ==> r == Err::<
                (),
                EditorError,
            >(EditorError::IndexOutOfRange) && final(self)@ == old(self)@,
            row < old(self)@.len() && at <= old(self)@[row as int].len() ==> r is Ok
                && final(self)@ == old(self)@.update(
                    row as int,
                    old(self)@[row as int].insert(at as int, ch),
                ),
    {
        if row >= self.rows.len() {
            return Err(EditorError::RowOutOfRange);
        }
        let target = &mut self.rows[row];
        let res = target.insert_char(at, ch);
        proof {
            if at > old(self)@[row as int].len() {
                assert(self@ =~= old(self)@);
            } else {
                assert(self@ =~= old(self)@.update(
                    row as int,
                    old(self)@[row as int].insert(at as int, ch),
                ));
            }
        }
        res
    }
}

} // verus!
