//! One logical line of text together with its tab-expanded render form.

use vstd::prelude::*;

use crate::types::EditorError;

verus! {

/// Width of a tab stop: the rendered column after a tab is always a
/// multiple of this.
pub const TAB_STOP: usize = 4;

/// Number of spaces a tab emits when the rendered width before it is `w`:
/// enough to pad the width to the next multiple of `TAB_STOP`, at least one.
pub open spec fn tab_pad(w: nat) -> nat {
    (TAB_STOP - w % (TAB_STOP as nat)) as nat
}

/// `n` space characters.
pub open spec fn spaces(n: nat) -> Seq<char> {
    Seq::new(n, |i: int| ' ')
}

/// Tab expansion of a logical line: every character maps to itself, except
/// that a tab becomes the run of spaces given by `tab_pad`.
pub open spec fn render_of(s: Seq<char>) -> Seq<char>
    decreases s.len(),
{
    if s.len() == 0 {
        Seq::empty()
    } else {
        let prefix = render_of(s.drop_last());
        if s.last() == '\t' {
            prefix + spaces(tab_pad(prefix.len()))
        } else {
            prefix.push(s.last())
        }
    }
}

/// Render column where the cursor lands when it sits at logical column
/// `col` of a line with content `s`; columns past the end clamp to the
/// full rendered width.
pub open spec fn render_col_of(s: Seq<char>, col: int) -> nat {
    if col < 0 {
        0
    } else if col <= s.len() {
        render_of(s.take(col)).len()
    } else {
        render_of(s).len()
    }
}

/// Unfolds `render_of` one character forward: rendering `i + 1` characters
/// is rendering `i` characters and then expanding the character at `i`.
pub proof fn lemma_render_take_succ(s: Seq<char>, i: int)
    requires
        0 <= i < s.len(),
    ensures
        render_of(s.take(i + 1)) == if s[i] == '\t' {
            render_of(s.take(i)) + spaces(tab_pad(render_of(s.take(i)).len()))
        } else {
            render_of(s.take(i)).push(s[i])
        },
{
    assert(s.take(i + 1).drop_last() =~= s.take(i));
    assert(s.take(i + 1).last() == s[i]);
}

/// Every character still to be rendered contributes at least one rendered
/// character, so the rendered width of a prefix is bounded by the rendered
/// width of the whole line.
pub proof fn lemma_render_prefix_len(s: Seq<char>, i: int)
    requires
        0 <= i <= s.len(),
    ensures
        render_of(s.take(i)).len() + (s.len() - i) <= render_of(s).len(),
    decreases s.len() - i,
{
    if i == s.len() {
        assert(s.take(i) =~= s);
    } else {
        lemma_render_take_succ(s, i);
        lemma_render_prefix_len(s, i + 1);
    }
}

/// A line never renders shorter than its logical length.
pub proof fn lemma_render_len_ge(s: Seq<char>)
    ensures
        render_of(s).len() >= s.len(),
{
    assert(s.take(0) =~= Seq::<char>::empty());
    lemma_render_prefix_len(s, 0);
}

/// Builds the tab expansion of `content`.
fn render_content(content: &Vec<char>) -> (out: Vec<char>)
    ensures
        out@ == render_of(content@),
{
    let mut out: Vec<char> = Vec::new();
    let mut i: usize = 0;
    while i < content.len()
        invariant
            i <= content@.len(),
            out@ == render_of(content@.take(i as int)),
        decreases content@.len() - i,
    {
        let ghost prefix = render_of(content@.take(i as int));
        proof {
            lemma_render_take_succ(content@, i as int);
        }
        let c = content[i];
        if c == '\t' {
            out.push(' ');
            while out.len() % TAB_STOP != 0
                invariant
                    prefix.len() < out@.len() <= prefix.len() + tab_pad(prefix.len()),
                    out@ == prefix + spaces((out@.len() - prefix.len()) as nat),
                decreases prefix.len() + tab_pad(prefix.len()) - out@.len(),
            {
                out.push(' ');
                assert(out@ =~= prefix + spaces((out@.len() - prefix.len()) as nat));
            }
            assert(out@.len() == prefix.len() + tab_pad(prefix.len()));
        } else {
            out.push(c);
        }
        i += 1;
    }
    assert(content@.take(content@.len() as int) =~= content@);
    out
}

/// One logical line; `content` is authoritative and `rendered` is its tab
/// expansion, regenerated on every mutation.
pub struct Row {
    content: Vec<char>,
    rendered: Vec<char>,
}

impl View for Row {
    type V = Seq<char>;

    closed spec fn view(&self) -> Seq<char> {
        self.content@
    }
}

impl Row {
    /// The render cache is in sync with the content.
    pub closed spec fn wf(&self) -> bool {
        self.rendered@ == render_of(self.content@)
    }

    pub fn new(content: Vec<char>) -> (r: Row)
        ensures
            r.wf(),
            r@ == content@,
    {
        let rendered = render_content(&content);
        Row { content, rendered }
    }

    /// Replaces the logical content and regenerates the render form.
    pub fn set_content(&mut self, content: Vec<char>)
        ensures
            final(self).wf(),
            final(self)@ == content@,
    {
        self.rendered = render_content(&content);
        self.content = content;
    }

    pub fn content(&self) -> (r: &Vec<char>)
        ensures
            r@ == self@,
    {
        &self.content
    }

    /// The tab-expanded form of the line.
    pub fn rendered(&self) -> (r: &Vec<char>)
        requires
            self.wf(),
        ensures
            r@ == render_of(self@),
    {
        &self.rendered
    }

    pub fn len(&self) -> (n: usize)
        ensures
            n == self@.len(),
    {
        self.content.len()
    }

    /// Length of the rendered form.
    pub fn render_width(&self) -> (n: usize)
        requires
            self.wf(),
        ensures
            n == render_of(self@).len(),
    {
        self.rendered.len()
    }

    /// Inserts `ch` at logical column `at`; columns past the end are a
    /// caller error and leave the row unchanged.
    pub fn insert_char(&mut self, at: usize, ch: char) -> (r: Result<(), EditorError>)
        requires
            old(self).wf(),
        ensures
            final(self).wf(),
            at <= old(self)@.len() ==> r is Ok && final(self)@ == old(self)@.insert(
                at as int,
                ch,
            ),
            at > old(self)@.len() ==> r == Err::<(), EditorError>(EditorError::IndexOutOfRange)
                && final(self)@ == old(self)@,
    {
        if at > self.content.len() {
            return Err(EditorError::IndexOutOfRange);
        }
        self.content.insert(at, ch);
        self.rendered = render_content(&self.content);
        Ok(())
    }

    /// Render column where the cursor lands at logical column `col`; columns
    /// past the end clamp to the full rendered width.
    pub fn logical_to_render_col(&self, col: usize) -> (r: usize)
        requires
            self.wf(),
        ensures
            r == render_col_of(self@, col as int),
    {
        let n = if col <= self.content.len() {
            col
        } else {
            self.content.len()
        };
        proof {
            if col > self.content@.len() {
                assert(self.content@.take(self.content@.len() as int) =~= self.content@);
            }
        }
        proof {
            assert(self.rendered.len() == render_of(self.content@).len());
        }
        let mut w: usize = 0;
        let mut i: usize = 0;
        while i < n
            invariant
                i <= n <= self.content@.len(),
                self.wf(),
                render_of(self.content@).len() <= usize::MAX,
                w == render_of(self.content@.take(i as int)).len(),
            decreases n - i,
        {
            proof {
                lemma_render_take_succ(self.content@, i as int);
                lemma_render_prefix_len(self.content@, i + 1);
            }
            let c = self.content[i];
            if c == '\t' {
                w = w + (TAB_STOP - w % TAB_STOP);
            } else {
                w = w + 1;
            }
            i += 1;
        }
        w
    }
}

} // verus!
