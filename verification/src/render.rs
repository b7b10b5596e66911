//! Composition of the visible screen: line-number gutter, the visible
//! slice of each rendered row, filler rows and the welcome banner.

use vstd::prelude::*;

use crate::buffer::TextBuffer;
use crate::row::render_of;
use crate::row::spaces;
use crate::viewport::ViewportController;

verus! {

/// Decimal digit character for `d`.
pub open spec fn digit_char(d: nat) -> char {
    ((48 + d % 10) as u8) as char
}

/// Decimal digits of `n`, most significant first.
pub open spec fn dec_digits(n: nat) -> Seq<char>
    decreases n,
{
    if n < 10 {
        seq![digit_char(n)]
    } else {
        dec_digits(n / 10).push(digit_char(n))
    }
}

/// Powers of ten, for bounding digit counts.
pub open spec fn pow10(k: nat) -> nat
    decreases k,
{
    if k == 0 {
        1
    } else {
        10 * pow10((k - 1) as nat)
    }
}

/// A number below the `k`-th power of ten has at most `k` digits.
pub proof fn lemma_dec_digits_len_le(n: nat, k: nat)
    requires
        1 <= k,
        n < pow10(k),
    ensures
        dec_digits(n).len() <= k,
    decreases n,
{
    if n >= 10 {
        assert(pow10(1) == 10) by {
            reveal_with_fuel(pow10, 2);
        }
        assert(k >= 2);
        assert(n / 10 < pow10((k - 1) as nat));
        lemma_dec_digits_len_le(n / 10, (k - 1) as nat);
    }
}

/// Any machine-sized number has at most twenty digits.
pub proof fn lemma_dec_digits_len_usize(n: usize)
    ensures
        1 <= dec_digits(n as nat).len() <= 20,
{
    assert(pow10(20) == 0x56bc75e2d63100000) by {
        reveal_with_fuel(pow10, 21);
    }
    assert((n as nat) < pow10(20));
    lemma_dec_digits_len_le(n as nat, 20);
}

/// Width of the line-number gutter for a buffer of `rows` rows: one more
/// column than the widest absolute line number needs.
pub open spec fn gutter_width(rows: nat) -> nat {
    if rows == 0 {
        2
    } else {
        dec_digits(rows).len() + 1
    }
}

/// `s` padded with trailing spaces to width `w`.
pub open spec fn left_aligned(s: Seq<char>, w: nat) -> Seq<char> {
    if s.len() >= w {
        s
    } else {
        s + spaces((w - s.len()) as nat)
    }
}

/// `s` padded with leading spaces to width `w`.
pub open spec fn right_aligned(s: Seq<char>, w: nat) -> Seq<char> {
    if s.len() >= w {
        s
    } else {
        spaces((w - s.len()) as nat) + s
    }
}

/// The gutter cell of a visible buffer row: the absolute line number,
/// left-aligned, on the cursor row; the distance to the cursor row,
/// right-aligned, on every other row; always followed by one space.
pub open spec fn gutter_of(rows: nat, file_row: nat, cursor_row: nat) -> Seq<char> {
    let pad = gutter_width(rows);
    if file_row == cursor_row {
        left_aligned(dec_digits((file_row + 1) as nat), pad).push(' ')
    } else {
        let rel = if file_row >= cursor_row {
            (file_row - cursor_row) as nat
        } else {
            (cursor_row - file_row) as nat
        };
        right_aligned(dec_digits(rel), pad).push(' ')
    }
}

/// The part of a rendered row visible under a column offset `co` on a
/// screen `sc` columns wide.
pub open spec fn visible_slice(r: Seq<char>, co: nat, sc: nat) -> Seq<char> {
    if r.len() <= co {
        Seq::empty()
    } else if r.len() - co > sc {
        r.subrange(co as int, (co + sc) as int)
    } else {
        r.subrange(co as int, r.len() as int)
    }
}

/// The welcome banner row: the banner text clipped to the screen width
/// and centred, with the filler glyph taking the first padding cell.
pub open spec fn banner_line(welcome: Seq<char>, sc: nat) -> Seq<char> {
    let w = if welcome.len() > sc {
        welcome.take(sc as int)
    } else {
        welcome
    };
    let padding = ((sc - w.len()) as nat) / 2;
    if padding == 0 {
        w
    } else {
        seq!['~'] + spaces((padding - 1) as nat) + w
    }
}

/// Screen row `i` of the composed frame: past the end of the buffer a
/// filler glyph, or the welcome banner at a third of the screen when the
/// buffer is entirely empty; inside the buffer the gutter followed by the
/// visible slice of the rendered row.
pub open spec fn screen_line_spec(
    buf: Seq<Seq<char>>,
    cursor_row: nat,
    vp: ViewportController,
    welcome: Seq<char>,
    i: nat,
) -> Seq<char> {
    let rows = buf.len();
    let file_row = (i + vp.row_offset) as nat;
    if file_row >= rows {
        if rows == 0 && i == (vp.screen_rows as nat) / 3 {
            banner_line(welcome, vp.screen_cols as nat)
        } else {
            seq!['~']
        }
    } else {
        gutter_of(rows, file_row, cursor_row) + visible_slice(
            render_of(buf[file_row as int]),
            vp.col_offset as nat,
            vp.screen_cols as nat,
        )
    }
}

/// Decimal digits of `n`, most significant first.
pub fn to_decimal(n: usize) -> (r: Vec<char>)
    ensures
        r@ == dec_digits(n as nat),
    decreases n,
{
    if n < 10 {
        let d = ((48 + (n % 10) as u8)) as char;
        let mut r: Vec<char> = Vec::new();
        r.push(d);
        proof {
            assert(r@ =~= seq![digit_char(n as nat)]);
        }
        r
    } else {
        let mut r = to_decimal(n / 10);
        let d = ((48 + (n % 10) as u8)) as char;
        r.push(d);
        r
    }
}

/// Appends `n` spaces.
fn push_spaces(line: &mut Vec<char>, n: usize)
    ensures
        final(line)@ == old(line)@ + spaces(n as nat),
{
    let mut j: usize = 0;
    while j < n
        invariant
            j <= n,
            line@ == old(line)@ + spaces(j as nat),
        decreases n - j,
    {
        line.push(' ');
        assert(line@ =~= old(line)@ + spaces((j + 1) as nat));
        j += 1;
    }
}

/// Appends the characters of `src`.
fn push_all(line: &mut Vec<char>, src: &Vec<char>)
    ensures
        final(line)@ == old(line)@ + src@,
{
    let mut j: usize = 0;
    while j < src.len()
        invariant
            j <= src@.len(),
            line@ == old(line)@ + src@.take(j as int),
        decreases src@.len() - j,
    {
        line.push(src[j]);
        assert(line@ =~= old(line)@ + src@.take(j + 1));
        j += 1;
    }
    assert(src@.take(src@.len() as int) =~= src@);
}

/// Appends the gutter cell for visible buffer row `file_row`.
fn push_gutter(line: &mut Vec<char>, rows: usize, file_row: usize, cursor_row: usize)
    requires
        1 <= rows,
        file_row < rows,
    ensures
        final(line)@ == old(line)@ + gutter_of(rows as nat, file_row as nat, cursor_row as nat),
{
    let width_digits = to_decimal(rows);
    let wd = width_digits.len();
    if file_row == cursor_row {
        let digits = to_decimal(file_row + 1);
        push_all(line, &digits);
        if digits.len() <= wd {
            push_spaces(line, (wd - digits.len()) + 1);
        }
        line.push(' ');
        proof {
            assert(line@ =~= old(line)@ + gutter_of(
                rows as nat,
                file_row as nat,
                cursor_row as nat,
            ));
        }
    } else {
        let rel = if file_row >= cursor_row {
            file_row - cursor_row
        } else {
            cursor_row - file_row
        };
        let digits = to_decimal(rel);
        if digits.len() <= wd {
            push_spaces(line, (wd - digits.len()) + 1);
        }
        push_all(line, &digits);
        line.push(' ');
        proof {
            assert(line@ =~= old(line)@ + gutter_of(
                rows as nat,
                file_row as nat,
                cursor_row as nat,
            ));
        }
    }
}

/// Appends the visible slice of a rendered row.
fn push_visible(line: &mut Vec<char>, rendered: &Vec<char>, co: usize, sc: usize)
    ensures
        final(line)@ == old(line)@ + visible_slice(rendered@, co as nat, sc as nat),
{
    if rendered.len() <= co {
        proof {
            assert(line@ =~= old(line)@ + visible_slice(rendered@, co as nat, sc as nat));
        }
        return ;
    }
    let avail = rendered.len() - co;
    let take_n = if avail > sc {
        sc
    } else {
        avail
    };
    let mut j: usize = 0;
    while j < take_n
        invariant
            j <= take_n,
            co + take_n <= rendered@.len(),
            line@ == old(line)@ + rendered@.subrange(co as int, co + j),
        decreases take_n - j,
    {
        assert(co + j < rendered@.len() && rendered@.len() == rendered.len());
        line.push(rendered[co + j]);
        assert(line@ =~= old(line)@ + rendered@.subrange(co as int, co + j + 1));
        j += 1;
    }
    proof {
        assert(line@ =~= old(line)@ + visible_slice(rendered@, co as nat, sc as nat));
    }
}

/// The welcome banner row for a screen `sc` columns wide.
fn banner_row(welcome: &Vec<char>, sc: usize) -> (r: Vec<char>)
    ensures
        r@ == banner_line(welcome@, sc as nat),
{
    let wlen = if welcome.len() > sc {
        sc
    } else {
        welcome.len()
    };
    let padding = (sc - wlen) / 2;
    let mut line: Vec<char> = Vec::new();
    if padding > 0 {
        line.push('~');
        push_spaces(&mut line, padding - 1);
    }
    let mut j: usize = 0;
    let ghost head = line@;
    while j < wlen
        invariant
            j <= wlen <= welcome@.len(),
            line@ == head + welcome@.take(j as int),
        decreases wlen - j,
    {
        line.push(welcome[j]);
        assert(line@ =~= head + welcome@.take(j + 1));
        j += 1;
    }
    proof {
        if welcome@.len() > sc {
            assert(line@ =~= banner_line(welcome@, sc as nat));
        } else {
            assert(welcome@.take(welcome@.len() as int) =~= welcome@);
            assert(line@ =~= banner_line(welcome@, sc as nat));
        }
    }
    line
}

/// Composes the visible screen: one line of text per screen row.
pub fn render_screen(
    buf: &TextBuffer,
    cursor_row: usize,
    vp: &ViewportController,
    welcome: &Vec<char>,
) -> (r: Vec<Vec<char>>)
    requires
        buf.wf(),
        vp.wf(),
    ensures
        r@.len() == vp.screen_rows,
        forall|i: int| 0 <= i < r@.len() ==> (#[trigger] r@[i])@ == screen_line_spec(
            buf@,
            cursor_row as nat,
            *vp,
            welcome@,
            i as nat,
        ),
{
    let rows = buf.row_count();
    let mut out: Vec<Vec<char>> = Vec::new();
    let mut i: usize = 0;
    while i < vp.screen_rows
        invariant
            i <= vp.screen_rows,
            out@.len() == i,
            buf.wf(),
            vp.wf(),
            rows == buf@.len(),
            forall|j: int| 0 <= j < i ==> (#[trigger] out@[j])@ == screen_line_spec(
                buf@,
                cursor_row as nat,
                *vp,
                welcome@,
                j as nat,
            ),
        decreases vp.screen_rows - i,
    {
        let file_row_opt = vp.row_offset.checked_add(i);
        let in_buf = match file_row_opt {
            Some(fr) => fr < rows,
            None => false,
        };
        if in_buf {
            let file_row = match file_row_opt {
                Some(fr) => fr,
                None => 0,
            };
            let mut line: Vec<char> = Vec::new();
            push_gutter(&mut line, rows, file_row, cursor_row);
            let rendered = buf.row_at(file_row).rendered();
            push_visible(&mut line, rendered, vp.col_offset, vp.screen_cols);
            out.push(line);
        } else if rows == 0 && i == vp.screen_rows / 3 {
            out.push(banner_row(welcome, vp.screen_cols));
        } else {
            let mut line: Vec<char> = Vec::new();
            line.push('~');
            proof {
                assert(line@ =~= seq!['~']);
            }
            out.push(line);
        }
        i += 1;
    }
    out
}

} // verus!
