//! Splitting file text into logical lines, joining lines back on save,
//! and the round trip between the two.

use vstd::prelude::*;

verus! {

/// Lines joined by a newline, with nothing added after the last line.
pub open spec fn join_spec(lines: Seq<Seq<char>>) -> Seq<char>
    decreases lines.len(),
{
    if lines.len() == 0 {
        Seq::empty()
    } else if lines.len() == 1 {
        lines[0]
    } else {
        lines[0] + seq!['\n'] + join_spec(lines.drop_first())
    }
}

/// The pieces of `t` between line separators, where a separator is a
/// newline or a carriage return followed by a newline. There is always
/// one piece more than there are separators.
pub open spec fn split_raw(t: Seq<char>) -> Seq<Seq<char>>
    decreases t.len(),
{
    if t.len() == 0 {
        seq![Seq::<char>::empty()]
    } else if t[0] == '\n' {
        seq![Seq::<char>::empty()] + split_raw(t.drop_first())
    } else if t[0] == '\r' && t.len() >= 2 && t[1] == '\n' {
        seq![Seq::<char>::empty()] + split_raw(t.skip(2))
    } else {
        let rest = split_raw(t.drop_first());
        seq![seq![t[0]] + rest[0]] + rest.drop_first()
    }
}

/// The logical lines of a text: the pieces between separators, except
/// that a final newline ends the last line instead of starting another,
/// and empty text has no lines at all.
pub open spec fn split_spec(t: Seq<char>) -> Seq<Seq<char>> {
    if t.len() == 0 {
        Seq::empty()
    } else if t.last() == '\n' {
        split_raw(t).drop_last()
    } else {
        split_raw(t)
    }
}

/// A carriage return immediately followed by a newline occurs in `t`.
pub open spec fn has_crlf(t: Seq<char>) -> bool {
    exists|i: int| 0 <= i < t.len() - 1 && #[trigger] t[i] == '\r' && t[i + 1] == '\n'
}

pub proof fn lemma_split_raw_len(t: Seq<char>)
    ensures
        split_raw(t).len() >= 1,
    decreases t.len(),
{
    if t.len() == 0 {
    } else if t[0] == '\n' {
        lemma_split_raw_len(t.drop_first());
    } else if t[0] == '\r' && t.len() >= 2 && t[1] == '\n' {
        lemma_split_raw_len(t.skip(2));
    } else {
        lemma_split_raw_len(t.drop_first());
    }
}

/// Prefixing the first piece prefixes the joined text.
proof fn lemma_join_cons_prefix(x: Seq<char>, ps: Seq<Seq<char>>)
    requires
        ps.len() >= 1,
    ensures
        join_spec(seq![x + ps[0]] + ps.drop_first()) == x + join_spec(ps),
{
    let l = seq![x + ps[0]] + ps.drop_first();
    if ps.len() == 1 {
        assert(l =~= seq![x + ps[0]]);
        assert(join_spec(l) == x + ps[0]);
    } else {
        assert(l.len() >= 2);
        assert(l.drop_first() =~= ps.drop_first());
        assert(l[0] + seq!['\n'] + join_spec(ps.drop_first()) =~= x + (ps[0] + seq!['\n']
            + join_spec(ps.drop_first())));
    }
}

/// Joining the raw pieces of a text reproduces it, as long as no
/// carriage-return-newline pair was folded into a separator.
proof fn lemma_join_split_raw(t: Seq<char>)
    requires
        !has_crlf(t),
    ensures
        join_spec(split_raw(t)) == t,
    decreases t.len(),
{
    if t.len() == 0 {
    } else if t[0] == '\n' {
        let rest = t.drop_first();
        assert(!has_crlf(rest)) by {
            if has_crlf(rest) {
                let i = choose|i: int|
                    0 <= i < rest.len() - 1 && #[trigger] rest[i] == '\r' && rest[i + 1] == '\n';
                assert(t[i + 1] == '\r' && t[i + 2] == '\n');
            }
        }
        lemma_join_split_raw(rest);
        lemma_split_raw_len(rest);
        let pieces = seq![Seq::<char>::empty()] + split_raw(rest);
        assert(pieces.len() >= 2);
        assert(pieces.drop_first() =~= split_raw(rest));
        if split_raw(rest).len() == 1 {
            assert(join_spec(pieces) =~= Seq::<char>::empty() + seq!['\n'] + split_raw(rest)[0]);
            assert(join_spec(pieces) =~= t);
        } else {
            assert(join_spec(pieces) == Seq::<char>::empty() + seq!['\n'] + join_spec(
                split_raw(rest),
            ));
            assert(Seq::<char>::empty() + seq!['\n'] + rest =~= t);
        }
    } else if t[0] == '\r' && t.len() >= 2 && t[1] == '\n' {
        assert(has_crlf(t)) by {
            let z: int = 0;
            assert(t[z] == '\r' && t[z + 1] == '\n');
        }
    } else {
        let rest = t.drop_first();
        assert(!has_crlf(rest)) by {
            if has_crlf(rest) {
                let i = choose|i: int|
                    0 <= i < rest.len() - 1 && #[trigger] rest[i] == '\r' && rest[i + 1] == '\n';
                assert(t[i + 1] == '\r' && t[i + 2] == '\n');
            }
        }
        lemma_join_split_raw(rest);
        lemma_split_raw_len(rest);
        lemma_join_cons_prefix(seq![t[0]], split_raw(rest));
        assert(seq![t[0]] + rest =~= t);
    }
}

/// Round trip: splitting a text into lines and joining them again gives
/// the text back, provided the text does not end in a newline (a final
/// newline merely closes the last line) and holds no
/// carriage-return-newline pair (that pair is folded into a separator).
pub proof fn lemma_join_split(t: Seq<char>)
    requires
        !has_crlf(t),
        t.len() == 0 || t.last() != '\n',
    ensures
        join_spec(split_spec(t)) == t,
{
    if t.len() > 0 {
        lemma_join_split_raw(t);
    }
}

/// Appending a line appends a separator and the line, except to an empty
/// line list.
pub proof fn lemma_join_snoc(lines: Seq<Seq<char>>, l: Seq<char>)
    ensures
        join_spec(lines.push(l)) == if lines.len() == 0 {
            l
        } else {
            join_spec(lines) + seq!['\n'] + l
        },
    decreases lines.len(),
{
    if lines.len() == 0 {
        assert(lines.push(l)[0] =~= l);
    } else if lines.len() == 1 {
        let p = lines.push(l);
        assert(p.len() == 2);
        assert(p.drop_first() =~= seq![l]);
        assert(p[0] + seq!['\n'] + join_spec(seq![l]) =~= join_spec(lines) + seq!['\n'] + l);
    } else {
        let p = lines.push(l);
        assert(p.drop_first() =~= lines.drop_first().push(l));
        lemma_join_snoc(lines.drop_first(), l);
        assert(p[0] + seq!['\n'] + (join_spec(lines.drop_first()) + seq!['\n'] + l) =~= (lines[0]
            + seq!['\n'] + join_spec(lines.drop_first())) + seq!['\n'] + l);
    }
}

/// The views of a sequence of character vectors.
pub open spec fn views_of(vs: Seq<Vec<char>>) -> Seq<Seq<char>> {
    vs.map_values(|v: Vec<char>| v@)
}

/// Splits text into logical lines as the loader sees them: one line per
/// separator-delimited piece, a final newline closing the last line.
pub fn split_text(text: &Vec<char>) -> (r: Vec<Vec<char>>)
    ensures
        views_of(r@) == split_spec(text@),
{
    let t = text;
    let ghost tv = text@;
    let mut acc: Vec<Vec<char>> = Vec::new();
    let mut cur: Vec<char> = Vec::new();
    let mut i: usize = 0;
    proof {
        assert(tv.skip(0) =~= tv);
        lemma_split_raw_len(tv);
        assert(split_raw(tv) =~~= views_of(acc@) + seq![cur@ + split_raw(tv.skip(0))[0]]
            + split_raw(tv.skip(0)).drop_first());
    }
    while i < t.len()
        invariant
            i <= tv.len(),
            tv == t@,
            split_raw(tv) == views_of(acc@) + seq![cur@ + split_raw(tv.skip(i as int))[0]]
                + split_raw(tv.skip(i as int)).drop_first(),
        decreases tv.len() - i,
    {
        let ghost suf = tv.skip(i as int);
        let ghost accs = views_of(acc@);
        let ghost curv = cur@;
        proof {
            assert(suf.len() == tv.len() - i);
            assert(suf[0] == tv[i as int]);
            if i + 1 < tv.len() {
                assert(suf[1] == tv[i + 1]);
            }
            lemma_split_raw_len(suf);
        }
        let c = t[i];
        if c == '\n' {
            acc.push(cur);
            cur = Vec::new();
            i = i + 1;
            let ghost s2 = split_raw(tv.skip(i as int));
            proof {
                assert(suf.drop_first() =~= tv.skip(i as int));
                lemma_split_raw_len(tv.skip(i as int));
                assert(split_raw(suf) == seq![Seq::<char>::empty()] + s2);
                assert(views_of(acc@) =~= accs.push(curv));
                assert(split_raw(suf).drop_first() =~= s2);
                assert(s2 =~= seq![s2[0]] + s2.drop_first());
                assert(accs + seq![curv + split_raw(suf)[0]] + split_raw(suf).drop_first()
                    =~~= accs.push(curv) + seq![cur@ + s2[0]] + s2.drop_first());
            }
        } else if c == '\r' && i + 1 < t.len() && t[i + 1] == '\n' {
            acc.push(cur);
            cur = Vec::new();
            i = i + 2;
            let ghost s2 = split_raw(tv.skip(i as int));
            proof {
                assert(suf.skip(2) =~= tv.skip(i as int));
                lemma_split_raw_len(tv.skip(i as int));
                assert(split_raw(suf) == seq![Seq::<char>::empty()] + s2);
                assert(views_of(acc@) =~= accs.push(curv));
                assert(split_raw(suf).drop_first() =~= s2);
                assert(s2 =~= seq![s2[0]] + s2.drop_first());
                assert(accs + seq![curv + split_raw(suf)[0]] + split_raw(suf).drop_first()
                    =~~= accs.push(curv) + seq![cur@ + s2[0]] + s2.drop_first());
            }
        } else {
            cur.push(c);
            i = i + 1;
            let ghost s2 = split_raw(tv.skip(i as int));
            proof {
                assert(suf.drop_first() =~= tv.skip(i as int));
                lemma_split_raw_len(tv.skip(i as int));
                assert(split_raw(suf) == seq![seq![suf[0]] + s2[0]] + s2.drop_first());
                assert(views_of(acc@) =~= accs);
                assert(curv + (seq![suf[0]] + s2[0]) =~= cur@ + s2[0]);
                assert(accs + seq![curv + split_raw(suf)[0]] + split_raw(suf).drop_first()
                    =~~= accs + seq![cur@ + s2[0]] + s2.drop_first());
            }
        }
    }
    proof {
        assert(tv.skip(tv.len() as int) =~= Seq::<char>::empty());
        assert(split_raw(Seq::<char>::empty()) == seq![Seq::<char>::empty()]);
        assert(split_raw(tv) =~~= views_of(acc@) + seq![cur@]);
    }
    if t.len() > 0 {
        let last = t[t.len() - 1];
        if last != '\n' {
            let ghost accs = views_of(acc@);
            let ghost curv = cur@;
            acc.push(cur);
            proof {
                assert(views_of(acc@) =~= accs.push(curv));
                assert(accs.push(curv) =~~= accs + seq![curv]);
            }
        } else {
            proof {
                assert((views_of(acc@) + seq![cur@]).drop_last() =~= views_of(acc@));
            }
        }
    } else {
        proof {
            assert(views_of(acc@) + seq![cur@] =~= split_raw(tv));
            assert(views_of(acc@).len() == 0);
            assert(views_of(acc@) =~= Seq::<Seq<char>>::empty());
        }
    }
    acc
}

} // verus!
