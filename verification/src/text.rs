//! Splitting a document into lines and joining lines back into a document.
//!
//! A document is a sequence of characters; its line decomposition splits on
//! `'\n'`.  An empty document is one empty line, so a split always yields at
//! least one line, and joining the split back together restores the document
//! exactly.

use vstd::prelude::*;

verus! {

/// The line decomposition of `s`: split on `'\n'`, separators dropped.
pub open spec fn split_lines(s: Seq<char>) -> Seq<Seq<char>>
    decreases s.len(),
{
    if s.len() == 0 {
        seq![Seq::<char>::empty()]
    } else if s[0] == '\n' {
        seq![Seq::<char>::empty()] + split_lines(s.drop_first())
    } else {
        let rest = split_lines(s.drop_first());
        seq![seq![s[0]] + rest[0]] + rest.drop_first()
    }
}

/// The document formed by the lines `lines`, interposing `'\n'`.
pub open spec fn join_lines(lines: Seq<Seq<char>>) -> Seq<char>
    decreases lines.len(),
{
    if lines.len() <= 1 {
        if lines.len() == 0 {
            Seq::<char>::empty()
        } else {
            lines[0]
        }
    } else {
        lines[0] + seq!['\n'] + join_lines(lines.drop_first())
    }
}

/// A split always produces at least one line.
pub proof fn lemma_split_lines_nonempty(s: Seq<char>)
    ensures
        split_lines(s).len() >= 1,
    decreases s.len(),
{
    if s.len() == 0 {
    } else if s[0] == '\n' {
        lemma_split_lines_nonempty(s.drop_first());
    } else {
        lemma_split_lines_nonempty(s.drop_first());
    }
}

/// Appending one character extends the split: a newline opens a fresh empty
/// line, any other character lands at the end of the last line.
pub proof fn lemma_split_lines_snoc(t: Seq<char>, c: char)
    ensures
        c == '\n' ==> split_lines(t.push(c)) == split_lines(t).push(Seq::<char>::empty()),
        c != '\n' ==> split_lines(t.push(c)) == split_lines(t).update(
            split_lines(t).len() - 1,
            split_lines(t)[split_lines(t).len() - 1] + seq![c],
        ),
    decreases t.len(),
{
    lemma_split_lines_nonempty(t);
    let s = t.push(c);
    if t.len() == 0 {
        assert(s.len() == 1);
        assert(s[0] == c);
        assert(s.drop_first() =~~= t);
        if c == '\n' {
            assert(split_lines(s) =~~= split_lines(t).push(Seq::<char>::empty()));
        } else {
            assert(split_lines(s) =~~= split_lines(t).update(
                split_lines(t).len() - 1,
                split_lines(t)[split_lines(t).len() - 1] + seq![c],
            ));
        }
    } else {
        let td = t.drop_first();
        assert(s[0] == t[0]);
        assert(s.drop_first() =~~= td.push(c));
        lemma_split_lines_snoc(td, c);
        lemma_split_lines_nonempty(td);
        let rest = split_lines(td);
        let restp = split_lines(td.push(c));
        if t[0] == '\n' {
            assert(split_lines(t) == seq![Seq::<char>::empty()] + rest);
            assert(split_lines(s) == seq![Seq::<char>::empty()] + restp);
            if c == '\n' {
                assert(split_lines(s) =~~= split_lines(t).push(Seq::<char>::empty()));
            } else {
                assert(split_lines(s) =~~= split_lines(t).update(
                    split_lines(t).len() - 1,
                    split_lines(t)[split_lines(t).len() - 1] + seq![c],
                ));
            }
        } else {
            assert(split_lines(t) == seq![seq![t[0]] + rest[0]] + rest.drop_first());
            assert(split_lines(s) == seq![seq![s[0]] + restp[0]] + restp.drop_first());
            if c == '\n' {
                assert(restp == rest.push(Seq::<char>::empty()));
                assert(restp[0] == rest[0]);
                assert(restp.drop_first() =~~= rest.drop_first().push(Seq::<char>::empty()));
                assert(split_lines(s) =~~= split_lines(t).push(Seq::<char>::empty()));
            } else {
                let k = rest.len() - 1;
                assert(restp == rest.update(k, rest[k] + seq![c]));
                if rest.len() == 1 {
                    assert(restp[0] == rest[0] + seq![c]);
                    assert(restp.drop_first() =~~= rest.drop_first());
                    assert(split_lines(s) =~~= split_lines(t).update(
                        split_lines(t).len() - 1,
                        split_lines(t)[split_lines(t).len() - 1] + seq![c],
                    ));
                } else {
                    assert(restp[0] == rest[0]);
                    assert(restp.drop_first() =~~= rest.drop_first().update(k - 1, rest[k] + seq![
                        c,
                    ]));
                    assert(split_lines(t)[split_lines(t).len() - 1] == rest[k]);
                    assert(split_lines(s) =~~= split_lines(t).update(
                        split_lines(t).len() - 1,
                        split_lines(t)[split_lines(t).len() - 1] + seq![c],
                    ));
                }
            }
        }
    }
}

/// Appending one line to a join appends a separator and that line.
pub proof fn lemma_join_lines_snoc(ls: Seq<Seq<char>>, l: Seq<char>)
    ensures
        ls.len() == 0 ==> join_lines(ls.push(l)) == l,
        ls.len() > 0 ==> join_lines(ls.push(l)) == join_lines(ls) + seq!['\n'] + l,
    decreases ls.len(),
{
    let s = ls.push(l);
    if ls.len() == 0 {
        assert(s.len() == 1);
        assert(join_lines(s) == s[0]);
    } else {
        assert(s.len() >= 2);
        assert(s[0] == ls[0]);
        assert(s.drop_first() =~~= ls.drop_first().push(l));
        lemma_join_lines_snoc(ls.drop_first(), l);
        if ls.len() == 1 {
            assert(join_lines(s) == s[0] + seq!['\n'] + join_lines(s.drop_first()));
            assert(join_lines(s.drop_first()) == l);
            assert(join_lines(ls) == ls[0]);
        } else {
            assert(join_lines(s) =~~= join_lines(ls) + seq!['\n'] + l);
        }
    }
}

/// Joining the lines of a split restores the original document: loading a
/// file and writing it back unchanged is byte-identical.
pub proof fn lemma_join_split_identity(s: Seq<char>)
    ensures
        join_lines(split_lines(s)) == s,
    decreases s.len(),
{
    if s.len() == 0 {
        assert(join_lines(split_lines(s)) =~~= s);
    } else if s[0] == '\n' {
        let t = s.drop_first();
        lemma_join_split_identity(t);
        lemma_split_lines_nonempty(t);
        let whole = seq![Seq::<char>::empty()] + split_lines(t);
        assert(whole.drop_first() =~~= split_lines(t));
        assert(join_lines(whole) =~~= s);
    } else {
        let t = s.drop_first();
        lemma_join_split_identity(t);
        lemma_split_lines_nonempty(t);
        let rest = split_lines(t);
        let whole = seq![seq![s[0]] + rest[0]] + rest.drop_first();
        assert(whole.drop_first() =~~= rest.drop_first());
        if rest.len() == 1 {
            assert(join_lines(rest) == rest[0]);
            assert(join_lines(whole) == whole[0]);
            assert(join_lines(whole) =~~= s);
        } else {
            assert(join_lines(rest) == rest[0] + seq!['\n'] + join_lines(rest.drop_first()));
            assert(join_lines(whole) =~~= seq![s[0]] + join_lines(rest));
            assert(s =~~= seq![s[0]] + join_lines(rest));
        }
    }
}

} // verus!
