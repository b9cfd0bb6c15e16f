//! Plain-text models shared by the formatters: lines and line markers.

use vstd::prelude::*;

verus! {

/// The text with `m` inserted right after every newline.
pub open spec fn mark_after_newlines(t: Seq<char>, m: Seq<char>) -> Seq<char>
    decreases t.len(),
{
    if t.len() == 0 {
        Seq::empty()
    } else if t[0] == '\n' {
        seq!['\n'] + m + mark_after_newlines(t.drop_first(), m)
    } else {
        seq![t[0]] + mark_after_newlines(t.drop_first(), m)
    }
}

/// The text with `m` inserted at every line start: before the first
/// character and after every newline (a trailing newline included).
pub open spec fn mark_lines(t: Seq<char>, m: Seq<char>) -> Seq<char> {
    m + mark_after_newlines(t, m)
}

/// The pieces of `t` between newlines, as splitting on `'\n'` gives them:
/// there is always one more piece than there are newlines.
pub open spec fn split_lines(t: Seq<char>) -> Seq<Seq<char>>
    decreases t.len(),
{
    if t.len() == 0 {
        seq![Seq::empty()]
    } else {
        let rest = split_lines(t.drop_first());
        if t[0] == '\n' {
            seq![Seq::empty()] + rest
        } else {
            seq![seq![t[0]] + rest[0]] + rest.drop_first()
        }
    }
}

/// The lines joined with one newline between neighbours.
pub open spec fn join_lines(ls: Seq<Seq<char>>) -> Seq<char>
    decreases ls.len(),
{
    if ls.len() == 0 {
        Seq::empty()
    } else if ls.len() == 1 {
        ls[0]
    } else {
        join_lines(ls.drop_last()) + seq!['\n'] + ls.last()
    }
}

/// `s` holds no newline.
pub open spec fn has_no_newline(s: Seq<char>) -> bool {
    forall|i: int| 0 <= i < s.len() ==> s[i] != '\n'
}

/// Splitting always gives at least one piece.
pub proof fn lemma_split_lines_nonempty(t: Seq<char>)
    ensures
        split_lines(t).len() >= 1,
    decreases t.len(),
{
    if t.len() > 0 {
        lemma_split_lines_nonempty(t.drop_first());
    }
}

/// Splitting a newline-free prefix followed by more text: the prefix joins
/// the first piece of the rest.
pub proof fn lemma_split_after_prefix(p: Seq<char>, x: Seq<char>)
    requires
        has_no_newline(p),
    ensures
        split_lines(p + x) == seq![p + split_lines(x)[0]] + split_lines(x).drop_first(),
    decreases p.len(),
{
    lemma_split_lines_nonempty(x);
    let sx = split_lines(x);
    if p.len() == 0 {
        assert(p + x =~= x);
        assert(seq![p + sx[0]] + sx.drop_first() =~= sx);
    } else {
        let q = p.drop_first();
        assert(has_no_newline(q));
        lemma_split_after_prefix(q, x);
        assert((p + x).drop_first() =~= q + x);
        assert((p + x)[0] == p[0]);
        assert(seq![p[0]] + (q + sx[0]) =~= p + sx[0]);
        assert(seq![p + sx[0]] + sx.drop_first() =~= split_lines(p + x));
    }
}

proof fn lemma_marked_lines_after(p: Seq<char>, t: Seq<char>, m: Seq<char>)
    requires
        has_no_newline(p),
        has_no_newline(m),
    ensures
        split_lines(p + mark_after_newlines(t, m)) == seq![p + split_lines(t)[0]]
            + split_lines(t).drop_first().map_values(|l: Seq<char>| m + l),
    decreases t.len(),
{
    lemma_split_lines_nonempty(t);
    let a = mark_after_newlines(t, m);
    if t.len() == 0 {
        assert(a =~= Seq::<char>::empty());
        lemma_split_after_prefix(p, a);
        assert(split_lines(t) =~= seq![Seq::<char>::empty()]);
        assert(split_lines(a) =~= seq![Seq::<char>::empty()]);
        assert(split_lines(t).drop_first().map_values(|l: Seq<char>| m + l) =~= Seq::<Seq<char>>::empty());
        assert(split_lines(a).drop_first() =~= Seq::<Seq<char>>::empty());
        assert(p + Seq::<char>::empty() =~= p);
    } else {
        let u = t.drop_first();
        let au = mark_after_newlines(u, m);
        let su = split_lines(u);
        lemma_split_lines_nonempty(u);
        lemma_marked_lines_after(m, u, m);
        if t[0] == '\n' {
            let x = seq!['\n'] + (m + au);
            assert(p + a =~= p + x);
            lemma_split_after_prefix(p, x);
            assert(x.drop_first() =~= m + au);
            assert(split_lines(x) =~= seq![Seq::<char>::empty()] + split_lines(m + au));
            assert(split_lines(t) =~= seq![Seq::<char>::empty()] + su);
            assert(split_lines(t).drop_first() =~= su);
            assert(p + Seq::<char>::empty() =~= p);
            assert(su.map_values(|l: Seq<char>| m + l) =~= seq![m + su[0]]
                + su.drop_first().map_values(|l: Seq<char>| m + l));
            assert(split_lines(p + a) =~= seq![p + split_lines(t)[0]]
                + split_lines(t).drop_first().map_values(|l: Seq<char>| m + l));
        } else {
            let pc = p.push(t[0]);
            assert(has_no_newline(pc));
            lemma_marked_lines_after(pc, u, m);
            assert(p + a =~= pc + au);
            assert(split_lines(t) =~= seq![seq![t[0]] + su[0]] + su.drop_first());
            assert(split_lines(t).drop_first() =~= su.drop_first());
            assert(pc + su[0] =~= p + (seq![t[0]] + su[0]));
        }
    }
}

/// With a newline-free marker, the lines of the marked text are the lines of
/// the text, each with the marker in front: every line is marked, the first
/// and the empty ones included, and no line is added or lost.
pub proof fn lemma_mark_lines_prefixes_each_line(t: Seq<char>, m: Seq<char>)
    requires
        has_no_newline(m),
    ensures
        split_lines(mark_lines(t, m)) == split_lines(t).map_values(|l: Seq<char>| m + l),
{
    lemma_split_lines_nonempty(t);
    lemma_marked_lines_after(m, t, m);
    let st = split_lines(t);
    assert(st.map_values(|l: Seq<char>| m + l) =~= seq![m + st[0]]
        + st.drop_first().map_values(|l: Seq<char>| m + l));
}

} // verus!
