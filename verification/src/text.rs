//! Character-sequence helpers for dot-separated routing keys.

use vstd::prelude::*;

verus! {

/// The pieces of `s` between the occurrences of `sep`, in order, as
/// `str::split` yields them: `n` separators give `n + 1` pieces.
pub open spec fn split_on(s: Seq<char>, sep: char) -> Seq<Seq<char>>
    decreases s.len(),
{
    if s.len() == 0 {
        seq![Seq::<char>::empty()]
    } else {
        let prev = split_on(s.drop_last(), sep);
        if s.last() == sep {
            prev.push(Seq::<char>::empty())
        } else {
            prev.update(prev.len() - 1, prev.last().push(s.last()))
        }
    }
}

/// The pieces joined with `sep` between each two neighbours.
pub open spec fn join_with(parts: Seq<Seq<char>>, sep: char) -> Seq<char>
    decreases parts.len(),
{
    if parts.len() == 0 {
        Seq::<char>::empty()
    } else if parts.len() == 1 {
        parts[0]
    } else {
        join_with(parts.drop_last(), sep).push(sep) + parts.last()
    }
}

/// `c` does not occur in `s`.
pub open spec fn lacks(s: Seq<char>, c: char) -> bool {
    forall|i: int| 0 <= i < s.len() ==> s[i] != c
}

/// `p` is a prefix of `s`.
pub open spec fn has_prefix(s: Seq<char>, p: Seq<char>) -> bool {
    p.len() <= s.len() && s.take(p.len() as int) == p
}

/// Splitting gives at least one piece.
pub proof fn lemma_split_nonempty(s: Seq<char>, sep: char)
    ensures
        split_on(s, sep).len() >= 1,
    decreases s.len(),
{
    if s.len() > 0 {
        lemma_split_nonempty(s.drop_last(), sep);
    }
}

proof fn lemma_join_extend_last(parts: Seq<Seq<char>>, sep: char, c: char)
    requires
        parts.len() >= 1,
    ensures
        join_with(parts.update(parts.len() - 1, parts.last().push(c)), sep) == join_with(
            parts,
            sep,
        ).push(c),
{
    let q = parts.update(parts.len() - 1, parts.last().push(c));
    if parts.len() == 1 {
        assert(q[0] == parts[0].push(c));
    } else {
        assert(q.drop_last() =~= parts.drop_last());
        assert(q.last() == parts.last().push(c));
        assert(join_with(q, sep) == join_with(q.drop_last(), sep).push(sep) + q.last());
        assert(join_with(parts, sep) == join_with(parts.drop_last(), sep).push(sep)
            + parts.last());
        assert((join_with(parts.drop_last(), sep).push(sep) + parts.last()).push(c)
            =~= join_with(parts.drop_last(), sep).push(sep) + parts.last().push(c));
    }
}

/// Joining the pieces of a split with the separator gives back the text.
pub proof fn lemma_join_split(s: Seq<char>, sep: char)
    ensures
        join_with(split_on(s, sep), sep) == s,
    decreases s.len(),
{
    if s.len() == 0 {
        assert(join_with(split_on(s, sep), sep) =~= s);
    } else {
        let t = s.drop_last();
        let prev = split_on(t, sep);
        lemma_split_nonempty(t, sep);
        lemma_join_split(t, sep);
        if s.last() == sep {
            let q = prev.push(Seq::<char>::empty());
            assert(q.drop_last() =~= prev);
            assert(join_with(q, sep) == join_with(prev, sep).push(sep) + Seq::<char>::empty());
            assert(join_with(q, sep) =~= s);
        } else {
            lemma_join_extend_last(prev, sep, s.last());
            assert(t.push(s.last()) =~= s);
        }
    }
}

/// A text without the separator is a single piece.
pub proof fn lemma_split_lacking(s: Seq<char>, sep: char)
    requires
        lacks(s, sep),
    ensures
        split_on(s, sep) == seq![s],
    decreases s.len(),
{
    if s.len() == 0 {
        assert(s =~= Seq::<char>::empty());
        assert(split_on(s, sep) =~= seq![s]);
    } else {
        let t = s.drop_last();
        assert(lacks(t, sep));
        lemma_split_lacking(t, sep);
        assert(s.last() != sep);
        assert(t.push(s.last()) =~= s);
        let prev = split_on(t, sep);
        assert(prev.len() == 1 && prev.last() == t);
        assert(split_on(s, sep) == prev.update(0, t.push(s.last())));
        assert(prev.update(0, t.push(s.last())) =~= seq![s]);
    }
}

proof fn lemma_split_after_sep(a: Seq<char>, x: Seq<char>, sep: char)
    requires
        lacks(x, sep),
    ensures
        split_on(a.push(sep) + x, sep) == split_on(a, sep).push(x),
    decreases x.len(),
{
    lemma_split_nonempty(a, sep);
    if x.len() == 0 {
        assert(a.push(sep) + x =~= a.push(sep));
        assert(a.push(sep).drop_last() =~= a);
        assert(split_on(a.push(sep), sep) == split_on(a, sep).push(Seq::<char>::empty()));
        assert(x =~= Seq::<char>::empty());
    } else {
        let y = x.drop_last();
        let c = x.last();
        assert(lacks(y, sep));
        lemma_split_after_sep(a, y, sep);
        let whole = a.push(sep) + x;
        assert(whole.drop_last() =~= a.push(sep) + y);
        assert(whole.last() == c);
        assert(c != sep);
        let prev = split_on(a, sep).push(y);
        assert(y.push(c) =~= x);
        assert(prev.update(prev.len() - 1, prev.last().push(c)) =~= split_on(a, sep).push(x));
    }
}

/// Splitting pieces that do not hold the separator, once joined, gives back the pieces.
pub proof fn lemma_split_join(parts: Seq<Seq<char>>, sep: char)
    requires
        parts.len() >= 1,
        forall|i: int| 0 <= i < parts.len() ==> lacks(#[trigger] parts[i], sep),
    ensures
        split_on(join_with(parts, sep), sep) == parts,
    decreases parts.len(),
{
    if parts.len() == 1 {
        assert(lacks(parts[0], sep));
        lemma_split_lacking(parts[0], sep);
        assert(parts =~= seq![parts[0]]);
    } else {
        let q = parts.drop_last();
        assert forall|i: int| 0 <= i < q.len() implies lacks(#[trigger] q[i], sep) by {
            assert(q[i] == parts[i]);
        }
        lemma_split_join(q, sep);
        assert(lacks(parts[parts.len() - 1], sep));
        lemma_split_after_sep(join_with(q, sep), parts.last(), sep);
        assert(q.push(parts.last()) =~= parts);
    }
}

/// Three pieces joined with a separator are the pieces with the separator between them.
pub proof fn lemma_join3(a: Seq<char>, b: Seq<char>, c: Seq<char>, sep: char)
    ensures
        join_with(seq![a, b, c], sep) == a + seq![sep] + b + seq![sep] + c,
{
    let p = seq![a, b, c];
    assert(p.drop_last() =~= seq![a, b]);
    assert(p.drop_last().drop_last() =~= seq![a]);
    assert(join_with(seq![a, b], sep) == join_with(seq![a], sep).push(sep) + b);
    assert(join_with(p, sep) =~= a + seq![sep] + b + seq![sep] + c);
}

/// Four pieces joined with a separator are the pieces with the separator between them.
pub proof fn lemma_join4(a: Seq<char>, b: Seq<char>, c: Seq<char>, d: Seq<char>, sep: char)
    ensures
        join_with(seq![a, b, c, d], sep) == a + seq![sep] + b + seq![sep] + c + seq![sep] + d,
{
    let p = seq![a, b, c, d];
    assert(p.drop_last() =~= seq![a, b, c]);
    lemma_join3(a, b, c, sep);
    assert(join_with(p, sep) =~= a + seq![sep] + b + seq![sep] + c + seq![sep] + d);
}

/// Copies `s` into an owned string.
pub fn owned(s: &str) -> (r: String)
    ensures
        r@ == s@,
{
    s.to_owned()
}

/// Whether the two texts are equal.
pub fn text_eq(a: &str, b: &str) -> (r: bool)
    ensures
        r == (a@ == b@),
{
    let x = owned(a);
    let y = owned(b);
    x == y
}

/// Splits `s` at every occurrence of `sep`, as `s.split(sep)` does.
pub fn split_text(s: &str, sep: char) -> (parts: Vec<String>)
    ensures
        parts@.map_values(|p: String| p@) == split_on(s@, sep),
{
    let n = s.unicode_len();
    let mut parts: Vec<String> = Vec::new();
    let mut start: usize = 0;
    let mut i: usize = 0;
    assert(s@.take(0) =~= Seq::<char>::empty());
    while i < n
        invariant
            n == s@.len(),
            start <= i <= n,
            parts@.map_values(|p: String| p@).push(s@.subrange(start as int, i as int))
                == split_on(s@.take(i as int), sep),
        decreases n - i,
    {
        let c = s.get_char(i);
        let ghost before = parts@.map_values(|p: String| p@);
        assert(s@.take(i + 1).drop_last() =~= s@.take(i as int));
        assert(s@.take(i + 1).last() == c);
        proof { lemma_split_nonempty(s@.take(i as int), sep); }
        if c == sep {
            let piece = owned(s.substring_char(start, i));
            parts.push(piece);
            assert(parts@.map_values(|p: String| p@) =~= before.push(
                s@.subrange(start as int, i as int),
            ));
            start = i + 1;
            assert(s@.subrange(start as int, i + 1) =~= Seq::<char>::empty());
        } else {
            assert(s@.subrange(start as int, i + 1) =~= s@.subrange(start as int, i as int).push(
                c,
            ));
            let ghost prev = before.push(s@.subrange(start as int, i as int));
            assert(prev.update(prev.len() - 1, prev.last().push(c)) =~= before.push(
                s@.subrange(start as int, i + 1),
            ));
        }
        i = i + 1;
    }
    let ghost before = parts@.map_values(|p: String| p@);
    let last = owned(s.substring_char(start, n));
    parts.push(last);
    assert(parts@.map_values(|p: String| p@) =~= before.push(s@.subrange(start as int, n as int)));
    assert(s@.take(n as int) =~= s@);
    parts
}

/// `s` without the prefix `p`, or `None` where `s` does not start with `p`
/// (`str::strip_prefix`).
pub fn strip_prefix_text(s: &str, p: &str) -> (r: Option<String>)
    ensures
        match r {
            Some(rest) => has_prefix(s@, p@) && rest@ == s@.skip(p@.len() as int),
            None => !has_prefix(s@, p@),
        },
{
    let n = s.unicode_len();
    let m = p.unicode_len();
    if m > n {
        return None;
    }
    let head = s.substring_char(0, m);
    if text_eq(head, p) {
        Some(owned(s.substring_char(m, n)))
    } else {
        None
    }
}

} // verus!
