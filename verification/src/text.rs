//! Character-level helpers shared by every parser in the crate: conversion
//! between `String` and `Vec<char>`, searching, slicing, and splitting, each
//! with an exact specification over `Seq<char>`.
use vstd::prelude::*;

verus! {

/// Relies on str::chars (std): yields the characters of the string in order,
/// which is exactly the string's view.
#[verifier::external_body]
pub fn to_chars(s: &str) -> (r: Vec<char>)
    ensures
        r@ == s@,
{
    s.chars().collect()
}

/// Relies on FromIterator<char> for String (std): collecting characters in
/// order builds the string whose view is that character sequence.
#[verifier::external_body]
pub fn from_chars(v: &Vec<char>) -> (r: String)
    ensures
        r@ == v@,
{
    v.iter().collect()
}

/// First occurrence of `c` in `v` at or after `from`, if any.
pub fn find_char(v: &Vec<char>, from: usize, c: char) -> (r: Option<usize>)
    requires
        from <= v@.len(),
    ensures
        match r {
            Some(i) => from <= i < v@.len() && v@[i as int] == c && forall|j: int|
                from <= j < i ==> v@[j] != c,
            None => forall|j: int| from <= j < v@.len() ==> v@[j] != c,
        },
{
    let mut i: usize = from;
    while i < v.len()
        invariant
            from <= i <= v@.len(),
            forall|j: int| from <= j < i ==> v@[j] != c,
        decreases v@.len() - i,
    {
        if v[i] == c {
            return Some(i);
        }
        i = i + 1;
    }
    None
}

pub open spec fn seq_contains(s: Seq<char>, c: char) -> bool {
    exists|i: int| 0 <= i < s.len() && s[i] == c
}

/// Whether `c` occurs in `v` at or after `from`.
pub fn contains_char(v: &Vec<char>, from: usize, c: char) -> (r: bool)
    requires
        from <= v@.len(),
    ensures
        r == seq_contains(v@.skip(from as int), c),
{
    let r = find_char(v, from, c);
    proof {
        if let Some(i) = r {
            assert(v@.skip(from as int)[i - from] == c);
        } else {
            assert forall|k: int| 0 <= k < v@.skip(from as int).len() implies v@.skip(
                from as int,
            )[k] != c by {
                assert(v@.skip(from as int)[k] == v@[k + from]);
            }
        }
    }
    r.is_some()
}

/// A fresh vector holding `v[from..to]`.
pub fn subvec(v: &Vec<char>, from: usize, to: usize) -> (r: Vec<char>)
    requires
        from <= to <= v@.len(),
    ensures
        r@ == v@.subrange(from as int, to as int),
{
    let mut r: Vec<char> = Vec::new();
    let mut i: usize = from;
    while i < to
        invariant
            from <= i <= to <= v@.len(),
            r@ == v@.subrange(from as int, i as int),
        decreases to - i,
    {
        r.push(v[i]);
        proof {
            assert(r@ =~= v@.subrange(from as int, i + 1));
        }
        i = i + 1;
    }
    r
}

/// Append `v[from..to]` onto `out`.
pub fn push_range(out: &mut Vec<char>, v: &Vec<char>, from: usize, to: usize)
    requires
        from <= to <= v@.len(),
    ensures
        final(out)@ == old(out)@ + v@.subrange(from as int, to as int),
{
    let ghost orig = out@;
    let mut i: usize = from;
    while i < to
        invariant
            from <= i <= to <= v@.len(),
            out@ == orig + v@.subrange(from as int, i as int),
        decreases to - i,
    {
        out.push(v[i]);
        proof {
            assert(out@ =~= orig + v@.subrange(from as int, i + 1));
        }
        i = i + 1;
    }
    proof {
        assert(out@ =~= orig + v@.subrange(from as int, to as int));
    }
}

/// Append every character of `s` onto `out`.
pub fn push_str_chars(out: &mut Vec<char>, s: &str)
    ensures
        final(out)@ == old(out)@ + s@,
{
    let v = to_chars(s);
    let ghost orig = out@;
    push_range(out, &v, 0, v.len());
    proof {
        assert(v@.subrange(0, v@.len() as int) =~= v@);
    }
}

/// Whether `v[from..to]` equals the view of `s`.
pub fn range_eq_str(v: &Vec<char>, from: usize, to: usize, s: &str) -> (r: bool)
    requires
        from <= to <= v@.len(),
    ensures
        r == (v@.subrange(from as int, to as int) == s@),
{
    let w = to_chars(s);
    if to - from != w.len() {
        proof {
            assert(v@.subrange(from as int, to as int).len() == to - from);
        }
        return false;
    }
    let mut i: usize = 0;
    while i < w.len()
        invariant
            from <= to <= v@.len(),
            w@ == s@,
            to - from == w@.len(),
            i <= w@.len(),
            forall|j: int| 0 <= j < i ==> v@[from + j] == w@[j],
        decreases w@.len() - i,
    {
        if v[from + i] != w[i] {
            proof {
                assert(v@.subrange(from as int, to as int)[i as int] == v@[from + i]);
            }
            return false;
        }
        i = i + 1;
    }
    proof {
        assert(v@.subrange(from as int, to as int) =~= s@);
    }
    true
}

/// The index of the first occurrence of `c` in `s`, or `s.len()` when `c`
/// does not occur.
pub open spec fn first_at(s: Seq<char>, c: char) -> int
    decreases s.len(),
{
    if s.len() == 0 {
        0
    } else if s[0] == c {
        0
    } else {
        1 + first_at(s.skip(1), c)
    }
}

pub proof fn lemma_first_at(s: Seq<char>, c: char)
    ensures
        0 <= first_at(s, c) <= s.len(),
        first_at(s, c) < s.len() ==> s[first_at(s, c)] == c,
        forall|j: int| 0 <= j < first_at(s, c) ==> s[j] != c,
    decreases s.len(),
{
    if s.len() == 0 {
    } else if s[0] == c {
    } else {
        lemma_first_at(s.skip(1), c);
        let f = first_at(s.skip(1), c);
        assert forall|j: int| 0 <= j < 1 + f implies s[j] != c by {
            if j > 0 {
                assert(s.skip(1)[j - 1] != c);
            }
        }
        if f < s.skip(1).len() {
            assert(s[1 + f] == s.skip(1)[f]);
        }
    }
}

/// Pinning `first_at` down from a witness: if `c` first occurs at `i`, then
/// `first_at` is `i`; if it does not occur at all, `first_at` is the length.
pub proof fn lemma_first_at_is(s: Seq<char>, c: char, i: int)
    requires
        0 <= i <= s.len(),
        i < s.len() ==> s[i] == c,
        i == s.len() ==> !seq_contains(s, c),
        forall|j: int| 0 <= j < i ==> s[j] != c,
    ensures
        first_at(s, c) == i,
{
    lemma_first_at(s, c);
    let f = first_at(s, c);
    if i < s.len() {
        if f < i {
            assert(s[f] != c);
        }
        if i < f {
            assert(s[i] != c);
        }
    } else {
        if f < s.len() {
            assert(seq_contains(s, c));
        }
    }
}

/// The position of the first occurrence of `c`, computed; `v.len()` when
/// there is none.
pub fn first_at_exec(v: &Vec<char>, c: char) -> (r: usize)
    ensures
        r == first_at(v@, c),
{
    match find_char(v, 0, c) {
        Some(i) => {
            proof {
                lemma_first_at_is(v@, c, i as int);
            }
            i
        },
        None => {
            proof {
                assert(!seq_contains(v@, c));
                lemma_first_at_is(v@, c, v@.len() as int);
            }
            v.len()
        },
    }
}

/// Splitting a character sequence on a separator, `str::split`-style: the
/// separators themselves are dropped, and empty pieces (from leading,
/// trailing, or doubled separators) are kept.
pub open spec fn spec_split(s: Seq<char>, sep: char) -> Seq<Seq<char>>
    decreases s.len(),
{
    if s.len() == 0 {
        seq![Seq::<char>::empty()]
    } else if s[0] == sep {
        seq![Seq::<char>::empty()] + spec_split(s.skip(1), sep)
    } else {
        let r = spec_split(s.skip(1), sep);
        seq![seq![s[0]] + r[0]] + r.skip(1)
    }
}

/// A split has at least one piece.
pub proof fn lemma_split_len(s: Seq<char>, sep: char)
    ensures
        spec_split(s, sep).len() >= 1,
    decreases s.len(),
{
    if s.len() == 0 {
    } else if s[0] == sep {
        lemma_split_len(s.skip(1), sep);
    } else {
        lemma_split_len(s.skip(1), sep);
    }
}

/// Unfolding `spec_split` at the first separator position.
pub proof fn lemma_split_at(s: Seq<char>, sep: char, i: int)
    requires
        0 <= i < s.len(),
        s[i] == sep,
        forall|j: int| 0 <= j < i ==> s[j] != sep,
    ensures
        spec_split(s, sep) == seq![s.take(i)] + spec_split(s.skip(i + 1), sep),
    decreases i,
{
    if i == 0 {
        assert(s.take(0) =~= Seq::<char>::empty());
        assert(s.skip(1) =~= s.skip(i + 1));
    } else {
        let t = s.skip(1);
        assert(t[i - 1] == sep);
        assert forall|j: int| 0 <= j < i - 1 implies t[j] != sep by {
            assert(t[j] == s[j + 1]);
        }
        lemma_split_at(t, sep, i - 1);
        let r = spec_split(t, sep);
        assert(r[0] == t.take(i - 1));
        assert(r.skip(1) =~= spec_split(t.skip(i), sep));
        assert(t.skip(i) =~= s.skip(i + 1));
        assert(seq![s[0]] + t.take(i - 1) =~= s.take(i));
        assert(seq![seq![s[0]] + r[0]] + r.skip(1) =~= seq![s.take(i)] + spec_split(
            s.skip(i + 1),
            sep,
        ));
    }
}

/// A sequence without the separator splits into itself alone.
pub proof fn lemma_split_none(s: Seq<char>, sep: char)
    requires
        forall|j: int| 0 <= j < s.len() ==> s[j] != sep,
    ensures
        spec_split(s, sep) == seq![s],
    decreases s.len(),
{
    if s.len() == 0 {
        assert(s =~= Seq::<char>::empty());
    } else {
        let t = s.skip(1);
        assert forall|j: int| 0 <= j < t.len() implies t[j] != sep by {
            assert(t[j] == s[j + 1]);
        }
        lemma_split_none(t, sep);
        let r = spec_split(t, sep);
        assert(r.skip(1) =~= Seq::<Seq<char>>::empty());
        assert(seq![s[0]] + t =~= s);
        assert(seq![seq![s[0]] + r[0]] + r.skip(1) =~= seq![s]);
    }
}

/// Step lemma for scanning splits left to right: consuming the piece before
/// the next separator moves it into the accumulator.
proof fn lemma_split_scan_step(whole: Seq<char>, sep: char, start: int, i: int, pre: Seq<Seq<char>>)
    requires
        0 <= start <= i < whole.len(),
        whole[i] == sep,
        forall|j: int| start <= j < i ==> whole[j] != sep,
        spec_split(whole, sep) == pre + spec_split(whole.skip(start), sep),
    ensures
        spec_split(whole, sep) == pre.push(whole.subrange(start, i)) + spec_split(
            whole.skip(i + 1),
            sep,
        ),
{
    let rest = whole.skip(start);
    assert(rest[i - start] == sep);
    assert forall|j: int| 0 <= j < i - start implies rest[j] != sep by {
        assert(rest[j] == whole[start + j]);
    }
    lemma_split_at(rest, sep, i - start);
    assert(rest.take(i - start) =~= whole.subrange(start, i));
    assert(rest.skip(i - start + 1) =~= whole.skip(i + 1));
    assert(pre + (seq![whole.subrange(start, i)] + spec_split(whole.skip(i + 1), sep)) =~= pre.push(
        whole.subrange(start, i),
    ) + spec_split(whole.skip(i + 1), sep));
}

/// Final lemma for scanning splits: the remainder after the last separator is
/// the final piece.
proof fn lemma_split_scan_last(whole: Seq<char>, sep: char, start: int, pre: Seq<Seq<char>>)
    requires
        0 <= start <= whole.len(),
        forall|j: int| start <= j < whole.len() ==> whole[j] != sep,
        spec_split(whole, sep) == pre + spec_split(whole.skip(start), sep),
    ensures
        spec_split(whole, sep) == pre.push(whole.skip(start)),
{
    let rest = whole.skip(start);
    assert forall|j: int| 0 <= j < rest.len() implies rest[j] != sep by {
        assert(rest[j] == whole[start + j]);
    }
    lemma_split_none(rest, sep);
    assert(pre + seq![rest] =~= pre.push(rest));
}

/// Split `v` on `sep` into fresh vectors.
pub fn split_all(v: &Vec<char>, sep: char) -> (r: Vec<Vec<char>>)
    ensures
        r@.len() == spec_split(v@, sep).len(),
        forall|i: int| 0 <= i < r@.len() ==> r@[i]@ == spec_split(v@, sep)[i],
{
    let mut r: Vec<Vec<char>> = Vec::new();
    let mut start: usize = 0;
    let ghost mut pieces: Seq<Seq<char>> = Seq::empty();
    proof {
        assert(v@.skip(0) =~= v@);
        assert(pieces + spec_split(v@, sep) =~= spec_split(v@, sep));
    }
    loop
        invariant
            start <= v@.len(),
            spec_split(v@, sep) == pieces + spec_split(v@.skip(start as int), sep),
            r@.len() == pieces.len(),
            forall|i: int| 0 <= i < r@.len() ==> r@[i]@ == pieces[i],
        decreases v@.len() - start,
    {
        match find_char(v, start, sep) {
            Some(i) => {
                proof {
                    lemma_split_scan_step(v@, sep, start as int, i as int, pieces);
                }
                let piece = subvec(v, start, i);
                r.push(piece);
                proof {
                    pieces = pieces.push(v@.subrange(start as int, i as int));
                    assert(i < v.len());
                }
                start = i + 1;
            },
            None => {
                proof {
                    lemma_split_scan_last(v@, sep, start as int, pieces);
                }
                let piece = subvec(v, start, v.len());
                proof {
                    assert(v@.subrange(start as int, v@.len() as int) =~= v@.skip(start as int));
                }
                r.push(piece);
                proof {
                    pieces = pieces.push(v@.skip(start as int));
                }
                return r;
            },
        }
    }
}

/// Joining pieces with a separator, the inverse of `spec_split`.
pub open spec fn spec_join(ps: Seq<Seq<char>>, sep: char) -> Seq<char>
    decreases ps.len(),
{
    if ps.len() == 0 {
        Seq::<char>::empty()
    } else if ps.len() == 1 {
        ps[0]
    } else {
        ps[0] + seq![sep] + spec_join(ps.skip(1), sep)
    }
}

/// Joining after splitting gives the text back.
pub proof fn lemma_join_of_split(s: Seq<char>, sep: char)
    ensures
        spec_join(spec_split(s, sep), sep) == s,
    decreases s.len(),
{
    lemma_split_len(s, sep);
    if s.len() == 0 {
        assert(spec_join(spec_split(s, sep), sep) =~= s);
    } else if s[0] == sep {
        lemma_join_of_split(s.skip(1), sep);
        lemma_split_len(s.skip(1), sep);
        let ps = seq![Seq::<char>::empty()] + spec_split(s.skip(1), sep);
        assert(ps.skip(1) =~= spec_split(s.skip(1), sep));
        assert(ps[0] + seq![sep] + spec_join(ps.skip(1), sep) =~= s);
    } else {
        lemma_join_of_split(s.skip(1), sep);
        let r = spec_split(s.skip(1), sep);
        let ps = seq![seq![s[0]] + r[0]] + r.skip(1);
        if r.len() == 1 {
            assert(ps.len() == 1);
            assert(spec_join(r, sep) == r[0]);
            assert(ps[0] =~= seq![s[0]] + spec_join(r, sep));
            assert(seq![s[0]] + s.skip(1) =~= s);
        } else {
            assert(ps.len() >= 2);
            assert(ps.skip(1) =~= r.skip(1));
            assert(ps[0] + seq![sep] + spec_join(ps.skip(1), sep) =~= seq![s[0]] + (r[0] + seq![sep]
                + spec_join(r.skip(1), sep)));
            assert(r[0] + seq![sep] + spec_join(r.skip(1), sep) == spec_join(r, sep));
            assert(seq![s[0]] + s.skip(1) =~= s);
        }
    }
}

/// No piece of a split holds the separator.
pub proof fn lemma_split_no_sep(s: Seq<char>, sep: char)
    ensures
        forall|i: int, k: int|
            0 <= i < spec_split(s, sep).len() && 0 <= k < spec_split(s, sep)[i].len()
                ==> #[trigger] spec_split(s, sep)[i][k] != sep,
    decreases s.len(),
{
    if s.len() == 0 {
    } else if s[0] == sep {
        lemma_split_no_sep(s.skip(1), sep);
        let ps = spec_split(s, sep);
        let r = spec_split(s.skip(1), sep);
        assert forall|i: int, k: int|
            0 <= i < ps.len() && 0 <= k < ps[i].len() implies #[trigger] ps[i][k] != sep by {
            if i > 0 {
                assert(ps[i] == r[i - 1]);
                assert(r[i - 1][k] != sep);
            }
        }
    } else {
        lemma_split_no_sep(s.skip(1), sep);
        let ps = spec_split(s, sep);
        let r = spec_split(s.skip(1), sep);
        lemma_split_len(s.skip(1), sep);
        assert forall|i: int, k: int|
            0 <= i < ps.len() && 0 <= k < ps[i].len() implies #[trigger] ps[i][k] != sep by {
            if i == 0 {
                assert(ps[0] == seq![s[0]] + r[0]);
                if k == 0 {
                    assert(ps[0][0] == s[0]);
                } else {
                    assert(ps[0][k] == r[0][k - 1]);
                    assert(r[0][k - 1] != sep);
                }
            } else {
                assert(ps[i] == r.skip(1)[i - 1]);
                assert(r[i][k] != sep);
            }
        }
    }
}

/// Splitting after joining gives the pieces back, when none of them holds
/// the separator.
pub proof fn lemma_split_of_join(ps: Seq<Seq<char>>, sep: char)
    requires
        ps.len() >= 1,
        forall|i: int, k: int|
            0 <= i < ps.len() && 0 <= k < ps[i].len() ==> #[trigger] ps[i][k] != sep,
    ensures
        spec_split(spec_join(ps, sep), sep) == ps,
    decreases ps.len(),
{
    if ps.len() == 1 {
        lemma_split_none(ps[0], sep);
        assert(spec_split(spec_join(ps, sep), sep) =~= ps);
    } else {
        let t = spec_join(ps, sep);
        let p0 = ps[0];
        assert forall|j: int| 0 <= j < p0.len() implies t[j] != sep by {
            assert(t[j] == p0[j]);
            assert(ps[0][j] != sep);
        }
        assert(t[p0.len() as int] == sep);
        lemma_split_at(t, sep, p0.len() as int);
        assert(t.take(p0.len() as int) =~= p0);
        assert(t.skip(p0.len() as int + 1) =~= spec_join(ps.skip(1), sep));
        assert forall|i: int, k: int|
            0 <= i < ps.skip(1).len() && 0 <= k < ps.skip(1)[i].len() implies #[trigger] ps.skip(
            1,
        )[i][k] != sep by {
            assert(ps.skip(1)[i] == ps[i + 1]);
            assert(ps[i + 1][k] != sep);
        }
        lemma_split_of_join(ps.skip(1), sep);
        assert(seq![p0] + ps.skip(1) =~= ps);
    }
}

/// Appending one more piece onto a join.
pub proof fn lemma_join_push(ps: Seq<Seq<char>>, p: Seq<char>, sep: char)
    ensures
        ps.len() == 0 ==> spec_join(ps.push(p), sep) == p,
        ps.len() >= 1 ==> spec_join(ps.push(p), sep) == spec_join(ps, sep) + seq![sep] + p,
    decreases ps.len(),
{
    if ps.len() == 0 {
        assert(ps.push(p)[0] == p);
    } else if ps.len() == 1 {
        let q = ps.push(p);
        assert(q.len() == 2);
        assert(q[0] == ps[0]);
        assert(q.skip(1) =~= seq![p]);
        assert(spec_join(q.skip(1), sep) == p);
    } else {
        let q = ps.push(p);
        assert(q.skip(1) =~= ps.skip(1).push(p));
        lemma_join_push(ps.skip(1), p, sep);
        assert(q[0] == ps[0]);
        assert(ps[0] + seq![sep] + (spec_join(ps.skip(1), sep) + seq![sep] + p) =~= (ps[0]
            + seq![sep] + spec_join(ps.skip(1), sep)) + seq![sep] + p);
    }
}

} // verus!
