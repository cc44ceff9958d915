//! Small operations on strings, stated over sequences of characters.

use vstd::prelude::*;

verus! {

/// Position of the first `sep` in `s`, or `s.len()` when there is none.
pub open spec fn first_sep(s: Seq<char>, sep: char) -> nat
    decreases s.len(),
{
    if s.len() == 0 || s[0] == sep {
        0
    } else {
        1 + first_sep(s.drop_first(), sep)
    }
}

/// The pieces of `s` between occurrences of `sep`, in order. There is always
/// at least one piece; two adjacent separators enclose an empty piece.
pub open spec fn split_on(s: Seq<char>, sep: char) -> Seq<Seq<char>>
    decreases s.len(),
{
    let i = first_sep(s, sep) as int;
    if i >= s.len() {
        seq![s]
    } else {
        seq![s.subrange(0, i)] + split_on(s.subrange(i + 1, s.len() as int), sep)
    }
}

/// `needle` occurs in `hay` at position `at`.
pub open spec fn occurs_at(hay: Seq<char>, needle: Seq<char>, at: int) -> bool {
    0 <= at && at + needle.len() <= hay.len() && hay.subrange(at, at + needle.len()) == needle
}

/// `needle` occurs somewhere in `hay`.
pub open spec fn contains_seq(hay: Seq<char>, needle: Seq<char>) -> bool {
    exists|at: int| occurs_at(hay, needle, at)
}

/// `hay` begins with `needle`.
pub open spec fn starts_with_seq(hay: Seq<char>, needle: Seq<char>) -> bool {
    occurs_at(hay, needle, 0)
}

/// `hay` ends with `needle`.
pub open spec fn ends_with_seq(hay: Seq<char>, needle: Seq<char>) -> bool {
    occurs_at(hay, needle, hay.len() - needle.len())
}

/// The characters of `s`, in order.
pub fn chars_of(s: &str) -> (v: Vec<char>)
    ensures
        v@ == s@,
{
    let mut v: Vec<char> = Vec::new();
    for c in it: s.chars()
        invariant
            v@ == it.seq().take(it.index() as int),
            it.seq() == s@,
    {
        v.push(c);
    }
    v
}

/// The views of a sequence of strings.
pub open spec fn views(v: Seq<String>) -> Seq<Seq<char>> {
    v.map_values(|p: String| p@)
}

/// Where the first `k` characters of `t` are no separator, and position `k`
/// holds one or ends `t`, the first separator is at `k`.
pub proof fn lemma_first_sep_at(t: Seq<char>, sep: char, k: int)
    requires
        0 <= k <= t.len(),
        forall|j: int| 0 <= j < k ==> t[j] != sep,
        k == t.len() || t[k] == sep,
    ensures
        first_sep(t, sep) == k,
    decreases k,
{
    if k > 0 {
        lemma_first_sep_at(t.drop_first(), sep, k - 1);
    }
}

/// Splits `s` at every occurrence of `sep`.
pub fn split(s: &str, sep: char) -> (parts: Vec<String>)
    ensures
        views(parts@) == split_on(s@, sep),
{
    let cs = chars_of(s);
    let n = cs.len();
    let mut parts: Vec<String> = Vec::new();
    let mut start: usize = 0;
    let mut i: usize = 0;
    assert(s@.subrange(0, n as int) == s@);
    while i < n
        invariant
            start <= i <= n,
            cs@ == s@,
            n == cs.len(),
            forall|j: int| start <= j < i ==> cs@[j] != sep,
            split_on(s@, sep) == views(parts@) + split_on(s@.subrange(start as int, n as int), sep),
        decreases n - i,
    {
        if cs[i] == sep {
            let piece = s.substring_char(start, i).to_owned();
            proof {
                let rest = s@.subrange(start as int, n as int);
                lemma_first_sep_at(rest, sep, i - start);
                assert(rest.subrange(0, i - start) == s@.subrange(start as int, i as int));
                assert(rest.subrange(i - start + 1, rest.len() as int) == s@.subrange(
                    i + 1,
                    n as int,
                ));
                assert(views(parts@.push(piece)) == views(parts@) + seq![piece@]);
            }
            parts.push(piece);
            start = i + 1;
        }
        i += 1;
    }
    let last = s.substring_char(start, n).to_owned();
    proof {
        let rest = s@.subrange(start as int, n as int);
        lemma_first_sep_at(rest, sep, n - start);
        assert(views(parts@.push(last)) == views(parts@) + seq![last@]);
    }
    parts.push(last);
    parts
}

/// Whether `needle` stands in `hay` at position `at`.
pub fn matches_at(hay: &Vec<char>, needle: &Vec<char>, at: usize) -> (b: bool)
    ensures
        b == occurs_at(hay@, needle@, at as int),
{
    let m = needle.len();
    if at > hay.len() || m > hay.len() - at {
        return false;
    }
    let mut j: usize = 0;
    while j < m
        invariant
            j <= m,
            m == needle.len(),
            at + m <= hay.len(),
            forall|k: int| 0 <= k < j ==> hay@[at + k] == needle@[k],
        decreases m - j,
    {
        if hay[at + j] != needle[j] {
            assert(hay@.subrange(at as int, at + m)[j as int] != needle@[j as int]);
            return false;
        }
        j += 1;
    }
    assert(hay@.subrange(at as int, at + m) =~= needle@);
    true
}

/// Whether `needle` occurs in `hay`.
pub fn contains(hay: &str, needle: &str) -> (b: bool)
    ensures
        b == contains_seq(hay@, needle@),
{
    let h = chars_of(hay);
    let nd = chars_of(needle);
    if nd.len() > h.len() {
        return false;
    }
    let last = h.len() - nd.len();
    let mut at: usize = 0;
    while at < last
        invariant
            at <= last,
            last == h.len() - nd.len(),
            h@ == hay@,
            nd@ == needle@,
            forall|a: int| 0 <= a < at ==> !occurs_at(hay@, needle@, a),
        decreases last - at,
    {
        if matches_at(&h, &nd, at) {
            return true;
        }
        at += 1;
    }
    matches_at(&h, &nd, last)
}

/// Whether `hay` begins with `needle`.
pub fn starts_with(hay: &str, needle: &str) -> (b: bool)
    ensures
        b == starts_with_seq(hay@, needle@),
{
    let h = chars_of(hay);
    let nd = chars_of(needle);
    matches_at(&h, &nd, 0)
}

/// Whether `hay` ends with `needle`.
pub fn ends_with(hay: &str, needle: &str) -> (b: bool)
    ensures
        b == ends_with_seq(hay@, needle@),
{
    let h = chars_of(hay);
    let nd = chars_of(needle);
    if nd.len() > h.len() {
        return false;
    }
    matches_at(&h, &nd, h.len() - nd.len())
}

} // verus!
