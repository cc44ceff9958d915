//! Character classes of Unicode, as std reports them, and counts over them.

use vstd::prelude::*;

verus! {

/// Whether `c` has the Unicode property `Alphabetic`.
pub uninterp spec fn is_alphabetic_char(c: char) -> bool;

/// Whether `c` has the Unicode property `Uppercase`.
pub uninterp spec fn is_uppercase_char(c: char) -> bool;

/// `char::is_alphabetic` of std. Believed, not proved: the answer is the
/// Unicode property `Alphabetic` of `c`, which `is_alphabetic_char` names.
#[verifier::external_body]
pub(crate) fn is_alphabetic(c: char) -> (b: bool)
    ensures
        b == is_alphabetic_char(c),
{
    c.is_alphabetic()
}

/// `char::is_uppercase` of std. Believed, not proved: the answer is the
/// Unicode property `Uppercase` of `c`, which `is_uppercase_char` names.
#[verifier::external_body]
pub(crate) fn is_uppercase(c: char) -> (b: bool)
    ensures
        b == is_uppercase_char(c),
{
    c.is_uppercase()
}

/// Number of alphabetic characters in `s`.
pub open spec fn alphabetic_count(s: Seq<char>) -> nat
    decreases s.len(),
{
    if s.len() == 0 {
        0
    } else {
        alphabetic_count(s.drop_last()) + if is_alphabetic_char(s.last()) {
            1nat
        } else {
            0nat
        }
    }
}

/// Number of characters in `s` that are alphabetic and uppercase.
pub open spec fn uppercase_alphabetic_count(s: Seq<char>) -> nat
    decreases s.len(),
{
    if s.len() == 0 {
        0
    } else {
        uppercase_alphabetic_count(s.drop_last()) + if is_alphabetic_char(s.last())
            && is_uppercase_char(s.last()) {
            1nat
        } else {
            0nat
        }
    }
}

/// Neither count exceeds the length, and the uppercase letters are among the letters.
pub proof fn lemma_counts_bounded(s: Seq<char>)
    ensures
        uppercase_alphabetic_count(s) <= alphabetic_count(s) <= s.len(),
    decreases s.len(),
{
    if s.len() > 0 {
        lemma_counts_bounded(s.drop_last());
    }
}

/// Every alphabetic character of `s` is uppercase exactly when the two counts agree.
pub proof fn lemma_all_uppercase_iff_counts_agree(s: Seq<char>)
    ensures
        (forall|i: int| 0 <= i < s.len() && is_alphabetic_char(s[i]) ==> is_uppercase_char(s[i]))
            <==> uppercase_alphabetic_count(s) == alphabetic_count(s),
    decreases s.len(),
{
    if s.len() > 0 {
        let t = s.drop_last();
        lemma_all_uppercase_iff_counts_agree(t);
        lemma_counts_bounded(t);
        assert(forall|i: int| 0 <= i < t.len() ==> t[i] == s[i]);
        if uppercase_alphabetic_count(s) == alphabetic_count(s) {
            assert forall|i: int| 0 <= i < s.len() && is_alphabetic_char(s[i]) implies is_uppercase_char(s[i]) by {
                if i < t.len() {
                    assert(t[i] == s[i]);
                }
            }
        }
    }
}

/// Counts the alphabetic characters of `s`, and those among them that are uppercase.
pub fn letter_counts(s: &str) -> (counts: (usize, usize))
    ensures
        counts.0 == alphabetic_count(s@),
        counts.1 == uppercase_alphabetic_count(s@),
{
    let cs = crate::text::chars_of(s);
    let mut letters: usize = 0;
    let mut upper: usize = 0;
    let mut i: usize = 0;
    assert(cs@.take(0) == Seq::<char>::empty());
    while i < cs.len()
        invariant
            i <= cs.len(),
            cs@ == s@,
            letters == alphabetic_count(cs@.take(i as int)),
            upper == uppercase_alphabetic_count(cs@.take(i as int)),
            upper <= letters <= i,
        decreases cs.len() - i,
    {
        let c = cs[i];
        assert(cs@.take(i + 1).drop_last() == cs@.take(i as int));
        if is_alphabetic(c) {
            letters += 1;
            if is_uppercase(c) {
                upper += 1;
            }
        }
        i += 1;
    }
    assert(cs@.take(i as int) == cs@);
    (letters, upper)
}

} // verus!
