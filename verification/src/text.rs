//! The little text handling that labelling GPU resources needs.

use vstd::prelude::*;

verus! {

/// Whether `needle` occurs in `haystack` at position `at`.
pub open spec fn occurs_at(haystack: Seq<char>, needle: Seq<char>, at: int) -> bool {
    0 <= at && at + needle.len() <= haystack.len() && haystack.subrange(
        at,
        at + needle.len(),
    ) == needle
}

/// Whether `needle` occurs somewhere in `haystack`.
pub open spec fn occurs(haystack: Seq<char>, needle: Seq<char>) -> bool {
    exists|at: int| occurs_at(haystack, needle, at)
}

/// `head` followed by `tail`.
pub fn joined(head: &str, tail: &str) -> (text: String)
    ensures
        text@ == head@ + tail@,
{
    let mut text = head.to_owned();
    text.append(tail);
    text
}

/// Tells whether `needle` occurs in `haystack` at position `at`.
fn matches_at(haystack: &str, needle: &str, at: usize) -> (found: bool)
    requires
        at + needle@.len() <= haystack@.len() <= usize::MAX,
    ensures
        found == occurs_at(haystack@, needle@, at as int),
{
    let len = needle.unicode_len();
    let mut k: usize = 0;
    while k < len
        invariant
            len == needle@.len(),
            k <= len,
            at + len <= haystack@.len() <= usize::MAX,
            forall|j: int| 0 <= j < k ==> haystack@[at + j] == needle@[j],
        decreases len - k,
    {
        if haystack.get_char(at + k) != needle.get_char(k) {
            assert(haystack@.subrange(at as int, at + len)[k as int] != needle@[k as int]);
            return false;
        }
        k += 1;
    }
    assert(haystack@.subrange(at as int, at + len) =~= needle@);
    true
}

/// Tells whether `needle` occurs somewhere in `haystack`.
pub fn contains(haystack: &str, needle: &str) -> (found: bool)
    ensures
        found == occurs(haystack@, needle@),
{
    let long = haystack.unicode_len();
    let short = needle.unicode_len();
    if short > long {
        return false;
    }
    if short == 0 {
        assert(haystack@.subrange(0, 0) =~= needle@);
        assert(occurs_at(haystack@, needle@, 0));
        return true;
    }
    let mut at: usize = 0;
    while at <= long - short
        invariant
            long == haystack@.len(),
            short == needle@.len(),
            0 < short <= long,
            at <= long - short + 1,
            forall|i: int| 0 <= i < at ==> !occurs_at(haystack@, needle@, i),
        decreases long - short + 1 - at,
    {
        if matches_at(haystack, needle, at) {
            return true;
        }
        at += 1;
    }
    false
}

} // verus!
