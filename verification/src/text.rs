//! Searching a text for a marker.

use vstd::prelude::*;

verus! {

/// `needle` stands in `hay` at position `at`.
pub open spec fn occurs_at(hay: Seq<char>, needle: Seq<char>, at: int) -> bool {
    0 <= at && at + needle.len() <= hay.len() && hay.subrange(at, at + needle.len()) == needle
}

/// `needle` stands somewhere in `hay`.
pub open spec fn contains(hay: Seq<char>, needle: Seq<char>) -> bool {
    exists|at: int| occurs_at(hay, needle, at)
}

/// The first `upto` positions of `needle` agree with `hay` from `at` on.
spec fn agrees(hay: Seq<char>, needle: Seq<char>, at: int, upto: int) -> bool {
    forall|k: int| 0 <= k < upto ==> hay[at + k] == #[trigger] needle[k]
}

/// A text stands in whatever is put around it.
pub proof fn lemma_contains_middle(before: Seq<char>, middle: Seq<char>, after: Seq<char>)
    ensures
        contains(before + middle + after, middle),
{
    let whole = before + middle + after;
    assert(whole.subrange(before.len() as int, (before.len() + middle.len()) as int) =~= middle);
    assert(occurs_at(whole, middle, before.len() as int));
}

/// What stands in a text stands in whatever is put around that text.
pub proof fn lemma_contains_within(
    before: Seq<char>,
    middle: Seq<char>,
    after: Seq<char>,
    needle: Seq<char>,
)
    requires
        contains(middle, needle),
    ensures
        contains(before + middle + after, needle),
{
    let at = choose|at: int| occurs_at(middle, needle, at);
    let whole = before + middle + after;
    assert(whole.subrange(before.len() + at, before.len() + at + needle.len())
        =~= middle.subrange(at, at + needle.len()));
    assert(occurs_at(whole, needle, before.len() + at));
}

/// The characters of a string, one by one.
pub fn chars_of(s: &str) -> (v: Vec<char>)
    ensures
        v@ == s@,
{
    let mut v: Vec<char> = Vec::new();
    for c in it: s.chars()
        invariant
            it.seq() == s@,
            v@ == it.seq().take(it.index()),
    {
        v.push(c);
    }
    v
}

/// Whether `needle` stands in `hay` at position `at`.
fn matches_at(hay: &Vec<char>, needle: &Vec<char>, at: usize) -> (found: bool)
    requires
        at + needle.len() <= hay.len(),
    ensures
        found == occurs_at(hay@, needle@, at as int),
{
    let mut k: usize = 0;
    while k < needle.len()
        invariant
            k <= needle.len(),
            at + needle.len() <= hay.len(),
            agrees(hay@, needle@, at as int, k as int),
        decreases needle.len() - k,
    {
        if hay[at + k] != needle[k] {
            proof {
                let window = hay@.subrange(at as int, at + needle.len());
                assert(window[k as int] == hay@[at + k]);
            }
            return false;
        }
        k += 1;
    }
    assert(hay@.subrange(at as int, at + needle.len()) =~= needle@);
    true
}

/// Whether `needle` stands somewhere in `hay`. The comparison is by
/// character and takes case into account; the empty text stands in every
/// text.
pub fn contains_text(hay: &str, needle: &str) -> (found: bool)
    ensures
        found == contains(hay@, needle@),
{
    let text = chars_of(hay);
    let marker = chars_of(needle);
    if marker.len() > text.len() {
        return false;
    }
    let last: usize = text.len() - marker.len();
    let mut at: usize = 0;
    loop
        invariant
            text@ == hay@,
            marker@ == needle@,
            last == text.len() - marker.len(),
            at <= last,
            forall|j: int| 0 <= j < at ==> !occurs_at(hay@, needle@, j),
        decreases last - at,
    {
        if matches_at(&text, &marker, at) {
            return true;
        }
        if at == last {
            return false;
        }
        at += 1;
    }
}

} // verus!
