//! Character-level helpers for matching keywords and markers in text.

use vstd::prelude::*;

verus! {

/// `needle` occurs in `hay` starting at index `i`.
pub open spec fn occurs_at(hay: Seq<char>, needle: Seq<char>, i: int) -> bool {
    &&& 0 <= i
    &&& i + needle.len() <= hay.len()
    &&& hay.subrange(i, i + needle.len()) == needle
}

/// `needle` occurs somewhere in `hay` as a contiguous run of characters.
pub open spec fn contains_text(hay: Seq<char>, needle: Seq<char>) -> bool {
    exists|i: int| occurs_at(hay, needle, i)
}

/// The lowercase form of a text, as the standard library's Unicode case
/// mapping defines it.
pub uninterp spec fn lowercased(text: Seq<char>) -> Seq<char>;

/// `str::to_lowercase` of the standard library. Its result is the Unicode
/// lowercase mapping of the text, which depends on the characters alone; the
/// mapping itself is not spelled out here, only named.
pub assume_specification[ str::to_lowercase ](text: &str) -> (lowered: String)
    ensures
        lowered@ == lowercased(text@),
;

/// The characters of `s`, in order.
pub fn chars_of(s: &str) -> (chars: Vec<char>)
    ensures
        chars@ == s@,
{
    let mut chars: Vec<char> = Vec::new();
    for c in it: s.chars()
        invariant
            it.seq() == s@,
            chars@ == s@.take(it.index() as int),
    {
        chars.push(c);
    }
    chars
}

/// Tells whether `needle` occurs in `hay` at index `start`.
pub fn matches_at(hay: &Vec<char>, needle: &Vec<char>, start: usize) -> (found: bool)
    requires
        start + needle.len() <= hay.len(),
    ensures
        found == occurs_at(hay@, needle@, start as int),
{
    let mut k: usize = 0;
    while k < needle.len()
        invariant
            k <= needle.len(),
            start + needle.len() <= hay.len(),
            forall|j: int| 0 <= j < k ==> hay@[start + j] == needle@[j],
        decreases needle.len() - k,
    {
        if hay[start + k] != needle[k] {
            proof {
                let window = hay@.subrange(start as int, start + needle.len());
                assert(window[k as int] == hay@[start + k]);
            }
            return false;
        }
        k += 1;
    }
    assert(hay@.subrange(start as int, start + needle.len()) =~= needle@);
    true
}

/// Tells whether `needle` occurs anywhere in `hay`.
pub fn contains(hay: &Vec<char>, needle: &Vec<char>) -> (found: bool)
    ensures
        found == contains_text(hay@, needle@),
{
    if needle.len() == 0 {
        assert(occurs_at(hay@, needle@, 0)) by {
            assert(hay@.subrange(0, 0) =~= needle@);
        }
        return true;
    }
    if needle.len() > hay.len() {
        return false;
    }
    let last: usize = hay.len() - needle.len();
    let mut start: usize = 0;
    while start <= last
        invariant
            last == hay.len() - needle.len(),
            0 < needle.len() <= hay.len(),
            start <= last + 1,
            forall|i: int| 0 <= i < start ==> !occurs_at(hay@, needle@, i),
        decreases last + 1 - start,
    {
        if matches_at(hay, needle, start) {
            return true;
        }
        start += 1;
    }
    false
}

} // verus!
