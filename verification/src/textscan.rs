//! Byte-level substring search, used to classify content-type headers.

use vstd::prelude::*;

verus! {

/// Whether `needle` occurs as a contiguous run somewhere inside `hay`.
pub open spec fn has_subrange(hay: Seq<u8>, needle: Seq<u8>) -> bool {
    exists|i: int|
        0 <= i <= hay.len() - needle.len() && #[trigger] hay.subrange(i, i + needle.len() as int)
            == needle
}

/// Whether `needle` occurs at position `at` of `hay`.
fn matches_at(hay: &[u8], needle: &[u8], at: usize) -> (r: bool)
    requires
        at + needle@.len() <= hay@.len(),
    ensures
        r == (hay@.subrange(at as int, at as int + needle@.len() as int) == needle@),
{
    let ghost window = hay@.subrange(at as int, at as int + needle@.len() as int);
    let h_len: usize = hay.len();
    let n_len: usize = needle.len();
    let mut j: usize = 0;
    while j < n_len
        invariant
            h_len == hay@.len(),
            n_len == needle@.len(),
            at + needle@.len() <= hay@.len(),
            j <= needle@.len(),
            window == hay@.subrange(at as int, at as int + needle@.len() as int),
            forall|j0: int| 0 <= j0 < j ==> hay@[at + j0] == needle@[j0],
        decreases needle@.len() - j,
    {
        if hay[at + j] != needle[j] {
            proof {
                assert(window[j as int] == hay@[at + j]);
                assert(window[j as int] != needle@[j as int]);
            }
            return false;
        }
        j = j + 1;
    }
    proof {
        assert(window =~= needle@);
    }
    true
}

/// Search for `needle` inside `hay`, returning whether it occurs anywhere.
pub fn bytes_contains(hay: &[u8], needle: &[u8]) -> (r: bool)
    ensures
        r == has_subrange(hay@, needle@),
{
    if needle.len() > hay.len() {
        return false;
    }
    let last: usize = hay.len() - needle.len();
    let mut i: usize = 0;
    loop
        invariant
            needle@.len() <= hay@.len(),
            last == hay@.len() - needle@.len(),
            i <= last,
            forall|i0: int|
                0 <= i0 < i ==> #[trigger] hay@.subrange(i0, i0 + needle@.len() as int)
                    != needle@,
        decreases last - i,
    {
        if matches_at(hay, needle, i) {
            return true;
        }
        if i == last {
            return false;
        }
        i = i + 1;
    }
}

} // verus!
