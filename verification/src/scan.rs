//! Byte-level scanning helpers shared by the wire codec and the protocol
//! handler: finding a byte, and matching a fixed pattern at a position.

use vstd::prelude::*;
use vstd::string::StringSliceAdditionalSpecFns;

verus! {

/// The first index at or after `i` holding the given byte, if any.
pub open spec fn spec_find_byte(s: Seq<u8>, i: int, b: u8) -> Option<int>
    decreases s.len() - i,
{
    if !(0 <= i && i < s.len()) {
        None
    } else if s[i] == b {
        Some(i)
    } else {
        spec_find_byte(s, i + 1, b)
    }
}

/// The bytes of `pat` stand at index `i` of `s`.
pub open spec fn spec_match_at(s: Seq<u8>, i: int, pat: Seq<u8>) -> bool {
    0 <= i && i + pat.len() <= s.len() && s.subrange(i, i + pat.len()) == pat
}

/// Find the next occurrence of a byte.
pub(crate) fn find_byte(s: &[u8], i: usize, b: u8) -> (r: Option<usize>)
    requires
        i <= s@.len(),
    ensures
        (match r {
            Some(q) => Some(q as int),
            None => None,
        }) == spec_find_byte(s@, i as int, b),
        r matches Some(q) ==> i <= q < s@.len(),
{
    let mut k: usize = i;
    while k < s.len() && s[k] != b
        invariant
            i <= k <= s@.len(),
            spec_find_byte(s@, i as int, b) == spec_find_byte(s@, k as int, b),
        decreases s@.len() - k,
    {
        k = k + 1;
    }
    if k < s.len() {
        Some(k)
    } else {
        None
    }
}

/// Whether the bytes of `pat` stand at index `i` of `s`.
pub(crate) fn bytes_match_at(s: &[u8], i: usize, pat: &[u8]) -> (r: bool)
    requires
        i <= s@.len(),
    ensures
        r == spec_match_at(s@, i as int, pat@),
{
    if s.len() - i < pat.len() {
        assert(!spec_match_at(s@, i as int, pat@));
        return false;
    }
    let mut j: usize = 0;
    while j < pat.len()
        invariant
            0 <= j <= pat@.len(),
            i + pat@.len() <= s@.len(),
            s@.len() <= usize::MAX,
            forall|m: int| 0 <= m < j ==> s@[i + m] == pat@[m],
        decreases pat@.len() - j,
    {
        if s[i + j] != pat[j] {
            assert(s@.subrange(i as int, i + pat@.len())[j as int] == s@[i + j]);
            assert(s@.subrange(i as int, i + pat@.len()) != pat@);
            return false;
        }
        j = j + 1;
    }
    assert(s@.subrange(i as int, i + pat@.len()) =~= pat@);
    true
}

/// Whether the byte range `[a, b)` of `s` holds exactly the bytes of a
/// name.
pub(crate) fn key_is(s: &[u8], a: usize, b: usize, name: &str) -> (r: bool)
    requires
        a <= b <= s@.len(),
    ensures
        r == (s@.subrange(a as int, b as int) == name.spec_bytes()),
{
    let pat = name.as_bytes();
    if b - a != pat.len() {
        assert(s@.subrange(a as int, b as int).len() == b - a);
        return false;
    }
    let m = bytes_match_at(s, a, pat);
    assert(m ==> s@.subrange(a as int, b as int) == name.spec_bytes());
    assert(!m ==> s@.subrange(a as int, b as int) != name.spec_bytes());
    m
}

} // verus!
