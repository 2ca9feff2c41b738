//! String helpers with exact contracts.

use vstd::prelude::*;

verus! {

/// `needle` occurs in `haystack` starting at position `start`.
pub open spec fn occurs_at(needle: Seq<char>, haystack: Seq<char>, start: int) -> bool {
    &&& 0 <= start
    &&& start + needle.len() <= haystack.len()
    &&& haystack.subrange(start, start + needle.len()) == needle
}

/// `needle` occurs in `haystack` as a contiguous run of characters.
pub open spec fn occurs_in(needle: Seq<char>, haystack: Seq<char>) -> bool {
    exists|start: int| occurs_at(needle, haystack, start)
}

/// Whether two string slices hold the same characters.
pub fn same_text(a: &str, b: &str) -> (r: bool)
    ensures
        r == (a@ == b@),
{
    let left = a.to_owned();
    let right = b.to_owned();
    left == right
}

/// Whether `needle` stands in `haystack` at `start`.
fn matches_at(haystack: &str, needle: &str, start: usize) -> (r: bool)
    requires
        start + needle@.len() <= haystack@.len(),
    ensures
        r == occurs_at(needle@, haystack@, start as int),
{
    let h = haystack.unicode_len();
    let n = needle.unicode_len();
    let mut i: usize = 0;
    while i < n
        invariant
            i <= n,
            n == needle@.len(),
            h == haystack@.len(),
            start + n <= h,
            forall|k: int| 0 <= k < i ==> haystack@[start + k] == needle@[k],
        decreases n - i,
    {
        if haystack.get_char(start + i) != needle.get_char(i) {
            proof {
                let window = haystack@.subrange(start as int, start + n);
                assert(window[i as int] == haystack@[start + i]);
            }
            return false;
        }
        i += 1;
    }
    proof {
        assert(haystack@.subrange(start as int, start + n) =~= needle@);
    }
    true
}

/// Whether `needle` occurs somewhere in `haystack`, as `str::contains` decides
/// it for a string pattern.
pub fn contains(haystack: &str, needle: &str) -> (r: bool)
    ensures
        r == occurs_in(needle@, haystack@),
{
    let h = haystack.unicode_len();
    let n = needle.unicode_len();
    if n > h {
        return false;
    }
    let last = h - n;
    let mut start: usize = 0;
    loop
        invariant
            start <= last,
            last == h - n,
            h == haystack@.len(),
            n == needle@.len(),
            forall|s: int| 0 <= s < start ==> !occurs_at(needle@, haystack@, s),
        decreases last - start,
    {
        if matches_at(haystack, needle, start) {
            return true;
        }
        if start == last {
            return false;
        }
        start += 1;
    }
}

/// `prefix` followed by `rest`, as one owned string.
pub fn join(prefix: &str, rest: &str) -> (r: String)
    ensures
        r@ == prefix@ + rest@,
{
    let mut out = String::from_str(prefix);
    out.append(rest);
    out
}

} // verus!
