//! Functions, tuples, and searching one string for another.

use vstd::prelude::*;
use vstd::utf8::encode_utf8;

verus! {

/// The bytes `n` occur in `h` starting at index `i`.
pub open spec fn occurs_at(n: Seq<u8>, h: Seq<u8>, i: int) -> bool {
    &&& 0 <= i
    &&& i + n.len() <= h.len()
    &&& h.subrange(i, i + n.len()) == n
}

/// Whether `needle` occurs in `haystack`, compared byte by byte in UTF-8.
pub fn is_match(needle: &str, haystack: &str) -> (r: bool)
    ensures
        r == exists|i: int| occurs_at(encode_utf8(needle@), encode_utf8(haystack@), i),
{
    let n = needle.as_bytes();
    let h = haystack.as_bytes();
    if n.len() > h.len() {
        return false;
    }
    let hl = h.len();
    let last = hl - n.len();
    let mut i: usize = 0;
    while i <= last
        invariant
            n@ == encode_utf8(needle@),
            h@ == encode_utf8(haystack@),
            n@.len() <= h@.len(),
            hl == h@.len(),
            last == h@.len() - n@.len(),
            forall|j: int| 0 <= j < i ==> !occurs_at(n@, h@, j),
        decreases last + 1 - i,
    {
        let mut k: usize = 0;
        while k < n.len() && h[i + k] == n[k]
            invariant
                i <= last,
                last == h@.len() - n@.len(),
                hl == h@.len(),
                k <= n@.len(),
                forall|m: int| 0 <= m < k ==> h@[i + m] == n@[m],
            decreases n@.len() - k,
        {
            k = k + 1;
        }
        if k == n.len() {
            assert(h@.subrange(i as int, i + n@.len()) =~= n@);
            assert(occurs_at(n@, h@, i as int));
            return true;
        }
        assert(h@.subrange(i as int, i + n@.len())[k as int] != n@[k as int]);
        i = i + 1;
    }
    assert forall|j: int| occurs_at(n@, h@, j) implies j < i by {}
    false
}

/// The pair with its two members swapped.
pub fn _reverse(pair: (i32, bool)) -> (r: (bool, i32))
    ensures
        r == (pair.1, pair.0),
{
    let (int_param, bool_param) = pair;
    (bool_param, int_param)
}

/// Five.
pub fn five() -> (r: i32)
    ensures
        r == 5,
{
    5
}

/// One more than `x`.
pub fn plus_one(x: i32) -> (r: i32)
    requires
        x < i32::MAX,
    ensures
        r == x + 1,
{
    x + 1
}

} // verus!
