//! Moving, borrowing and slicing strings.

use vstd::prelude::*;
use vstd::std_specs::iter::IteratorSpec;
use vstd::string::*;
use vstd::utf8::encode_utf8;

verus! {

broadcast use vstd::string::group_string_axioms;

/// `k` is where the first word of the bytes `b` ends: no space before it, and
/// a space at it unless it is the end.
pub open spec fn is_word_end(b: Seq<u8>, k: int) -> bool {
    &&& 0 <= k <= b.len()
    &&& forall|i: int| 0 <= i < k ==> b[i] != 32u8
    &&& k < b.len() ==> b[k] == 32u8
}

/// `w` is the first word of `s`: the characters of `s` before its first
/// space, or all of `s` when it holds none.
pub open spec fn is_first_word(w: Seq<char>, s: Seq<char>) -> bool {
    &&& w.len() <= s.len()
    &&& w == s.subrange(0, w.len() as int)
    &&& forall|i: int| 0 <= i < w.len() ==> w[i] != ' '
    &&& w.len() < s.len() ==> s[w.len() as int] == ' '
}

/// A new string holding "yours".
pub fn gives_ownership() -> (r: String)
    ensures
        r@ == "yours"@,
{
    String::from_str("yours")
}

/// Hands its argument back unchanged.
pub fn takes_and_gives_back(a_string: String) -> (r: String)
    ensures
        r@ == a_string@,
{
    a_string
}

/// Hands the string back together with its length in bytes.
pub fn calculate_length(s: String) -> (r: (String, usize))
    ensures
        r.0@ == s@,
        r.1 == encode_utf8(s@).len(),
{
    let length = s.as_str().as_bytes().len();
    (s, length)
}

/// The length of the borrowed string in bytes.
pub fn calculate_length_ref(s: &String) -> (r: usize)
    ensures
        r == encode_utf8(s@).len(),
{
    s.as_str().as_bytes().len()
}

/// Appends ", world".
pub fn change(some_string: &mut String)
    ensures
        final(some_string)@ == old(some_string)@ + ", world"@,
{
    some_string.append(", world");
}

/// A new string holding "hello", returned by value rather than by a
/// reference to a local.
pub fn no_dangle() -> (r: String)
    ensures
        r@ == "hello"@,
{
    String::from_str("hello")
}

/// The byte index at which the first word of `s` ends.
pub fn first_word(s: &String) -> (r: usize)
    ensures
        is_word_end(encode_utf8(s@), r as int),
{
    let bytes = s.as_str().as_bytes();
    let mut i: usize = 0;
    while i < bytes.len()
        invariant
            i <= bytes@.len(),
            bytes@ == encode_utf8(s@),
            forall|j: int| 0 <= j < i ==> bytes@[j] != 32u8,
        decreases bytes@.len() - i,
    {
        if bytes[i] == 32u8 {
            return i;
        }
        i = i + 1;
    }
    i
}

/// The first word of `s`, borrowed from it.
pub fn first_word_modified(s: &String) -> (r: &str)
    ensures
        is_first_word(r@, s@),
{
    first_word_advanced(s.as_str())
}

/// The first word of `s`, borrowed from it.
pub fn first_word_advanced(s: &str) -> (r: &str)
    ensures
        is_first_word(r@, s@),
{
    let n = s.unicode_len();
    let mut chars = s.chars();
    let mut i: usize = 0;
    loop
        invariant
            n == s@.len(),
            i <= s@.len(),
            chars.remaining() == s@.subrange(i as int, s@.len() as int),
            forall|j: int| 0 <= j < i ==> s@[j] != ' ',
        decreases s@.len() - i,
    {
        let c = chars.next();
        match c {
            Some(ch) => {
                if ch == ' ' {
                    return s.substring_char(0, i);
                }
                i = i + 1;
            },
            None => {
                return s.substring_char(0, i);
            },
        }
    }
}

} // verus!
