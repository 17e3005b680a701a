//! Verified character-level helpers for the marker matching that the parser
//! units perform: equality, prefix tests and suffix extraction, all specified
//! over the `Seq<char>` view of a `&str`.

use vstd::prelude::*;
use vstd::utf8::{decode_utf8, valid_utf8};

verus! {

/// Relies on core's `str::from_utf8`: it succeeds exactly on byte
/// sequences that are valid UTF-8, and then yields the decoded text.
#[verifier::external_body]
pub(crate) fn bytes_to_utf8(input: &[u8]) -> (r: Option<&str>)
    ensures
        r is Some <==> valid_utf8(input@),
        (match r {
            Some(s) => s@ == decode_utf8(input@),
            None => true,
        }),
{
    core::str::from_utf8(input).ok()
}

/// `m` is a prefix of `i`, character by character.
pub open spec fn starts_with_chars(i: Seq<char>, m: Seq<char>) -> bool {
    m.len() <= i.len() && i.subrange(0, m.len() as int) == m
}

/// The characters of `i` that follow a prefix of length `n`.
pub open spec fn suffix_chars(i: Seq<char>, n: int) -> Seq<char> {
    i.subrange(n, i.len() as int)
}

/// Character-for-character equality of two string slices.
pub fn str_eq(a: &str, b: &str) -> (r: bool)
    ensures
        r == (a@ == b@),
{
    let la = a.unicode_len();
    let lb = b.unicode_len();
    if la != lb {
        return false;
    }
    let mut k: usize = 0;
    while k < la
        invariant
            la == a@.len(),
            la == b@.len(),
            k <= la,
            forall|j: int| 0 <= j < k ==> a@[j] == b@[j],
        decreases la - k,
    {
        if a.get_char(k) != b.get_char(k) {
            return false;
        }
        k += 1;
    }
    proof {
        assert(a@ =~= b@);
    }
    true
}

/// Does `i` start with the marker `m`?
pub fn str_starts_with(i: &str, m: &str) -> (r: bool)
    ensures
        r == starts_with_chars(i@, m@),
{
    let li = i.unicode_len();
    let lm = m.unicode_len();
    if lm > li {
        return false;
    }
    let mut k: usize = 0;
    while k < lm
        invariant
            li == i@.len(),
            lm == m@.len(),
            lm <= li,
            k <= lm,
            forall|j: int| 0 <= j < k ==> i@[j] == m@[j],
        decreases lm - k,
    {
        if i.get_char(k) != m.get_char(k) {
            proof {
                assert(i@.subrange(0, lm as int)[k as int] != m@[k as int]);
            }
            return false;
        }
        k += 1;
    }
    proof {
        assert(i@.subrange(0, lm as int) =~= m@);
    }
    true
}

/// The owned suffix of `i` that starts at character position `from`.
pub fn str_suffix_from(i: &str, from: usize) -> (r: String)
    requires
        from as nat <= i@.len(),
    ensures
        r@ == suffix_chars(i@, from as int),
{
    let li = i.unicode_len();
    let tail = i.substring_char(from, li);
    tail.to_owned()
}

} // verus!
