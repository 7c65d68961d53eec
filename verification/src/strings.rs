//! Trusted conversions between byte buffers, strings and character vectors.
//!
//! The codec works on `Vec<u8>` and `Vec<char>`, whose contents Verus can
//! reason about directly; these thin wrappers move values between those
//! shapes and `String`.  Their contracts are stated over vstd's model of
//! UTF-8 (`encode_utf8`, `decode_utf8`, `valid_utf8`).

use vstd::prelude::*;
use vstd::utf8::*;

verus! {

/// Relies on `String::from_utf8`: it returns `Ok` exactly on valid UTF-8
/// input, and the returned string's encoding is the input (its documentation
/// names `into_bytes` as its inverse).
#[verifier::external_body]
pub fn string_from_utf8(v: Vec<u8>) -> (r: Option<String>)
    ensures
        match r {
            Some(s) => valid_utf8(v@) && s@ == decode_utf8(v@) && encode_utf8(s@) == v@,
            None => !valid_utf8(v@),
        },
{
    String::from_utf8(v).ok()
}

/// Relies on `str::chars`: the iterator yields the characters of the string
/// in order, so collecting it gives the same character sequence.
#[verifier::external_body]
pub fn string_to_chars(s: &str) -> (r: Vec<char>)
    ensures
        r@ == s@,
{
    s.chars().collect()
}

/// Relies on `FromIterator for String`: collecting characters builds the
/// string with exactly those characters in order.
#[verifier::external_body]
pub fn chars_to_string(v: &Vec<char>) -> (r: String)
    ensures
        r@ == v@,
{
    v.iter().collect()
}

} // verus!
