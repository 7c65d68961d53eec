//! Magic-signature validation for downloaded image bytes.
//!
//! A GIF file begins with one of the two six-byte signatures `GIF87a` or
//! `GIF89a`; anything else is rejected before any staging or clipboard step.

use vstd::prelude::*;

verus! {

/// The six signature bytes of the 87a flavour, `GIF87a`.
pub open spec fn gif87a_magic() -> Seq<u8> {
    seq![71u8, 73u8, 70u8, 56u8, 55u8, 97u8]
}

/// The six signature bytes of the 89a flavour, `GIF89a`.
pub open spec fn gif89a_magic() -> Seq<u8> {
    seq![71u8, 73u8, 70u8, 56u8, 57u8, 97u8]
}

/// A byte sequence passes validation exactly when it starts with one of the
/// two recognized GIF signatures.
pub open spec fn is_gif(b: Seq<u8>) -> bool {
    b.len() >= 6 && (b.subrange(0, 6) == gif87a_magic() || b.subrange(0, 6) == gif89a_magic())
}

/// Decides whether the downloaded bytes begin with a recognized GIF
/// signature.
pub fn validate_gif(bytes: &Vec<u8>) -> (r: bool)
    ensures
        r == is_gif(bytes@),
{
    if bytes.len() < 6 {
        return false;
    }
    let prefix_87 = bytes[0] == 71 && bytes[1] == 73 && bytes[2] == 70 && bytes[3] == 56
        && bytes[4] == 55 && bytes[5] == 97;
    let prefix_89 = bytes[0] == 71 && bytes[1] == 73 && bytes[2] == 70 && bytes[3] == 56
        && bytes[4] == 57 && bytes[5] == 97;
    proof {
        let p = bytes@.subrange(0, 6);
        assert(p[0] == bytes@[0] && p[1] == bytes@[1] && p[2] == bytes@[2] && p[3] == bytes@[3]
            && p[4] == bytes@[4] && p[5] == bytes@[5]);
        if prefix_87 {
            assert(p =~= gif87a_magic());
        }
        if prefix_89 {
            assert(p =~= gif89a_magic());
        }
    }
    prefix_87 || prefix_89
}

} // verus!
