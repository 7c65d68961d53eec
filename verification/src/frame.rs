//! The framing codec: a 4-byte length prefix in the platform's native byte
//! order, followed by exactly that many payload bytes.
//!
//! The peer speaks native, not network, byte order; that is a hard
//! requirement of the messaging channel.  The native representation of a
//! length is taken on trust from the standard library and named
//! [`native_bytes_of`]; everything layered on it is verified.

use crate::errors::HostError;
use vstd::prelude::*;
use vstd::string::*;

verus! {

/// The 4-byte native-byte-order representation of a 32-bit length, as
/// `u32::to_ne_bytes` produces it.  For a given target this is a fixed
/// function of the value; which of the two byte orders it is stays
/// unspecified here.
pub uninterp spec fn native_bytes_of(n: u32) -> Seq<u8>;

/// Relies on `u32::to_ne_bytes`: it returns the four bytes of the value in
/// the target's native byte order, a fixed function of the value.
#[verifier::external_body]
fn u32_to_native_bytes(n: u32) -> (r: Vec<u8>)
    ensures
        r@ == native_bytes_of(n),
        r@.len() == 4,
{
    n.to_ne_bytes().to_vec()
}

/// Relies on `u32::from_ne_bytes`: it is the inverse of `u32::to_ne_bytes`,
/// so it returns the one value whose native representation is these four
/// bytes.
#[verifier::external_body]
fn u32_from_native_bytes(b0: u8, b1: u8, b2: u8, b3: u8) -> (r: u32)
    ensures
        native_bytes_of(r) == seq![b0, b1, b2, b3],
        forall|y: u32| #[trigger] native_bytes_of(y) == seq![b0, b1, b2, b3] ==> y == r,
{
    u32::from_ne_bytes([b0, b1, b2, b3])
}

/// `input` begins with a complete frame whose payload is `p`: a native-order
/// length prefix of `p`'s length, then `p` itself.  Bytes after the frame are
/// tolerated, as a stream reader would leave them unread.
pub open spec fn frame_ok(input: Seq<u8>, p: Seq<u8>) -> bool {
    &&& input.len() >= 4 + p.len()
    &&& p.len() <= u32::MAX
    &&& input.subrange(0, 4) == native_bytes_of(p.len() as u32)
    &&& p == input.subrange(4, 4 + p.len() as int)
    &&& forall|y: u32| #[trigger] native_bytes_of(y) == input.subrange(0, 4) ==> y == p.len()
}

/// No complete frame starts `input`: it is shorter than a prefix, or shorter
/// than the length its prefix declares.
pub open spec fn frame_truncated(input: Seq<u8>) -> bool {
    ||| input.len() < 4
    ||| forall|y: u32| #[trigger] native_bytes_of(y) == input.subrange(0, 4) ==> input.len() < 4
        + y
}

/// Prepends the native-order length prefix to a payload.  Returns `None`
/// only when the payload cannot be described by a 32-bit length.
pub fn encode_frame(payload: &Vec<u8>) -> (r: Option<Vec<u8>>)
    ensures
        match r {
            Some(out) => payload@.len() <= u32::MAX && out@ == native_bytes_of(
                payload@.len() as u32,
            ) + payload@ && native_bytes_of(payload@.len() as u32).len() == 4,
            None => payload@.len() > u32::MAX,
        },
{
    if payload.len() > u32::MAX as usize {
        return None;
    }
    let mut out = u32_to_native_bytes(payload.len() as u32);
    let mut i: usize = 0;
    while i < payload.len()
        invariant
            i <= payload.len(),
            payload@.len() <= u32::MAX,
            out@ == native_bytes_of(payload@.len() as u32) + payload@.subrange(0, i as int),
        decreases payload.len() - i,
    {
        out.push(payload[i]);
        i = i + 1;
        proof {
            assert(out@ == native_bytes_of(payload@.len() as u32) + payload@.subrange(
                0,
                i as int,
            )) by {
                assert(payload@.subrange(0, i as int) == payload@.subrange(0, i - 1).push(
                    payload@[i - 1],
                ));
            }
        }
    }
    proof {
        assert(payload@.subrange(0, payload@.len() as int) == payload@);
    }
    Some(out)
}

/// Reads one frame from the start of `input` and returns its payload.
/// Fails exactly when no complete frame is there: the stream is truncated.
pub fn decode_frame(input: &Vec<u8>) -> (r: Result<Vec<u8>, HostError>)
    ensures
        match r {
            Ok(p) => frame_ok(input@, p@),
            Err(e) => e is Io && frame_truncated(input@),
        },
{
    if input.len() < 4 {
        return Err(HostError::Io { detail: truncated_text() });
    }
    let n = u32_from_native_bytes(input[0], input[1], input[2], input[3]);
    proof {
        assert(seq![input@[0], input@[1], input@[2], input@[3]] == input@.subrange(0, 4));
    }
    let n_usize = n as usize;
    if input.len() - 4 < n_usize {
        return Err(HostError::Io { detail: truncated_text() });
    }
    let mut p: Vec<u8> = Vec::new();
    let mut i: usize = 0;
    while i < n_usize
        invariant
            i <= n_usize,
            n_usize == n,
            n_usize <= usize::MAX - 4,
            input@.len() >= 4 + n_usize,
            p@ == input@.subrange(4, 4 + i as int),
        decreases n_usize - i,
    {
        p.push(input[4 + i]);
        i = i + 1;
        proof {
            assert(p@ == input@.subrange(4, 4 + i as int)) by {
                assert(input@.subrange(4, 4 + i as int) == input@.subrange(4, 4 + (i - 1)).push(
                    input@[4 + (i - 1)],
                ));
            }
        }
    }
    Ok(p)
}

/// The diagnostic carried by a truncated-stream failure.
fn truncated_text() -> (r: String)
    ensures
        r@ == "unexpected end of input stream"@,
{
    String::from_str("unexpected end of input stream")
}

} // verus!
