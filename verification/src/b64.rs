//! Base64 encoding and decoding of frame record bodies.
//!
//! The conversion itself is done by the `base64` crate (standard alphabet,
//! with padding); this module gives its results names and states the few
//! facts about them that the frame codec relies on.

use vstd::prelude::*;

use base64::Engine;

verus! {

/// The base64 text (as ASCII bytes) that the standard padded alphabet
/// assigns to a byte sequence.
pub uninterp spec fn b64_encoding(data: Seq<u8>) -> Seq<u8>;

/// True of the bytes that can appear in standard padded base64 text:
/// `A`-`Z`, `a`-`z`, `0`-`9`, `+`, `/` and the pad `=`.
pub open spec fn is_base64_byte(b: u8) -> bool {
    (65 <= b <= 90) || (97 <= b <= 122) || (48 <= b <= 57) || b == 43 || b == 47 || b == 61
}

/// Relies on `base64::engine::Engine::encode` with the `STANDARD` engine:
/// standard alphabet with padding, so the output is 4 characters for every
/// started group of 3 input bytes, and every output byte is in the alphabet
/// or the pad character.
#[verifier::external_body]
pub(crate) fn b64_encode(data: &[u8]) -> (r: Vec<u8>)
    ensures
        r@ == b64_encoding(data@),
        r@.len() == 4 * ((data@.len() + 2) / 3),
        forall|i: int| 0 <= i < r@.len() ==> is_base64_byte(#[trigger] r@[i]),
{
    base64::engine::general_purpose::STANDARD.encode(data).into_bytes()
}

/// Relies on `base64::engine::Engine::decode` with the `STANDARD` engine:
/// decoding inverts encoding, so on the exact text that `encode` produces for
/// some byte sequence it succeeds and returns that sequence.
#[verifier::external_body]
pub(crate) fn b64_decode(data: &[u8]) -> (r: Option<Vec<u8>>)
    ensures
        forall|d: Seq<u8>| #[trigger] b64_encoding(d) == data@ ==> r is Some && r->0@ == d,
{
    base64::engine::general_purpose::STANDARD.decode(data).ok()
}

} // verus!
