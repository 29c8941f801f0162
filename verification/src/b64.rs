//! Trusted boundary to the base64 crate.
//!
//! Client audio arrives and leaves as base64 text inside JSON strings. The
//! two wrappers below call base64's standard engine; their contracts name the
//! encoding `b64_of` and state the canonical round trip, which is what the
//! callers' proofs rest on.

use vstd::prelude::*;
use base64::Engine;

verus! {

/// The base64 text (standard alphabet, padded) that encodes `bytes`.
pub uninterp spec fn b64_of(bytes: Seq<u8>) -> Seq<u8>;

/// The bytes the decoder returns for a text it accepts.
pub uninterp spec fn b64_decode_of(text: Seq<u8>) -> Seq<u8>;

/// Relies on base64's `STANDARD` engine. Encoding is a function of the input
/// bytes alone; it writes four text bytes for every three input bytes,
/// rounded up, and an empty input gives empty text.
#[verifier::external_body]
pub fn b64_encode(bytes: &[u8]) -> (r: Vec<u8>)
    ensures
        r@ == b64_of(bytes@),
        r@.len() == ((bytes@.len() + 2) / 3) * 4,
        b64_decode_of(r@) == bytes@,
{
    base64::engine::general_purpose::STANDARD.encode(bytes).into_bytes()
}

/// Relies on base64's `STANDARD` engine, whose decoder accepts exactly the
/// canonical encodings: padding is required to be canonical and stray
/// trailing bits are refused, so a text decodes precisely when it is
/// `b64_of` of some byte sequence, and then to those bytes — which number
/// three for every four text bytes, so no more than the text itself.
#[verifier::external_body]
pub fn b64_decode(text: &[u8]) -> (r: Option<Vec<u8>>)
    ensures
        r matches Some(d) ==> d@ == b64_decode_of(text@) && b64_of(d@) == text@ && d@.len()
            <= text@.len(),
        (exists|x: Seq<u8>| b64_of(x) == text@) ==> r is Some,
{
    base64::engine::general_purpose::STANDARD.decode(text).ok()
}

} // verus!
