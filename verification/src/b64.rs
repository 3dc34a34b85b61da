use vstd::prelude::*;
use base64::Engine;

verus! {

/// The URL-safe, unpadded base64 encoding of a byte sequence, as produced by
/// base64's `URL_SAFE_NO_PAD` engine.
pub uninterp spec fn b64_of(b: Seq<u8>) -> Seq<char>;

/// Relies on base64's `Engine::encode` with the `URL_SAFE_NO_PAD` engine:
/// the encoding is a function of the input bytes alone, and the unpadded
/// encoding of `n` bytes is exactly `(4 * n + 2) / 3` characters long.
#[verifier::external_body]
pub fn b64_encode(b: &[u8]) -> (r: String)
    ensures
        r@ == b64_of(b@),
        r@.len() == (b@.len() * 4 + 2) / 3,
{
    base64::engine::general_purpose::URL_SAFE_NO_PAD.encode(b)
}

/// Relies on base64's `Engine::decode` with the `URL_SAFE_NO_PAD` engine.
/// That engine rejects padding and non-zero trailing bits, so it accepts
/// exactly the canonical unpadded encodings: decoding succeeds if and only
/// if the input is the encoding of some byte sequence, and then returns
/// those bytes.
#[verifier::external_body]
pub fn b64_decode(s: &str) -> (r: Option<Vec<u8>>)
    ensures
        r matches Some(b) ==> b64_of(b@) == s@ && s@.len() == (b@.len() * 4 + 2) / 3 && b@.len()
            == s@.len() * 3 / 4,
        r matches Some(b) ==> forall|b2: Seq<u8>| b64_of(b2) == s@ ==> b2 == b@,
        r is None ==> forall|b: Seq<u8>| b64_of(b) != s@,
{
    match base64::engine::general_purpose::URL_SAFE_NO_PAD.decode(s.as_bytes()) {
        Ok(v) => Some(v),
        Err(_) => None,
    }
}

} // verus!
