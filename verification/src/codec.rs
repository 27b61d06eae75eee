//! Text codecs at the boundary: standard base64 for binary values, and UTF-8
//! for recovered plaintext. Decoding validates, and for fixed-size fields the
//! byte count is checked exactly.

use vstd::prelude::*;
use vstd::utf8::{decode_utf8, valid_utf8};
use base64::Engine;

use crate::errors::CryptoError;

verus! {

/// The standard padded base64 text of the given bytes.
pub uninterp spec fn b64_encode_of(bytes: Seq<u8>) -> Seq<char>;

/// What standard padded base64 decoding yields on the given text: the encoded
/// bytes where the text is a canonical encoding, nothing otherwise.
pub uninterp spec fn b64_decode_of(text: Seq<char>) -> Option<Seq<u8>>;

/// Relies on base64::Engine::encode with the STANDARD engine: the padded
/// RFC 4648 text of the bytes, four characters per three-byte block, a
/// function of the bytes alone; STANDARD decoding inverts it.
#[verifier::external_body]
pub(crate) fn b64_encode(bytes: &[u8]) -> (r: String)
    ensures
        r@ == b64_encode_of(bytes@),
        b64_decode_of(r@) == Some(bytes@),
        r@.len() == 4 * ((bytes@.len() + 2) / 3),
{
    base64::engine::general_purpose::STANDARD.encode(bytes)
}

/// Relies on base64::Engine::decode with the STANDARD engine: it accepts
/// exactly the canonical padded encodings (padding required, no trailing
/// bits) and returns the bytes they encode.
#[verifier::external_body]
pub(crate) fn b64_decode(text: &str) -> (r: Option<Vec<u8>>)
    ensures
        r matches Some(v) ==> b64_decode_of(text@) == Some(v@) && text@ == b64_encode_of(v@),
        r is None ==> b64_decode_of(text@) is None,
{
    base64::engine::general_purpose::STANDARD.decode(text).ok()
}

/// Relies on String::from_utf8: it succeeds exactly on valid UTF-8 and
/// returns the text those bytes encode.
#[verifier::external_body]
pub(crate) fn utf8_string(bytes: Vec<u8>) -> (r: Option<String>)
    ensures
        r matches Some(s) ==> valid_utf8(bytes@) && s@ == decode_utf8(bytes@),
        r is None ==> !valid_utf8(bytes@),
{
    String::from_utf8(bytes).ok()
}

/// Decode the base64 `value` into exactly `expected` bytes, reporting any
/// failure under the `label` of the field being decoded.
pub fn decode_fixed(label: &str, value: &str, expected: usize) -> (r: Result<Vec<u8>, CryptoError>)
    ensures
        r matches Ok(v) ==> b64_decode_of(value@) == Some(v@) && v@.len() == expected && value@
            == b64_encode_of(v@),
        b64_decode_of(value@) matches Some(b) && b.len() == expected ==> r is Ok,
        b64_decode_of(value@) is None ==> (r matches Err(CryptoError::InvalidEncoding { field })
            && field@ == label@),
        b64_decode_of(value@) matches Some(b) && b.len() != expected ==> (r matches Err(
            CryptoError::LengthMismatch { field, expected: e, actual: a },
        ) && field@ == label@ && e == expected && a == b64_decode_of(value@)->Some_0.len()),
{
    match b64_decode(value) {
        None => Err(CryptoError::InvalidEncoding { field: label.to_owned() }),
        Some(decoded) => {
            if decoded.len() == expected {
                Ok(decoded)
            } else {
                let actual: usize = decoded.len();
                Err(CryptoError::LengthMismatch { field: label.to_owned(), expected, actual })
            }
        },
    }
}

/// Decode the base64 `value` into bytes of any length, reporting a failure
/// under the `label` of the field being decoded.
pub fn decode_vec(label: &str, value: &str) -> (r: Result<Vec<u8>, CryptoError>)
    ensures
        r matches Ok(v) ==> b64_decode_of(value@) == Some(v@) && value@ == b64_encode_of(v@),
        b64_decode_of(value@) matches Some(b) ==> r matches Ok(v) && v@ == b,
        b64_decode_of(value@) is None ==> (r matches Err(CryptoError::InvalidEncoding { field })
            && field@ == label@),
{
    match b64_decode(value) {
        None => Err(CryptoError::InvalidEncoding { field: label.to_owned() }),
        Some(decoded) => Ok(decoded),
    }
}

} // verus!
