//! Authenticated symmetric encryption (AES-256-GCM) behind a text boundary:
//! generate keys and nonces, encrypt UTF-8 plaintext, and decrypt it back,
//! with every binary value crossing the boundary as standard base64 text.

use vstd::prelude::*;

pub mod codec;
pub mod errors;
pub mod gcm;
mod random;

use vstd::utf8::{decode_utf8, encode_utf8, valid_utf8};

use crate::codec::{b64_decode_of, b64_encode_of, b64_encode, decode_fixed, decode_vec, utf8_string};
use crate::errors::CryptoError;
use crate::gcm::{aead_open, aead_seal, open_of, seal_of, SEAL_MAX_BYTES};
use crate::random::random_bytes;

verus! {

/// A key is exactly this many raw bytes.
pub const KEY_LENGTH: usize = 32;

/// A nonce is exactly this many raw bytes.
pub const NONCE_LENGTH: usize = 12;

/// The version identifier exported at the boundary.
pub fn version() -> (r: &'static str)
    ensures
        r@ == "0.1.0"@,
{
    "0.1.0"
}

/// A fresh 32-byte key from the secure random source, as base64 text.
pub fn generate_key() -> (r: String)
    ensures
        b64_decode_of(r@) matches Some(key) && key.len() == KEY_LENGTH,
{
    let key = random_bytes(KEY_LENGTH);
    b64_encode(key.as_slice())
}

/// A fresh 12-byte nonce from the secure random source, as base64 text.
pub fn generate_nonce() -> (r: String)
    ensures
        b64_decode_of(r@) matches Some(nonce) && nonce.len() == NONCE_LENGTH,
{
    let nonce = random_bytes(NONCE_LENGTH);
    b64_encode(nonce.as_slice())
}

/// Encrypt the UTF-8 `plaintext` under the base64 `key_b64`, with the
/// supplied base64 nonce, or with a freshly generated one where none is
/// given. Returns the base64 ciphertext-with-tag together with the base64 of
/// the nonce actually used, so a caller can keep the nonce beside the
/// ciphertext even when it was generated here.
pub fn encrypt(plaintext: &str, key_b64: &str, nonce_b64: Option<&str>) -> (r: Result<
    (String, String),
    CryptoError,
>)
    ensures
        r matches Ok(out) ==> ({
            let key = b64_decode_of(key_b64@)->Some_0;
            let nonce = b64_decode_of(out.1@)->Some_0;
            &&& b64_decode_of(key_b64@) is Some && key.len() == KEY_LENGTH
            &&& b64_decode_of(out.1@) is Some && nonce.len() == NONCE_LENGTH
            &&& out.1@ == b64_encode_of(nonce)
            &&& b64_decode_of(out.0@) == Some(seal_of(key, nonce, encode_utf8(plaintext@)))
            &&& open_of(key, nonce, seal_of(key, nonce, encode_utf8(plaintext@))) == Some(
                encode_utf8(plaintext@),
            )
            &&& nonce_b64 matches Some(supplied) ==> out.1@ == supplied@
        }),
        b64_decode_of(key_b64@) is None ==> (r matches Err(CryptoError::InvalidEncoding { field })
            && field@ == "key"@),
        b64_decode_of(key_b64@) matches Some(key) && key.len() != KEY_LENGTH ==> (r matches Err(
            CryptoError::LengthMismatch { field, expected, actual },
        ) && field@ == "key"@ && expected == KEY_LENGTH && actual == b64_decode_of(
            key_b64@,
        )->Some_0.len()),
        b64_decode_of(key_b64@) is Some && b64_decode_of(key_b64@)->Some_0.len() == KEY_LENGTH
            && nonce_b64 is Some && b64_decode_of(nonce_b64->Some_0@) is None ==> (r matches Err(
            CryptoError::InvalidEncoding { field },
        ) && field@ == "nonce"@),
        b64_decode_of(key_b64@) is Some && b64_decode_of(key_b64@)->Some_0.len() == KEY_LENGTH
            && nonce_b64 is Some && b64_decode_of(nonce_b64->Some_0@) is Some && b64_decode_of(
            nonce_b64->Some_0@,
        )->Some_0.len() != NONCE_LENGTH ==> (r matches Err(CryptoError::LengthMismatch {
            field,
            expected,
            actual,
        }) && field@ == "nonce"@ && expected == NONCE_LENGTH && actual == b64_decode_of(
            nonce_b64->Some_0@,
        )->Some_0.len()),
        r matches Err(e) && e is EncryptionFailed ==> encode_utf8(plaintext@).len()
            > SEAL_MAX_BYTES,
        r matches Err(e) ==> !(e is DecryptionFailed) && !(e is NotUtf8),
        b64_decode_of(key_b64@) matches Some(key) && key.len() == KEY_LENGTH && (nonce_b64 matches
            Some(supplied) ==> b64_decode_of(supplied@) matches Some(nonce) && nonce.len()
            == NONCE_LENGTH) && encode_utf8(plaintext@).len() <= SEAL_MAX_BYTES ==> r is Ok,
{
    let key = match decode_fixed("key", key_b64, KEY_LENGTH) {
        Ok(key) => key,
        Err(e) => return Err(e),
    };
    let nonce_bytes = match nonce_b64 {
        Some(value) => match decode_fixed("nonce", value, NONCE_LENGTH) {
            Ok(nonce) => nonce,
            Err(e) => return Err(e),
        },
        None => random_bytes(NONCE_LENGTH),
    };
    let sealed = match aead_seal(key.as_slice(), nonce_bytes.as_slice(), plaintext.as_bytes()) {
        Some(ciphertext) => ciphertext,
        None => return Err(CryptoError::EncryptionFailed),
    };
    let ciphertext_b64 = b64_encode(sealed.as_slice());
    let nonce_b64_out = b64_encode(nonce_bytes.as_slice());
    Ok((ciphertext_b64, nonce_b64_out))
}

/// The round-trip law: encrypting a plaintext under a key and a fresh
/// nonce, then decrypting the reported ciphertext under the same key and
/// the reported nonce, yields the plaintext again — and is owed to succeed
/// whenever the key is valid base64 of `KEY_LENGTH` bytes and the plaintext
/// is not longer than sealing accepts.
pub fn round_trip(plaintext: &str, key_b64: &str) -> (r: Option<String>)
    ensures
        r matches Some(recovered) ==> recovered@ == plaintext@,
        b64_decode_of(key_b64@) is Some && b64_decode_of(key_b64@)->Some_0.len() == KEY_LENGTH
            && encode_utf8(plaintext@).len() <= SEAL_MAX_BYTES ==> r is Some,
{
    let out = match encrypt(plaintext, key_b64, None) {
        Ok(out) => out,
        Err(_) => return None,
    };
    proof {
        vstd::utf8::encode_utf8_valid_utf8(plaintext@);
        vstd::utf8::encode_utf8_decode_utf8(plaintext@);
    }
    match decrypt(out.0.as_str(), key_b64, out.1.as_str()) {
        Ok(recovered) => Some(recovered),
        Err(_) => None,
    }
}

/// Decrypt the base64 `ciphertext_b64` under the base64 key and nonce, and
/// return the recovered plaintext as UTF-8 text. Authentication failure is
/// reported as one undifferentiated error, never as a wrong plaintext.
pub fn decrypt(ciphertext_b64: &str, key_b64: &str, nonce_b64: &str) -> (r: Result<
    String,
    CryptoError,
>)
    ensures
        ({
            let kd = b64_decode_of(key_b64@);
            let nd = b64_decode_of(nonce_b64@);
            let cd = b64_decode_of(ciphertext_b64@);
            &&& kd is None ==> (r matches Err(CryptoError::InvalidEncoding { field }) && field@
                == "key"@)
            &&& kd is Some && kd->Some_0.len() != KEY_LENGTH ==> (r matches Err(
                CryptoError::LengthMismatch { field, expected, actual },
            ) && field@ == "key"@ && expected == KEY_LENGTH && actual == kd->Some_0.len())
            &&& kd is Some && kd->Some_0.len() == KEY_LENGTH && nd is None ==> (r matches Err(
                CryptoError::InvalidEncoding { field },
            ) && field@ == "nonce"@)
            &&& kd is Some && kd->Some_0.len() == KEY_LENGTH && nd is Some && nd->Some_0.len()
                != NONCE_LENGTH ==> (r matches Err(CryptoError::LengthMismatch {
                field,
                expected,
                actual,
            }) && field@ == "nonce"@ && expected == NONCE_LENGTH && actual == nd->Some_0.len())
            &&& kd is Some && kd->Some_0.len() == KEY_LENGTH && nd is Some && nd->Some_0.len()
                == NONCE_LENGTH && cd is None ==> (r matches Err(CryptoError::InvalidEncoding {
                field,
            }) && field@ == "ciphertext"@)
            &&& kd is Some && kd->Some_0.len() == KEY_LENGTH && nd is Some && nd->Some_0.len()
                == NONCE_LENGTH && cd is Some ==> ({
                let opened = open_of(kd->Some_0, nd->Some_0, cd->Some_0);
                &&& opened is None ==> (r matches Err(CryptoError::DecryptionFailed))
                &&& opened is Some && valid_utf8(opened->Some_0) ==> (r is Ok && r->Ok_0@
                    == decode_utf8(opened->Some_0))
                &&& opened is Some && !valid_utf8(opened->Some_0) ==> (r matches Err(
                    CryptoError::NotUtf8,
                ))
            })
        }),
{
    let key = match decode_fixed("key", key_b64, KEY_LENGTH) {
        Ok(key) => key,
        Err(e) => return Err(e),
    };
    let nonce = match decode_fixed("nonce", nonce_b64, NONCE_LENGTH) {
        Ok(nonce) => nonce,
        Err(e) => return Err(e),
    };
    let ciphertext = match decode_vec("ciphertext", ciphertext_b64) {
        Ok(ciphertext) => ciphertext,
        Err(e) => return Err(e),
    };
    let opened = match aead_open(key.as_slice(), nonce.as_slice(), ciphertext.as_slice()) {
        Some(plaintext) => plaintext,
        None => return Err(CryptoError::DecryptionFailed),
    };
    match utf8_string(opened) {
        Some(plaintext) => Ok(plaintext),
        None => Err(CryptoError::NotUtf8),
    }
}

} // verus!
