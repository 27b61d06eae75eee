//! The AEAD facade: AES-256-GCM sealing and opening, delegated to an
//! outside implementation behind exact contracts. A sealed message is the
//! encrypted plaintext with the 16-byte authentication tag appended.

use vstd::prelude::*;
use aes_gcm::aead::{Aead, KeyInit};
use aes_gcm::{Aes256Gcm, Nonce};

verus! {

/// The byte length of the authentication tag appended to every ciphertext.
pub const TAG_LENGTH: usize = 16;

/// Sealing refuses a plaintext longer than this many bytes.
pub const SEAL_MAX_BYTES: u64 = 0x1000000000;

/// The AES-256-GCM sealing of the plaintext under the key and nonce: the
/// encrypted bytes with the authentication tag appended.
pub uninterp spec fn seal_of(key: Seq<u8>, nonce: Seq<u8>, plaintext: Seq<u8>) -> Seq<u8>;

/// What AES-256-GCM opening yields on the ciphertext under the key and
/// nonce: the sealed plaintext where the authentication tag verifies,
/// nothing otherwise.
pub uninterp spec fn open_of(key: Seq<u8>, nonce: Seq<u8>, ciphertext: Seq<u8>) -> Option<Seq<u8>>;

/// Relies on aes_gcm: Aes256Gcm::new_from_slice accepts every 32-byte key,
/// and Aead::encrypt seals the plaintext under key and nonce with no
/// associated data, a function of those three values alone, refusing only a
/// plaintext longer than `SEAL_MAX_BYTES`; opening inverts it.
#[verifier::external_body]
pub(crate) fn aead_seal(key: &[u8], nonce: &[u8], plaintext: &[u8]) -> (r: Option<Vec<u8>>)
    requires
        key@.len() == 32,
        nonce@.len() == 12,
    ensures
        r matches Some(ct) ==> ct@ == seal_of(key@, nonce@, plaintext@) && ct@.len()
            == plaintext@.len() + TAG_LENGTH && open_of(key@, nonce@, ct@) == Some(plaintext@),
        r is None ==> plaintext@.len() > SEAL_MAX_BYTES,
{
    let cipher = match Aes256Gcm::new_from_slice(key) {
        Ok(cipher) => cipher,
        Err(_) => return None,
    };
    cipher.encrypt(Nonce::from_slice(nonce), plaintext).ok()
}

/// Relies on aes_gcm: Aes256Gcm::new_from_slice accepts every 32-byte key,
/// and Aead::decrypt authenticates and decrypts under key and nonce with no
/// associated data, a function of those three values alone.
#[verifier::external_body]
pub(crate) fn aead_open(key: &[u8], nonce: &[u8], ciphertext: &[u8]) -> (r: Option<Vec<u8>>)
    requires
        key@.len() == 32,
        nonce@.len() == 12,
    ensures
        r matches Some(pt) ==> open_of(key@, nonce@, ciphertext@) == Some(pt@),
        r is None ==> open_of(key@, nonce@, ciphertext@) is None,
{
    let cipher = match Aes256Gcm::new_from_slice(key) {
        Ok(cipher) => cipher,
        Err(_) => return None,
    };
    cipher.decrypt(Nonce::from_slice(nonce), ciphertext).ok()
}

} // verus!
