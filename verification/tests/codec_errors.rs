use base64::Engine;

use encryption_rust::codec::{decode_fixed, decode_vec};
use encryption_rust::errors::CryptoError;

fn b64(bytes: &[u8]) -> String {
    base64::engine::general_purpose::STANDARD.encode(bytes)
}

#[test]
fn decode_fixed_accepts_exact_length() {
    let text = b64(&[1u8, 2, 3, 4]);
    assert_eq!(decode_fixed("key", &text, 4).unwrap(), vec![1u8, 2, 3, 4]);
}

#[test]
fn decode_fixed_rejects_wrong_length() {
    let text = b64(&[1u8, 2, 3]);
    let err = decode_fixed("nonce", &text, 4).unwrap_err();
    assert_eq!(
        err,
        CryptoError::LengthMismatch { field: String::from("nonce"), expected: 4, actual: 3 }
    );
    assert_eq!(err.message(), "nonce must decode to 4 bytes, got 3");
}

#[test]
fn decode_fixed_rejects_bad_base64() {
    let err = decode_fixed("key", "***", 4).unwrap_err();
    assert_eq!(err, CryptoError::InvalidEncoding { field: String::from("key") });
}

#[test]
fn decode_fixed_empty_string_decodes_to_zero_bytes() {
    let err = decode_fixed("key", "", 32).unwrap_err();
    assert_eq!(
        err,
        CryptoError::LengthMismatch { field: String::from("key"), expected: 32, actual: 0 }
    );
    assert_eq!(err.message(), "key must decode to 32 bytes, got 0");
}

#[test]
fn decode_fixed_rejects_non_canonical_padding() {
    assert!(decode_fixed("key", "AQID", 3).is_ok());
    let err = decode_fixed("key", "AQID=", 3).unwrap_err();
    assert_eq!(err, CryptoError::InvalidEncoding { field: String::from("key") });
}

#[test]
fn decode_fixed_rejects_nonzero_trailing_bits() {
    assert_eq!(decode_fixed("key", "AQI=", 2).unwrap(), vec![1u8, 2]);
    let err = decode_fixed("key", "AQJ=", 2).unwrap_err();
    assert_eq!(err, CryptoError::InvalidEncoding { field: String::from("key") });
}

#[test]
fn decode_vec_accepts_any_length() {
    let text = b64(&[9u8; 29]);
    assert_eq!(decode_vec("ciphertext", &text).unwrap(), vec![9u8; 29]);
    assert_eq!(decode_vec("ciphertext", "").unwrap(), Vec::<u8>::new());
}

#[test]
fn decode_vec_rejects_bad_base64() {
    let err = decode_vec("ciphertext", "not-base64!!").unwrap_err();
    assert_eq!(err, CryptoError::InvalidEncoding { field: String::from("ciphertext") });
}

#[test]
fn messages_for_plain_failures() {
    assert_eq!(CryptoError::EncryptionFailed.message(), "encryption failed");
    assert_eq!(CryptoError::DecryptionFailed.message(), "decryption failed");
    assert_eq!(CryptoError::NotUtf8.message(), "plaintext is not valid UTF-8");
}

#[test]
fn length_mismatch_message_formats_large_counts() {
    let err = CryptoError::LengthMismatch {
        field: String::from("key"),
        expected: 32,
        actual: 1047,
    };
    assert_eq!(err.message(), "key must decode to 32 bytes, got 1047");
}
