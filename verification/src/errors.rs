//! The failure conditions of the library, and the text each one reports.

use vstd::prelude::*;
use vstd::string::StringExecFns;

verus! {

/// Everything that can go wrong in an operation, with the data that the
/// boundary message reports: which field was bad, and for length failures
/// the expected and the actual byte count.
#[derive(Debug, PartialEq, Eq)]
pub enum CryptoError {
    /// The named field held text that is not standard base64.
    InvalidEncoding { field: String },
    /// The named field decoded, but not to the required byte count.
    LengthMismatch { field: String, expected: usize, actual: usize },
    /// The AEAD seal operation refused the input.
    EncryptionFailed,
    /// The AEAD open operation failed: wrong key, wrong nonce, or a
    /// tampered or truncated ciphertext. Deliberately undifferentiated.
    DecryptionFailed,
    /// The recovered plaintext bytes are not valid UTF-8.
    NotUtf8,
}

/// The character for a single decimal digit.
pub open spec fn dec_digit(d: nat) -> char {
    if d == 0 {
        '0'
    } else if d == 1 {
        '1'
    } else if d == 2 {
        '2'
    } else if d == 3 {
        '3'
    } else if d == 4 {
        '4'
    } else if d == 5 {
        '5'
    } else if d == 6 {
        '6'
    } else if d == 7 {
        '7'
    } else if d == 8 {
        '8'
    } else {
        '9'
    }
}

/// The decimal digits of `n`, most significant first, without leading zeros
/// (a single zero for `n == 0`).
pub open spec fn dec_of(n: nat) -> Seq<char>
    decreases n,
{
    if n < 10 {
        seq![dec_digit(n)]
    } else {
        dec_of(n / 10).push(dec_digit(n % 10))
    }
}

/// A one-character string for a single decimal digit.
fn digit_str(d: usize) -> (r: &'static str)
    requires
        d < 10,
    ensures
        r@ == seq![dec_digit(d as nat)],
{
    proof {
        reveal_strlit("0");
        reveal_strlit("1");
        reveal_strlit("2");
        reveal_strlit("3");
        reveal_strlit("4");
        reveal_strlit("5");
        reveal_strlit("6");
        reveal_strlit("7");
        reveal_strlit("8");
        reveal_strlit("9");
    }
    let r: &'static str = if d == 0 {
        "0"
    } else if d == 1 {
        "1"
    } else if d == 2 {
        "2"
    } else if d == 3 {
        "3"
    } else if d == 4 {
        "4"
    } else if d == 5 {
        "5"
    } else if d == 6 {
        "6"
    } else if d == 7 {
        "7"
    } else if d == 8 {
        "8"
    } else {
        "9"
    };
    proof {
        assert(r@ =~= seq![dec_digit(d as nat)]);
    }
    r
}

/// Append the decimal digits of `n` to `s`.
fn push_decimal(s: &mut String, n: usize)
    ensures
        final(s)@ == old(s)@ + dec_of(n as nat),
    decreases n,
{
    if n >= 10 {
        push_decimal(s, n / 10);
    }
    s.append(digit_str(n % 10));
    proof {
        assert(final(s)@ =~= old(s)@ + dec_of(n as nat));
    }
}

impl CryptoError {
    /// The human-readable description of the failure. For length failures it
    /// names the field with both byte counts; for encoding failures it names
    /// the field.
    pub open spec fn spec_message(&self) -> Seq<char> {
        match self {
            CryptoError::InvalidEncoding { field } => "invalid base64 for "@ + field@,
            CryptoError::LengthMismatch { field, expected, actual } => field@
                + " must decode to "@ + dec_of(*expected as nat) + " bytes, got "@ + dec_of(
                *actual as nat,
            ),
            CryptoError::EncryptionFailed => "encryption failed"@,
            CryptoError::DecryptionFailed => "decryption failed"@,
            CryptoError::NotUtf8 => "plaintext is not valid UTF-8"@,
        }
    }

    /// Build the description named by `spec_message`.
    pub fn message(&self) -> (r: String)
        ensures
            r@ == self.spec_message(),
    {
        let mut m = String::new();
        match self {
            CryptoError::InvalidEncoding { field } => {
                m.append("invalid base64 for ");
                m.append(field.as_str());
            },
            CryptoError::LengthMismatch { field, expected, actual } => {
                m.append(field.as_str());
                m.append(" must decode to ");
                push_decimal(&mut m, *expected);
                m.append(" bytes, got ");
                push_decimal(&mut m, *actual);
            },
            CryptoError::EncryptionFailed => {
                m.append("encryption failed");
            },
            CryptoError::DecryptionFailed => {
                m.append("decryption failed");
            },
            CryptoError::NotUtf8 => {
                m.append("plaintext is not valid UTF-8");
            },
        }
        proof {
            assert(m@ =~= self.spec_message());
        }
        m
    }
}

} // verus!
