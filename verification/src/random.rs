//! Fresh bytes from the operating system's secure random source.

use vstd::prelude::*;
use rand::rngs::OsRng;
use rand::RngCore;

verus! {

/// Relies on rand::rngs::OsRng::fill_bytes: it fills the slice from the
/// operating system's secure random source, and aborts the process if that
/// source is unavailable (an unrecoverable condition). Nothing is promised
/// of the values drawn.
#[verifier::external_body]
fn fill_random(buf: &mut Vec<u8>)
    ensures
        final(buf)@.len() == old(buf)@.len(),
{
    OsRng.fill_bytes(buf.as_mut_slice());
}

/// A vector of `n` zero bytes.
fn zero_vec(n: usize) -> (r: Vec<u8>)
    ensures
        r@.len() == n,
{
    let mut buf: Vec<u8> = Vec::new();
    while buf.len() < n
        invariant
            buf@.len() <= n,
        decreases n - buf@.len(),
    {
        buf.push(0u8);
    }
    buf
}

/// `n` bytes drawn from the secure random source.
pub(crate) fn random_bytes(n: usize) -> (r: Vec<u8>)
    ensures
        r@.len() == n,
{
    let mut buf = zero_vec(n);
    fill_random(&mut buf);
    buf
}

} // verus!
