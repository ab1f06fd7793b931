//! Nonce generation: every encryption gets a fresh random value of fixed
//! length from a cryptographically secure source, so identical plaintexts
//! encrypt differently and a nonce is never knowingly reused under one key.

use rand::distributions::Alphanumeric;
use rand::distributions::DistString;
use vstd::prelude::*;

verus! {

/// Relies on rand's Alphanumeric distribution sampled from the thread-local
/// cryptographically secure generator: the sample is a string of exactly the
/// requested number of alphanumeric characters, each one byte. The value is
/// random, so nothing beyond its length is promised of any one call. If the
/// secure source is unavailable the call aborts rather than falling back to a
/// weaker source.
#[verifier::external_body]
fn sample_nonce_bytes() -> (nonce: Vec<u8>)
    ensures
        nonce@.len() == crate::aead::NONCE_LEN,
{
    Alphanumeric.sample_string(&mut rand::thread_rng(), crate::aead::NONCE_LEN).into_bytes()
}

/// Draws a fresh nonce for one encryption. Only its length is known; the
/// caller must treat the value as unpredictable and use it once.
pub fn generate_nonce() -> (nonce: Vec<u8>)
    ensures
        nonce@.len() == crate::aead::NONCE_LEN,
{
    sample_nonce_bytes()
}

} // verus!
