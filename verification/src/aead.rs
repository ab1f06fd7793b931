//! Authenticated encryption of the secret payload: a derived key and a fresh
//! nonce turn the plaintext into a ciphertext whose integrity is checked on
//! decryption, so a wrong key or a tampered ciphertext is rejected.

use aes_gcm_siv::aead::Aead;
use aes_gcm_siv::aead::KeyInit;
use vstd::prelude::*;

verus! {

/// Byte length of a nonce.
pub const NONCE_LEN: usize = 12;

/// Longest plaintext the cipher accepts (the cipher's own limit of 2^36
/// bytes on a message).
pub const MAX_PLAINTEXT_LEN: u64 = 0x10_0000_0000;

/// The ciphertext that encryption produces for a key, a nonce and a
/// plaintext. Encryption is deterministic in these three inputs; the value
/// has no short statement, so it stays uninterpreted, and both encryption and
/// decryption are specified through this one name.
pub uninterp spec fn aead_ct(key: Seq<u8>, nonce: Seq<u8>, plaintext: Seq<u8>) -> Seq<u8>;

/// Relies on aes_gcm_siv::Aes256GcmSiv::encrypt: deterministic in key, nonce
/// and plaintext, and total on messages up to the cipher's length limit.
#[verifier::external_body]
fn aead_encrypt(key: &[u8; 32], nonce: &[u8], plaintext: &[u8]) -> (ciphertext: Vec<u8>)
    requires
        nonce@.len() == NONCE_LEN,
        plaintext@.len() <= MAX_PLAINTEXT_LEN,
    ensures
        ciphertext@ == aead_ct(key@, nonce@, plaintext@),
{
    let cipher = aes_gcm_siv::Aes256GcmSiv::new(key.into());
    cipher.encrypt(aes_gcm_siv::Nonce::from_slice(nonce), plaintext).unwrap()
}

/// Relies on aes_gcm_siv::Aes256GcmSiv::decrypt: it returns the plaintext of
/// a ciphertext that encryption produced under the same key and nonce (so
/// encryption is injective in the plaintext), and it authenticates — a
/// ciphertext that encryption did not produce under this key and nonce is
/// rejected.
#[verifier::external_body]
fn aead_decrypt(key: &[u8; 32], nonce: &[u8], ciphertext: &[u8]) -> (r: Option<Vec<u8>>)
    requires
        nonce@.len() == NONCE_LEN,
    ensures
        forall|p: Seq<u8>| ciphertext@ == aead_ct(key@, nonce@, p)
            ==> r is Some && r->0@ == p,
        r is Some ==> ciphertext@ == aead_ct(key@, nonce@, r->0@),
{
    let cipher = aes_gcm_siv::Aes256GcmSiv::new(key.into());
    match cipher.decrypt(aes_gcm_siv::Nonce::from_slice(nonce), ciphertext) {
        Ok(plaintext) => Some(plaintext),
        Err(_) => None,
    }
}

/// Encrypts a plaintext under the key and nonce. The ciphertext is exactly
/// what the cipher's specification names for these three inputs.
pub fn encrypt(key: &[u8; 32], nonce: &[u8], plaintext: &[u8]) -> (ciphertext: Vec<u8>)
    requires
        nonce@.len() == NONCE_LEN,
        plaintext@.len() <= MAX_PLAINTEXT_LEN,
    ensures
        ciphertext@ == aead_ct(key@, nonce@, plaintext@),
{
    aead_encrypt(key, nonce, plaintext)
}

/// Decrypts a ciphertext under the key and nonce. Succeeds, with the original
/// plaintext, exactly on ciphertexts that encryption produced under the same
/// key and nonce; any other ciphertext is rejected.
pub fn decrypt(key: &[u8; 32], nonce: &[u8], ciphertext: &[u8]) -> (r: Option<Vec<u8>>)
    requires
        nonce@.len() == NONCE_LEN,
    ensures
        forall|p: Seq<u8>| ciphertext@ == aead_ct(key@, nonce@, p)
            ==> r is Some && r->0@ == p,
        r is Some ==> ciphertext@ == aead_ct(key@, nonce@, r->0@),
{
    aead_decrypt(key, nonce, ciphertext)
}

} // verus!
