//! Password-based key derivation: a caller-supplied password becomes a
//! fixed-length symmetric key through a deliberately slow, memory-hard hash
//! with a fixed salt and fixed cost parameters.

use vstd::prelude::*;

verus! {

/// Longest password the key derivation accepts (the hash function's own limit
/// on password length, in bytes).
pub const MAX_PASSWORD_LEN: usize = 0xFFFF_FFFF;

/// The digest of a password under this library's fixed salt and fixed cost
/// parameters. The derivation is deterministic, so the digest is a function of
/// the password bytes alone; its value has no short statement, so it stays
/// uninterpreted and every contract speaks of it by this name.
pub uninterp spec fn key_of(password: Seq<u8>) -> Seq<u8>;

/// Relies on argon2::hash_raw (rust-argon2): with the Argon2id variant, a
/// fixed salt and fixed cost parameters it is a deterministic function of the
/// password bytes alone, and its digest has the configured length of 32 bytes.
/// It accepts any password no longer than its length limit.
#[verifier::external_body]
fn argon2_digest(password: &[u8]) -> (digest: Vec<u8>)
    requires
        password@.len() <= MAX_PASSWORD_LEN,
    ensures
        digest@ == key_of(password@),
        digest@.len() == 32,
{
    let config = argon2::Config {
        ad: &[],
        hash_length: 32,
        lanes: 8,
        mem_cost: 16 * 1024,
        secret: &[],
        time_cost: 8,
        variant: argon2::Variant::Argon2id,
        version: argon2::Version::Version13,
    };
    argon2::hash_raw(password, b"randomsalt", &config).unwrap()
}

/// Copies a 32-byte slice into a fixed-length key array.
pub fn pop(v: &[u8]) -> (r: [u8; 32])
    requires
        v@.len() == 32,
    ensures
        r@ == v@,
{
    let mut r: [u8; 32] = [0u8; 32];
    let mut i: usize = 0;
    while i < 32
        invariant
            i <= 32,
            v@.len() == 32,
            forall|j: int| 0 <= j < i ==> r@[j] == v@[j],
        decreases 32 - i,
    {
        r[i] = v[i];
        i = i + 1;
    }
    proof {
        assert(r@ =~= v@);
    }
    r
}

/// Derives the fixed-length symmetric key for a password. Deterministic: the
/// same password always yields the same key, so a reveal can rebuild the key
/// that encrypted a secret without the key ever having been stored.
pub fn hash_password(password: &[u8]) -> (key: [u8; 32])
    requires
        password@.len() <= MAX_PASSWORD_LEN,
    ensures
        key@ == key_of(password@),
{
    let digest = argon2_digest(password);
    pop(digest.as_slice())
}

} // verus!
