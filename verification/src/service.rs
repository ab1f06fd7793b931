//! The secret service: create derives a key, draws a fresh nonce, encrypts
//! and publishes the record with a time-to-live; reveal takes and invalidates
//! the record first — consuming it whether or not decryption then succeeds —
//! and only then derives the key and decrypts.

use crate::aead;
use crate::aead::aead_ct;
use crate::ids;
use crate::kdf;
use crate::kdf::key_of;
use crate::nonce;
use crate::store::SecretStore;
use crate::store::SecretView;
use vstd::prelude::*;

verus! {

/// Default time-to-live of a secret, in seconds: 24 hours, fixed by policy
/// and not caller-configurable at the request boundary.
pub const DEFAULT_TTL_SECONDS: u64 = 86400;

/// Why a reveal returned no plaintext. The request layer must present both
/// alike to its caller, so that a guesser cannot learn whether the identifier
/// or the password was the wrong half.
#[derive(Clone, Copy, Debug, PartialEq, Eq, Structural)]
pub enum RevealError {
    /// The identifier is not live: never created, already consumed, or
    /// expired.
    NotFound,
    /// The record was live, but the ciphertext did not authenticate under the
    /// key derived from the supplied password: wrong password or corrupted
    /// data, deliberately not distinguished. The record is consumed anyway.
    AuthenticationFailure,
}

/// Every live record is well formed: its nonce has the cipher's fixed nonce
/// length. An empty store satisfies this, and create and reveal preserve it.
pub open spec fn wf_live(live: Map<u128, SecretView>) -> bool {
    forall|id: u128| #[trigger] live.contains_key(id) ==> live[id].nonce.len() == aead::NONCE_LEN
}

/// Whether a reveal of `id` against the live records `live`, carrying this
/// password, returns a plaintext: the identifier must be live and its
/// ciphertext one that encryption produces under the password's key and the
/// record's nonce.
pub open spec fn reveal_ok(live: Map<u128, SecretView>, id: u128, password: Seq<u8>) -> bool {
    live.contains_key(id) && exists|p: Seq<u8>|
        live[id].ciphertext == aead_ct(key_of(password), live[id].nonce, p)
}

/// Creates a secret: derives the key from the password, draws a fresh nonce,
/// encrypts the plaintext, and publishes ciphertext and nonce under a freshly
/// drawn identifier, to expire `ttl` seconds from now. Returns the
/// identifier; neither the password nor the plaintext is stored.
pub fn create_secret(store: &mut SecretStore, plaintext: &[u8], password: &[u8], ttl: u64) -> (id: u128)
    requires
        plaintext@.len() <= aead::MAX_PLAINTEXT_LEN,
        password@.len() <= kdf::MAX_PASSWORD_LEN,
        old(store).now() + ttl <= u64::MAX,
        ttl >= 1,
    ensures
        final(store).now() == old(store).now(),
        final(store).live() == old(store).live().insert(id, final(store).live()[id]),
        final(store).live().contains_key(id),
        ({
            let rec = final(store).live()[id];
            &&& rec.ciphertext == aead_ct(key_of(password@), rec.nonce, plaintext@)
            &&& rec.nonce.len() == aead::NONCE_LEN
            &&& rec.expires_at == old(store).now() + ttl
        }),
{
    let key = kdf::hash_password(password);
    let nonce_bytes = nonce::generate_nonce();
    let ciphertext = aead::encrypt(&key, nonce_bytes.as_slice(), plaintext);
    let id = ids::new_secret_id();
    store.put(id, ciphertext, nonce_bytes, ttl);
    id
}

/// Reveals a secret: takes and invalidates the stored record first — after
/// this call the identifier is no longer live, whatever happens next — then
/// derives the key from the supplied password and decrypts. Returns the
/// plaintext exactly when the record was live and its ciphertext
/// authenticates under the password's key; reports `NotFound` for an
/// identifier that was not live, and `AuthenticationFailure` for a record
/// that was live but did not decrypt — that record is destroyed all the same.
pub fn reveal_secret(store: &mut SecretStore, id: u128, password: &[u8]) -> (r: Result<
    Vec<u8>,
    RevealError,
>)
    requires
        password@.len() <= kdf::MAX_PASSWORD_LEN,
        wf_live(old(store).live()),
    ensures
        final(store).now() == old(store).now(),
        final(store).live() == old(store).live().remove(id),
        r is Ok <==> reveal_ok(old(store).live(), id, password@),
        !old(store).live().contains_key(id) ==> r == Err::<Vec<u8>, RevealError>(
            RevealError::NotFound,
        ),
        old(store).live().contains_key(id) ==> ({
            let rec = old(store).live()[id];
            &&& forall|p: Seq<u8>| rec.ciphertext == aead_ct(key_of(password@), rec.nonce, p)
                ==> r is Ok && r->Ok_0@ == p
            &&& r is Ok ==> rec.ciphertext == aead_ct(key_of(password@), rec.nonce, r->Ok_0@)
            &&& r is Err ==> r == Err::<Vec<u8>, RevealError>(RevealError::AuthenticationFailure)
        }),
{
    match store.take_and_invalidate(id) {
        None => Err(RevealError::NotFound),
        Some(record) => {
            let key = kdf::hash_password(password);
            match aead::decrypt(&key, record.nonce.as_slice(), record.ciphertext.as_slice()) {
                Some(plaintext) => Ok(plaintext),
                None => Err(RevealError::AuthenticationFailure),
            }
        },
    }
}

} // verus!
