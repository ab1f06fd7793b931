//! The guarantees of the protocol, stated over the live view of the store and
//! the spec-level names that the contracts of create and reveal use, and
//! proved from them. Each proof function is one law of the library.

use crate::aead::aead_ct;
use crate::kdf::key_of;
use crate::service::reveal_ok;
use crate::store::expire;
use crate::store::SecretView;
use vstd::prelude::*;

verus! {

/// Law: a created secret is revealed exactly once. A record whose ciphertext
/// was produced under a password's key — what create publishes — can be
/// revealed with that password; and once any reveal has consumed the
/// identifier, no further reveal of it can succeed, whatever password it
/// carries. (That the successful reveal returns the created plaintext itself
/// is stated by the contract of reveal.)
pub proof fn lemma_reveal_exactly_once(
    live: Map<u128, SecretView>,
    id: u128,
    plaintext: Seq<u8>,
    password: Seq<u8>,
)
    requires
        live.contains_key(id),
        live[id].ciphertext == aead_ct(key_of(password), live[id].nonce, plaintext),
    ensures
        reveal_ok(live, id, password),
        forall|other: Seq<u8>| !reveal_ok(live.remove(id), id, other),
{
}

/// Law: any reveal attempt consumes the record, a wrong-password attempt
/// included — reveal removes the identifier from the live view before it ever
/// looks at the password. Afterwards no reveal of that identifier succeeds,
/// the correct password included. A reveal with a password whose derived key
/// does not authenticate the stored ciphertext fails itself as well; that a
/// *different* password never authenticates is the cipher's guarantee, which
/// the hypothesis states rather than proves.
pub proof fn lemma_wrong_password_destroys(live: Map<u128, SecretView>, id: u128, wrong: Seq<u8>)
    requires
        live.contains_key(id) ==> forall|p: Seq<u8>|
            live[id].ciphertext != aead_ct(key_of(wrong), live[id].nonce, p),
    ensures
        !reveal_ok(live, id, wrong),
        forall|w: Seq<u8>| !reveal_ok(live.remove(id), id, w),
{
}

/// Law: a secret not revealed within its time-to-live becomes unreadable.
/// Once the store's clock passes a record's expiry moment the record leaves
/// the live view, and a reveal of its identifier finds nothing — exactly as
/// if it had been consumed — though no reveal ever touched it.
pub proof fn lemma_ttl_expiry(live: Map<u128, SecretView>, id: u128, cutoff: int)
    requires
        live.contains_key(id),
        live[id].expires_at <= cutoff,
    ensures
        !expire(live, cutoff).contains_key(id),
        forall|w: Seq<u8>| !reveal_ok(expire(live, cutoff), id, w),
{
}

/// The live records left after `n` reveal attempts on one identifier, each of
/// which takes and invalidates whatever it finds. Any interleaving of
/// concurrent attempts is some such sequence, because take-and-invalidate is
/// atomic.
pub open spec fn live_after_attempts(
    live: Map<u128, SecretView>,
    id: u128,
    n: nat,
) -> Map<u128, SecretView>
    decreases n,
{
    if n == 0 {
        live
    } else {
        live_after_attempts(live, id, (n - 1) as nat).remove(id)
    }
}

/// Law: of any number of reveal attempts racing on one identifier, at most
/// one succeeds. Every attempt that runs after at least one earlier attempt
/// observes a live view without the identifier, whatever passwords anyone
/// carries; only the attempt that goes first can see the record, and it does
/// exactly when the record is live and its password correct (`reveal_ok` on
/// the initial view).
pub proof fn lemma_single_winner(live: Map<u128, SecretView>, id: u128, n: nat, w: Seq<u8>)
    requires
        n >= 1,
    ensures
        !reveal_ok(live_after_attempts(live, id, n), id, w),
        live_after_attempts(live, id, 0) == live,
{
}

} // verus!
