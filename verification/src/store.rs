//! The secret store: records keyed by identifier, each with a time-to-live.
//! Its one ordering guarantee is the atomicity of take-and-invalidate — a
//! record is handed out at most once, and any attempt to take it removes it.
//! Expiry is by the store's clock alone: a record past its expiry moment is
//! indistinguishable from one already consumed.

use vstd::hash_map::HashMapWithView;
use vstd::map::*;
use vstd::prelude::*;

verus! {

broadcast use vstd::std_specs::hash::axiom_u128_obeys_hash_table_key_model;

/// A stored record: the ciphertext, the nonce it was encrypted under, and the
/// moment on the store's clock (in seconds) at which it expires. Plaintext and
/// derived keys never appear here.
pub struct StoredSecret {
    pub ciphertext: Vec<u8>,
    pub nonce: Vec<u8>,
    pub expires_at: u64,
}

/// The mathematical image of a stored record.
#[verifier::ext_equal]
pub struct SecretView {
    pub ciphertext: Seq<u8>,
    pub nonce: Seq<u8>,
    pub expires_at: int,
}

impl View for StoredSecret {
    type V = SecretView;

    open spec fn view(&self) -> SecretView {
        SecretView {
            ciphertext: self.ciphertext@,
            nonce: self.nonce@,
            expires_at: self.expires_at as int,
        }
    }
}

/// The live records that remain once every record whose expiry moment is at
/// or before `cutoff` has lapsed.
pub open spec fn expire(live: Map<u128, SecretView>, cutoff: int) -> Map<u128, SecretView> {
    Map::new(
        |id: u128| live.contains_key(id) && live[id].expires_at > cutoff,
        |id: u128| live[id],
    )
}

/// The store: a map from identifier to record, plus a clock. The physical map
/// may still hold expired records; every contract of the store speaks of the
/// `live` view, from which they are already gone.
pub struct SecretStore {
    entries: HashMapWithView<u128, StoredSecret>,
    clock: u64,
}

impl SecretStore {
    /// The store's clock, in seconds.
    pub closed spec fn now(self) -> int {
        self.clock as int
    }

    /// Every record the store physically holds, expired ones included.
    pub closed spec fn stored(self) -> Map<u128, SecretView> {
        Map::new(
            |id: u128| self.entries@.contains_key(id),
            |id: u128| self.entries@[id]@,
        )
    }

    /// The records a reveal can still observe: stored and not yet expired.
    pub open spec fn live(self) -> Map<u128, SecretView> {
        Map::new(
            |id: u128| self.stored().contains_key(id) && self.stored()[id].expires_at > self.now(),
            |id: u128| self.stored()[id],
        )
    }

    /// An empty store whose clock starts at the given moment.
    pub fn new(start: u64) -> (s: Self)
        ensures
            s.now() == start,
            s.stored() == Map::<u128, SecretView>::empty(),
            s.live() == Map::<u128, SecretView>::empty(),
    {
        let s = SecretStore { entries: HashMapWithView::new(), clock: start };
        proof {
            assert_maps_equal!(s.stored(), Map::<u128, SecretView>::empty());
            assert_maps_equal!(s.live(), Map::<u128, SecretView>::empty());
        }
        s
    }

    /// Publishes a record under an identifier, to expire `ttl` seconds from
    /// now. A record already standing under the same identifier is replaced;
    /// the service always supplies a freshly drawn identifier, so replacement
    /// is never observed in practice.
    pub fn put(&mut self, id: u128, ciphertext: Vec<u8>, nonce: Vec<u8>, ttl: u64)
        requires
            old(self).now() + ttl <= u64::MAX,
            ttl >= 1,
        ensures
            final(self).now() == old(self).now(),
            final(self).live() == old(self).live().insert(
                id,
                (SecretView {
                    ciphertext: ciphertext@,
                    nonce: nonce@,
                    expires_at: old(self).now() + ttl,
                }),
            ),
    {
        let expires_at = self.clock + ttl;
        let record = StoredSecret { ciphertext, nonce, expires_at };
        self.entries.insert(id, record);
        proof {
            assert_maps_equal!(
                self.live(),
                old(self).live().insert(
                    id,
                    (SecretView {
                        ciphertext: ciphertext@,
                        nonce: nonce@,
                        expires_at: old(self).now() + ttl,
                    }),
                )
            );
        }
    }

    /// Atomically removes and returns the record under an identifier: after
    /// the call the live view no longer holds the identifier, whatever was
    /// found, so no two callers can ever both receive one record. A record
    /// past its expiry is treated as absent (and discarded if still present
    /// physically).
    pub fn take_and_invalidate(&mut self, id: u128) -> (r: Option<StoredSecret>)
        ensures
            final(self).now() == old(self).now(),
            final(self).live() == old(self).live().remove(id),
            old(self).live().contains_key(id) ==> r is Some && r->0@ == old(self).live()[id],
            !old(self).live().contains_key(id) ==> r is None,
    {
        let taken = self.entries.remove(&id);
        proof {
            assert_maps_equal!(self.live(), old(self).live().remove(id));
        }
        match taken {
            None => None,
            Some(record) => {
                if record.expires_at > self.clock {
                    Some(record)
                } else {
                    None
                }
            },
        }
    }

    /// Reads the record under an identifier without consuming it (the backing
    /// store's plain lookup). The store is unchanged.
    pub fn get(&self, id: u128) -> (r: Option<&StoredSecret>)
        ensures
            self.live().contains_key(id) ==> r is Some && r->0@ == self.live()[id],
            !self.live().contains_key(id) ==> r is None,
    {
        match self.entries.get(&id) {
            None => None,
            Some(record) => {
                if record.expires_at > self.clock {
                    Some(record)
                } else {
                    None
                }
            },
        }
    }

    /// Moves the store's clock forward. Nothing is removed physically, but
    /// every record whose expiry moment has passed drops out of the live
    /// view — expiry needs no reveal and no sweeper.
    pub fn advance(&mut self, seconds: u64)
        requires
            old(self).now() + seconds <= u64::MAX,
        ensures
            final(self).now() == old(self).now() + seconds,
            final(self).live() == expire(old(self).live(), old(self).now() + seconds),
    {
        self.clock = self.clock + seconds;
        proof {
            assert_maps_equal!(
                self.live(),
                expire(old(self).live(), old(self).now() + seconds)
            );
        }
    }
}

} // verus!
