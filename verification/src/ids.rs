//! Secret identifiers: each stored secret is keyed by a freshly drawn random
//! 128-bit identifier. The request layer exchanges it in canonical UUID text
//! form; inside the library it is the plain 128-bit value.

use vstd::prelude::*;

verus! {

/// Relies on uuid::Uuid::new_v4: a version-4 UUID drawn from a secure random
/// source. The value is random, so nothing is promised of any one call;
/// collision with an existing identifier is negligible by construction but
/// never assumed. If the secure source is unavailable the call aborts rather
/// than falling back to a weaker source.
#[verifier::external_body]
pub fn new_secret_id() -> (id: u128)
{
    uuid::Uuid::new_v4().as_u128()
}

} // verus!
