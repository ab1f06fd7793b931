//! The transient view of a secret: it exists only in memory, during create
//! and during a successful reveal, and is never persisted in this form.

use vstd::prelude::*;

verus! {

/// A revealed secret: its identifier and its plaintext content. The request
/// layer serialises it for the caller; the store never holds it.
pub struct Secret {
    /// The 128-bit identifier, exchanged with callers in canonical UUID text
    /// form.
    pub id: u128,
    /// The plaintext content.
    pub secret_content: String,
}

} // verus!
