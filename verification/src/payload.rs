//! The request and response shapes the request layer exchanges with callers.
//! The request layer owns their JSON form; here they are plain values.

use vstd::prelude::*;

verus! {

/// A create request: the text to protect and the password that must be
/// presented to reveal it. Caller-owned and ephemeral.
pub struct CreateSecretPayload {
    /// The text to protect.
    pub secret_content: String,
    /// The password the secret is protected by; never stored, never returned.
    pub password: String,
}

/// The answer to a successful create: the new identifier and the path a
/// caller follows to reveal the secret.
pub struct CreateSecretResponse {
    /// The fresh 128-bit identifier, exchanged in canonical UUID text form.
    pub id: u128,
    /// Where the secret can be revealed.
    pub url: String,
}

/// The password a reveal caller supplies beside the identifier.
pub struct QueryPassword {
    /// The password to derive the decryption key from.
    pub password: String,
}

} // verus!
