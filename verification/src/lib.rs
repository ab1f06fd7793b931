//! A one-time secret vault: a caller stores a piece of text protected by a
//! password and receives an identifier; whoever knows the identifier and the
//! password can retrieve the text exactly once, after which the stored record
//! is gone. A record that is never retrieved disappears on its own when its
//! time-to-live runs out.

pub mod aead;
pub mod ids;
pub mod kdf;
pub mod laws;
pub mod model;
pub mod nonce;
pub mod payload;
pub mod service;
pub mod store;
