//! A password- and key-gated file exchange engine: a sender's plaintext
//! is sealed into an encryption envelope whose data-encryption key is
//! wrapped for both sender and recipient, with the recipient's copy
//! additionally gated behind a password-derived key; a ledger keeps the
//! per-share lifecycle (status, attempt counter, deadline), and a
//! gatekeeper services upload and retrieval requests, enforcing
//! lockout, expiry and password checks before any unwrap is attempted.
pub mod crypto;
pub mod dtos;
pub mod envelope;
pub mod error;
pub mod expiry;
pub mod gatekeeper;
pub mod ledger;
pub mod models;
