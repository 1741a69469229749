//! The user model: identity, contact and key material as the rest of
//! the library reads them — ids as numbers, timestamps as Unix
//! seconds, the optional public key as its encoded text.
use vstd::prelude::*;

verus! {

/// A registered user. The password field holds the login hash, which
/// this library never interprets; the public key, once set, is what
/// data-encryption keys addressed to this user are wrapped under.
#[derive(Clone, Debug)]
pub struct User {
    /// Numeric identity.
    pub id: u64,
    /// Display name.
    pub name: String,
    /// Contact and share-addressing email.
    pub email: String,
    /// Login password hash; opaque to this library.
    pub password: String,
    /// Encoded public key, if one has been set.
    pub public_key: Option<String>,
    /// Unix timestamp of creation, if recorded.
    pub created_at: Option<i64>,
    /// Unix timestamp of the last update, if recorded.
    pub updated_at: Option<i64>,
}

} // verus!
