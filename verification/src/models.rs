//! The records that the persistence layer holds.
//!
//! Identifiers are the 128 bits of a UUID. Instants are microseconds since
//! the Unix epoch, in UTC.

use vstd::prelude::*;

verus! {

/// A registered user. `public_key` is the stored form of the user's public
/// key, absent until the key pair has been generated.
#[derive(Debug)]
pub struct User {
    pub id: u128,
    pub name: String,
    pub email: String,
    pub password: String,
    pub public_key: Option<String>,
    pub created_at: Option<i64>,
    pub updated_at: Option<i64>,
}

/// An encrypted payload: the ciphertext of one file with the wrapped
/// symmetric key and the initialization vector that open it.
#[derive(Debug)]
pub struct File {
    pub id: u128,
    pub user_id: Option<u128>,
    pub file_name: String,
    pub file_size: i64,
    pub encrypted_aes_key: Vec<u8>,
    pub encrypted_file: Vec<u8>,
    pub iv: Vec<u8>,
    pub created_at: Option<i64>,
}

/// A share grant: the conditions under which one payload may be retrieved.
/// `password` is the hash of the access password.
#[derive(Debug)]
pub struct SharedLink {
    pub id: u128,
    pub file_id: Option<u128>,
    pub recipient_user_id: Option<u128>,
    pub password: String,
    pub expiration_date: Option<i64>,
    pub created_at: Option<i64>,
}

/// One line of a sender's list of shared files.
#[derive(Debug)]
pub struct SentFileDetails {
    pub file_id: u128,
    pub file_name: String,
    pub recipient_email: String,
    pub expiration_date: Option<i64>,
    pub created_at: Option<i64>,
}

/// One line of a recipient's list of shared files.
#[derive(Debug)]
pub struct ReceiveFileDetails {
    pub file_id: u128,
    pub file_name: String,
    pub sender_email: String,
    pub expiration_date: Option<i64>,
    pub created_at: Option<i64>,
}

impl SharedLink {
    /// Whether the grant can still be resolved at `now`: its expiration lies
    /// strictly after `now`. A grant without an expiration never resolves.
    pub open spec fn spec_is_live(&self, now: i64) -> bool {
        self.expiration_date matches Some(t) && t > now
    }

    /// Whether the sweep at `now` retires the grant: its expiration lies
    /// strictly before `now`.
    pub open spec fn spec_is_expired(&self, now: i64) -> bool {
        self.expiration_date matches Some(t) && t < now
    }

    /// Whether `caller` may resolve the grant `shared_id` at `now`: the
    /// identifier is this grant's, the caller is its recipient, and it has
    /// not expired.
    pub open spec fn spec_resolves(&self, shared_id: u128, caller: u128, now: i64) -> bool {
        &&& self.id == shared_id
        &&& self.recipient_user_id == Some(caller)
        &&& self.spec_is_live(now)
    }

    #[verifier::when_used_as_spec(spec_is_live)]
    pub fn is_live(&self, now: i64) -> (r: bool)
        ensures
            r == self.spec_is_live(now),
    {
        match self.expiration_date {
            Some(t) => t > now,
            None => false,
        }
    }

    #[verifier::when_used_as_spec(spec_is_expired)]
    pub fn is_expired(&self, now: i64) -> (r: bool)
        ensures
            r == self.spec_is_expired(now),
    {
        match self.expiration_date {
            Some(t) => t < now,
            None => false,
        }
    }

    #[verifier::when_used_as_spec(spec_resolves)]
    pub fn resolves(&self, shared_id: u128, caller: u128, now: i64) -> (r: bool)
        ensures
            r == self.spec_resolves(shared_id, caller, now),
    {
        let is_recipient = match self.recipient_user_id {
            Some(recipient) => recipient == caller,
            None => false,
        };
        self.id == shared_id && is_recipient && self.is_live(now)
    }
}

} // verus!
