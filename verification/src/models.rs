use vstd::prelude::*;

verus! {

/// A registered user as it is stored: its key, its name and the hash of its
/// password.
#[derive(Debug, Clone)]
pub struct UserRecord {
    pub id: i64,
    pub username: String,
    pub password_hash: String,
}

/// A user about to be stored: the record before the store gives it a key.
#[derive(Debug, Clone)]
pub struct NewUser {
    pub username: String,
    pub password_hash: String,
}

} // verus!
