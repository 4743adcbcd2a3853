//! Users and rooms as storage keeps them.
use vstd::prelude::*;

verus! {

/// A user with the moment the user connected, in seconds since the epoch.
#[derive(Debug)]
pub struct User {
    pub id: u128,
    pub username: String,
    pub connected_at: i64,
}

/// A room with the moment it was created, in seconds since the epoch.
#[derive(Debug)]
pub struct Room {
    pub id: u128,
    pub name: String,
    pub created_at: i64,
}

} // verus!
