//! The decisions behind the read endpoints over rooms, members and history.
use vstd::prelude::*;

use crate::ids::{parse_uuid, uuid_value};
use crate::membership::members_in;
use crate::state::ChatServerState;

verus! {

/// A stored message, as history lists it.
#[derive(Debug)]
pub struct MessageRecord {
    pub id: i64,
    pub user_id: u128,
    pub username: String,
    pub room_id: String,
    pub content: String,
    /// Seconds since the epoch.
    pub created_at: i64,
}

/// A user, as a member listing shows it.
#[derive(Debug)]
pub struct UserRecord {
    pub id: u128,
    pub username: String,
}

/// A stored room.
#[derive(Debug)]
pub struct RoomRecord {
    pub id: u128,
    pub name: String,
}

/// A failure of the room endpoints, with its explanation.
#[derive(Debug)]
pub struct RoomError(pub String);

/// A failure of the member listing.
#[derive(Debug)]
pub enum ApiError {
    DatabaseError(String),
    NotFound(String),
}

/// A failure of the history endpoint.
#[derive(Debug)]
pub enum HistoryError {
    InternalError(String),
}

/// The name of a room to create.
#[derive(Debug)]
pub struct CreateRoomPayload {
    pub name: String,
}

/// The members of `room` now, for a member listing. A room that was never
/// joined is not found; one whose members all left lists nobody.
pub fn room_member_ids(state: &ChatServerState, room: &str) -> (r: Result<Vec<u128>, ApiError>)
    ensures
        state.room_members.view().dom().contains(room@) <==> r is Ok,
        r matches Ok(ids) ==> ids@.to_set() == members_in(state.room_members.view(), room@)
            && ids@.no_duplicates(),
        r matches Err(e) ==> e matches ApiError::NotFound(m) && m@ == "Room not found or is empty."@,
{
    if !state.room_members.has_room(room) {
        return Err(ApiError::NotFound(String::from_str("Room not found or is empty.")));
    }
    Ok(state.room_members.members_of(room))
}

/// The room whose history is asked for: its identifier must be a UUID.
pub fn history_room(room_id: &str) -> (r: Result<u128, HistoryError>)
    ensures
        match uuid_value(room_id@) {
            Some(id) => r == Ok::<u128, HistoryError>(id),
            None => r matches Err(HistoryError::InternalError(m)) && m@ == "Invalid room_id: "@
                + room_id@,
        },
{
    match parse_uuid(room_id) {
        Some(id) => Ok(id),
        None => {
            let mut m = String::from_str("Invalid room_id: ");
            m.append(room_id);
            Err(HistoryError::InternalError(m))
        },
    }
}

/// The answer to creating a room: storage returns no row when the name is
/// taken.
pub fn room_created(row: Option<RoomRecord>) -> (r: Result<RoomRecord, RoomError>)
    ensures
        match row {
            Some(rec) => r == Ok::<RoomRecord, RoomError>(rec),
            None => r matches Err(RoomError(m)) && m@ == "A room with this name already exists."@,
        },
{
    match row {
        Some(rec) => Ok(rec),
        None => Err(RoomError(String::from_str("A room with this name already exists."))),
    }
}

} // verus!
