//! Processing of decoded commands. Joining a room completes at once; sending
//! a message runs in stages, each waiting on storage: save the message, then
//! resolve the sender's name, then fan the frame out.
use vstd::prelude::*;

use crate::membership::{members_in, with_member};
use crate::protocol::{is_valid_room_id, outbound_frame, valid_room_id, ChatCommand, CommandView, OutboundMessage};
use crate::state::{reached, ChatServerState};

verus! {

/// A failure reported by storage.
#[derive(Debug)]
pub struct StorageError {
    pub reason: String,
}

/// Why a command had no further effect.
#[derive(Debug, Clone, Copy, PartialEq, Eq, Structural)]
pub enum Rejection {
    /// The room identifier is not well formed.
    InvalidRoom,
    /// Storage did not record the message.
    StorageFailed,
    /// Storage could not name the sender.
    UnknownSender,
}

/// A message that waits to be saved.
#[derive(Debug)]
pub struct PendingSave {
    pub room_id: String,
    pub user_id: u128,
    pub content: String,
}

/// A message that storage has recorded. Only [`PendingSave::saved`] makes one,
/// and only from a successful save.
#[derive(Debug)]
pub struct Persisted {
    room_id: String,
    user_id: u128,
    content: String,
    message_id: i64,
}

/// What a frame fanned out was, and whom it reached.
#[derive(Debug)]
pub struct Delivery {
    pub frame: String,
    pub recipients: Vec<u128>,
}

/// The result of executing a command.
#[derive(Debug)]
pub enum Execution {
    /// The session joined the room.
    Joined,
    /// The command was dropped; the connection goes on.
    Dropped(Rejection),
    /// The message must be saved before anything else happens.
    Save(PendingSave),
}

impl ChatCommand {
    /// Executes a command of session `user_id`. A join to a well-formed room
    /// takes effect at once, whether or not the session holds a connection
    /// entry; a message to a well-formed room comes back as a [`PendingSave`], and no
    /// state changes until it has been saved.
    pub fn execute(cmd: ChatCommand, user_id: u128, state: &mut ChatServerState) -> (r: Execution)
        ensures
            final(state).connections.view() == old(state).connections.view(),
            match cmd.view() {
                CommandView::JoinRoom { room_id, .. } => if !valid_room_id(room_id) {
                    r == Execution::Dropped(Rejection::InvalidRoom) && final(state).room_members.view() == old(state).room_members.view()
                } else {
                    r == Execution::Joined && final(state).room_members.view() == with_member(
                        old(state).room_members.view(),
                        room_id,
                        user_id,
                    )
                },
                CommandView::SendMessage { room_id, content } => {
                    &&& final(state).room_members.view() == old(state).room_members.view()
                    &&& if !valid_room_id(room_id) {
                        r == Execution::Dropped(Rejection::InvalidRoom)
                    } else {
                        r matches Execution::Save(p) && p.room_id@ == room_id && p.user_id
                            == user_id && p.content@ == content
                    }
                },
            },
    {
        match cmd {
            ChatCommand::JoinRoom { room_id, username: _ } => {
                if !is_valid_room_id(room_id.as_str()) {
                    return Execution::Dropped(Rejection::InvalidRoom);
                }
                state.join_room(room_id, user_id);
                Execution::Joined
            },
            ChatCommand::SendMessage { room_id, content } => {
                if !is_valid_room_id(room_id.as_str()) {
                    return Execution::Dropped(Rejection::InvalidRoom);
                }
                Execution::Save(PendingSave { room_id, user_id, content })
            },
        }
    }
}

impl PendingSave {
    /// Takes in the outcome of saving the message. Only a successful save
    /// lets the message go further.
    pub fn saved(self, outcome: Result<i64, StorageError>) -> (r: Result<Persisted, Rejection>)
        ensures
            outcome is Err ==> r == Err::<Persisted, Rejection>(Rejection::StorageFailed),
            outcome is Ok ==> (r matches Ok(p) && p.message_id() == outcome->Ok_0
                && p.room_id() == self.room_id@ && p.user_id() == self.user_id
                && p.content() == self.content@),
    {
        match outcome {
            Ok(message_id) => Ok(
                Persisted {
                    room_id: self.room_id,
                    user_id: self.user_id,
                    content: self.content,
                    message_id,
                },
            ),
            Err(_) => Err(Rejection::StorageFailed),
        }
    }
}

impl Persisted {
    pub closed spec fn room_id(&self) -> Seq<char> {
        self.room_id@
    }

    pub closed spec fn user_id(&self) -> u128 {
        self.user_id
    }

    pub closed spec fn content(&self) -> Seq<char> {
        self.content@
    }

    pub closed spec fn message_id(&self) -> i64 {
        self.message_id
    }

    /// The identifier that storage gave the message.
    pub fn id(&self) -> (r: i64)
        ensures
            r == self.message_id(),
    {
        self.message_id
    }

    /// Takes in the sender's name as storage resolved it, encodes the frame
    /// once and fans it out to the other members of the room. Once the name
    /// is known this always succeeds: a member that is gone, or whose channel
    /// refuses the frame, is skipped without affecting the others.
    pub fn broadcast(self, name: Result<String, StorageError>, state: &ChatServerState) -> (r: Result<
        Delivery,
        Rejection,
    >)
        ensures
            name is Err ==> r == Err::<Delivery, Rejection>(Rejection::UnknownSender),
            name is Ok ==> r is Ok,
            r matches Ok(d) ==> {
                &&& d.frame@ == outbound_frame(self.room_id(), name->Ok_0@, self.content())
                &&& d.recipients@.to_set() == members_in(state.room_members.view(), self.room_id()).filter(
                    reached(state.connections.view(), self.user_id()),
                )
                &&& d.recipients@.no_duplicates()
            },
    {
        let username = match name {
            Ok(n) => n,
            Err(_) => return Err(Rejection::UnknownSender),
        };
        let message = OutboundMessage::new(self.room_id, username, self.content);
        let frame = message.to_json();
        let recipients = state.publish(message.room_id.as_str(), &frame, self.user_id);
        Ok(Delivery { frame, recipients })
    }
}

} // verus!
