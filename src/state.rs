//! The state shared by all connections, and fan-out of frames to a room.
use vstd::prelude::*;

use crate::membership::{members_in, without_session, RoomMembership};
use crate::registry::{push_frame, ConnectionRegistry, Outbox};

verus! {

/// The sessions of `targets` that a frame from `sender` goes to: connected
/// ones other than the sender.
pub open spec fn reached(live: Set<u128>, sender: u128) -> spec_fn(u128) -> bool {
    |id: u128| id != sender && live.contains(id)
}

/// The connection registry and the room membership, shared by all sessions.
pub struct ChatServerState {
    pub room_members: RoomMembership,
    pub connections: ConnectionRegistry,
}

impl ChatServerState {
    /// No sessions and no rooms.
    pub fn new() -> (r: Self)
        ensures
            r.connections.view() == Set::<u128>::empty(),
            r.room_members.view() == Map::<Seq<char>, Set<u128>>::empty(),
    {
        ChatServerState { room_members: RoomMembership::new(), connections: ConnectionRegistry::new() }
    }

    /// Installs the channel of a session that was just admitted.
    pub fn open_session(&mut self, id: u128, outbox: Outbox)
        ensures
            final(self).connections.view() == old(self).connections.view().insert(id),
            final(self).room_members.view() == old(self).room_members.view(),
    {
        self.connections.register(id, outbox);
    }

    /// Subscribes session `id` to `room`.
    pub fn join_room(&mut self, room: String, id: u128)
        ensures
            final(self).room_members.view() == crate::membership::with_member(
                old(self).room_members.view(),
                room@,
                id,
            ),
            final(self).connections.view() == old(self).connections.view(),
    {
        self.room_members.join(room, id);
    }

    /// Removes every trace of session `id`: its connection entry and its
    /// place in every room.
    pub fn cleanup(&mut self, id: u128)
        ensures
            final(self).connections.view() == old(self).connections.view().remove(id),
            final(self).room_members.view() == without_session(old(self).room_members.view(), id),
            !final(self).connections.view().contains(id),
            forall|room: Seq<char>| #[trigger]
                final(self).room_members.view().dom().contains(room)
                    ==> !final(self).room_members.view()[room].contains(id),
    {
        self.connections.unregister(id);
        self.room_members.leave_all(id);
    }

    /// Pushes `frame` to the channel of each session in `targets`, in order,
    /// skipping the sender and sessions that are no longer connected. A channel
    /// that refuses the frame affects no other; nothing is retried.
    /// Returns the sessions whose channel was found.
    pub fn deliver(&self, targets: &Vec<u128>, frame: &String, sender: u128) -> (r: Vec<u128>)
        ensures
            r@ == targets@.filter(reached(self.connections.view(), sender)),
            forall|id: u128|
                r@.contains(id) <==> (targets@.contains(id) && id != sender
                    && self.connections.view().contains(id)),
            targets@.no_duplicates() ==> r@.no_duplicates(),
    {
        let ghost pred = reached(self.connections.view(), sender);
        let mut out: Vec<u128> = Vec::new();
        let mut i: usize = 0;
        assert(targets@.subrange(0, 0) =~= Seq::<u128>::empty());
        while i < targets.len()
            invariant
                0 <= i <= targets.len(),
                pred == reached(self.connections.view(), sender),
                out@ == targets@.subrange(0, i as int).filter(pred),
                forall|id: u128|
                    out@.contains(id) <==> (targets@.subrange(0, i as int).contains(id) && pred(
                        id,
                    )),
                targets@.no_duplicates() ==> out@.no_duplicates(),
            decreases targets.len() - i,
        {
            broadcast use vstd::seq_lib::lemma_seq_contains_after_push;

            let id = targets[i];
            let ghost prefix = targets@.subrange(0, i as int);
            proof {
                assert(targets@.subrange(0, i + 1) =~= prefix.push(id));
                prefix.lemma_filter_push(id, pred);
            }
            if id != sender {
                if let Some(outbox) = self.connections.lookup(id) {
                    let _ = push_frame(&outbox, frame.clone());
                    let ghost before = out@;
                    out.push(id);
                    proof {
                        if targets@.no_duplicates() {
                            assert(!prefix.contains(id));
                            assert forall|a: int, b: int|
                                0 <= a < b < out@.len() implies out@[a] != out@[b] by {
                                if b == before.len() {
                                    assert(before[a] == out@[a]);
                                    assert(before.contains(out@[a]));
                                }
                            }
                        }
                    }
                }
            }
            i = i + 1;
        }
        assert(targets@.subrange(0, i as int) =~= targets@);
        out
    }

    /// Fans `frame` out to the members of `room` as they stand now, except the
    /// sender, through the channels of those still connected. A room without
    /// members, or without an entry, reaches nobody and is no error.
    /// Returns the sessions whose channel was found, each once.
    pub fn publish(&self, room: &str, frame: &String, sender: u128) -> (r: Vec<u128>)
        ensures
            r@.to_set() == members_in(self.room_members.view(), room@).filter(
                reached(self.connections.view(), sender),
            ),
            r@.no_duplicates(),
    {
        let snapshot = self.room_members.members_of(room);
        let r = self.deliver(&snapshot, frame, sender);
        assert(r@.to_set() =~= members_in(self.room_members.view(), room@).filter(
            reached(self.connections.view(), sender),
        ));
        r
    }
}

/// A session is in the filtered sequence exactly when it is in `s` and passes
/// `p`.
proof fn lemma_filter_has(s: Seq<u128>, p: spec_fn(u128) -> bool, x: u128)
    ensures
        s.filter(p).contains(x) <==> (s.contains(x) && p(x)),
{
    if s.filter(p).contains(x) {
        s.lemma_filter_contains_rev(p, x);
        let k = choose|k: int| 0 <= k < s.filter(p).len() && s.filter(p)[k] == x;
        s.lemma_filter_pred(p, k);
    }
    if s.contains(x) && p(x) {
        let i = choose|i: int| 0 <= i < s.len() && s[i] == x;
        s.lemma_filter_contains(p, i);
    }
}

/// A member that goes away after a snapshot was taken only drops out of the
/// delivery over that snapshot: every other session that the snapshot would
/// have reached is still reached, and nothing fails.
pub proof fn lemma_departure_spares_other_recipients(
    targets: Seq<u128>,
    live: Set<u128>,
    gone: u128,
    sender: u128,
)
    ensures
        forall|m: u128|
            #[trigger] targets.filter(reached(live.remove(gone), sender)).contains(m) <==> (
            targets.filter(reached(live, sender)).contains(m) && m != gone),
{
    assert forall|m: u128|
        #[trigger] targets.filter(reached(live.remove(gone), sender)).contains(m) <==> (
        targets.filter(reached(live, sender)).contains(m) && m != gone) by {
        lemma_filter_has(targets, reached(live.remove(gone), sender), m);
        lemma_filter_has(targets, reached(live, sender), m);
    }
}

/// A session whose cleanup has run is reached by no later fan-out, whatever
/// the room and whoever sends.
pub proof fn lemma_departed_session_is_not_reached(
    live: Set<u128>,
    rooms: Map<Seq<char>, Set<u128>>,
    gone: u128,
    room: Seq<char>,
    sender: u128,
)
    ensures
        !members_in(without_session(rooms, gone), room).filter(
            reached(live.remove(gone), sender),
        ).contains(gone),
{
}

} // verus!
