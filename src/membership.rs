//! Which sessions are subscribed to which room.
use vstd::prelude::*;

use dashmap::{DashMap, DashSet};

verus! {

#[verifier::external_type_specification]
#[verifier::external_body]
#[verifier::reject_recursive_types(K)]
#[verifier::reject_recursive_types(S)]
pub struct ExDashSet<K, S>(dashmap::DashSet<K, S>);

/// Rooms, each with the set of its members.
pub type RoomTable = DashMap<String, DashSet<u128>>;

/// What a room table holds: each room that has an entry, with its members.
pub uninterp spec fn room_sets(m: RoomTable) -> Map<Seq<char>, Set<u128>>;

/// The members of `room`; a room without an entry has none.
pub open spec fn members_in(t: Map<Seq<char>, Set<u128>>, room: Seq<char>) -> Set<u128> {
    if t.dom().contains(room) {
        t[room]
    } else {
        Set::empty()
    }
}

/// `t` once `id` has joined `room`: the room's entry is made when missing.
pub open spec fn with_member(t: Map<Seq<char>, Set<u128>>, room: Seq<char>, id: u128) -> Map<
    Seq<char>,
    Set<u128>,
> {
    t.insert(room, members_in(t, room).insert(id))
}

/// `t` once `id` has left `room`; the entry itself stays, empty or not.
pub open spec fn without_member(t: Map<Seq<char>, Set<u128>>, room: Seq<char>, id: u128) -> Map<
    Seq<char>,
    Set<u128>,
> {
    if t.dom().contains(room) {
        t.insert(room, t[room].remove(id))
    } else {
        t
    }
}

/// `t` once `id` has left every room.
pub open spec fn without_session(t: Map<Seq<char>, Set<u128>>, id: u128) -> Map<
    Seq<char>,
    Set<u128>,
> {
    t.map_values(|s: Set<u128>| s.remove(id))
}

/// Joining a room a second time changes nothing: the room keeps the members,
/// and so the size, that the first join gave it.
pub proof fn lemma_join_idempotent(t: Map<Seq<char>, Set<u128>>, room: Seq<char>, id: u128)
    ensures
        with_member(with_member(t, room, id), room, id) == with_member(t, room, id),
        members_in(with_member(with_member(t, room, id), room, id), room).len() == members_in(
            with_member(t, room, id),
            room,
        ).len(),
{
    let once = with_member(t, room, id);
    assert(members_in(once, room).insert(id) =~= members_in(once, room));
    assert(with_member(once, room, id) =~= once);
}

/// Relies on `DashMap::new`: a new map holds no entry.
#[verifier::external_body]
fn rooms_new() -> (r: RoomTable)
    ensures
        room_sets(r) =~= Map::empty(),
{
    DashMap::new()
}

/// Relies on `DashMap::entry`, `Entry::or_default` and `DashSet::insert`: the
/// room's set is made empty when the room has no entry, then `id` is added.
#[verifier::external_body]
fn rooms_join(m: &mut RoomTable, room: String, id: u128)
    ensures
        room_sets(*final(m)) == with_member(room_sets(*old(m)), room@, id),
{
    m.entry(room).or_default().insert(id);
}

/// Relies on `DashMap::get` and `DashSet::remove`: `id` leaves the set of
/// `room` when the room has an entry; nothing else changes.
#[verifier::external_body]
fn rooms_leave(m: &mut RoomTable, room: &str, id: u128)
    ensures
        room_sets(*final(m)) == without_member(room_sets(*old(m)), room@, id),
{
    if let Some(members) = m.get(room) {
        members.remove(&id);
    }
}

/// Relies on `DashMap::iter`: it visits each entry once.
#[verifier::external_body]
fn rooms_keys(m: &RoomTable) -> (r: Vec<String>)
    ensures
        r@.map_values(|k: String| k@).to_set() == room_sets(*m).dom(),
{
    m.iter().map(|entry| entry.key().clone()).collect()
}

/// Relies on `DashMap::get` and `DashSet::iter`: a copy of the set of `room`,
/// each member once; none when the room has no entry.
#[verifier::external_body]
fn rooms_snapshot(m: &RoomTable, room: &str) -> (r: Vec<u128>)
    ensures
        r@.to_set() == members_in(room_sets(*m), room@),
        r@.no_duplicates(),
{
    match m.get(room) {
        Some(members) => members.iter().map(|member| *member.key()).collect(),
        None => Vec::new(),
    }
}

/// Relies on `DashMap::contains_key`: whether the room has an entry.
#[verifier::external_body]
fn rooms_has(m: &RoomTable, room: &str) -> (r: bool)
    ensures
        r == room_sets(*m).dom().contains(room@),
{
    m.contains_key(room)
}

/// Maps each room to the sessions subscribed to it. Rooms come into being on
/// the first join and stay, possibly empty.
pub struct RoomMembership {
    rooms: RoomTable,
}

impl RoomMembership {
    /// Each room that has an entry, with its members.
    pub closed spec fn view(&self) -> Map<Seq<char>, Set<u128>> {
        room_sets(self.rooms)
    }

    /// No rooms.
    pub fn new() -> (r: Self)
        ensures
            r.view() == Map::<Seq<char>, Set<u128>>::empty(),
    {
        RoomMembership { rooms: rooms_new() }
    }

    /// Adds `id` to `room`, making the room if needed; joining twice is the
    /// same as joining once.
    pub fn join(&mut self, room: String, id: u128)
        ensures
            final(self).view() == with_member(old(self).view(), room@, id),
    {
        rooms_join(&mut self.rooms, room, id);
    }

    /// Removes `id` from `room` only; nothing happens when it is not there.
    pub fn leave(&mut self, room: &str, id: u128)
        ensures
            final(self).view() == without_member(old(self).view(), room@, id),
    {
        rooms_leave(&mut self.rooms, room, id);
    }

    /// Removes `id` from every room, visiting each room once.
    pub fn leave_all(&mut self, id: u128)
        ensures
            final(self).view() == without_session(old(self).view(), id),
    {
        let ghost start = self.view();
        let keys = rooms_keys(&self.rooms);
        let ghost mut done: Set<Seq<char>> = Set::empty();
        let mut i: usize = 0;
        while i < keys.len()
            invariant
                0 <= i <= keys.len(),
                keys@.map_values(|k: String| k@).to_set() == start.dom(),
                self.view().dom() == start.dom(),
                forall|j: int| 0 <= j < i ==> done.contains(#[trigger] keys@[j]@),
                forall|r: Seq<char>| #[trigger]
                    start.dom().contains(r) ==> self.view()[r] == (if done.contains(r) {
                        start[r].remove(id)
                    } else {
                        start[r]
                    }),
            decreases keys.len() - i,
        {
            proof {
                assert(keys@.map_values(|k: String| k@)[i as int] == keys@[i as int]@);
                assert(keys@.map_values(|k: String| k@).to_set().contains(keys@[i as int]@));
            }
            rooms_leave(&mut self.rooms, keys[i].as_str(), id);
            proof {
                let k = keys@[i as int]@;
                done = done.insert(k);
                assert forall|r: Seq<char>| #[trigger]
                    start.dom().contains(r) implies self.view()[r] == (if done.contains(r) {
                        start[r].remove(id)
                    } else {
                        start[r]
                    }) by {
                    if r == k {
                        assert(start[r].remove(id).remove(id) =~= start[r].remove(id));
                    }
                }
                assert(self.view().dom() =~= start.dom());
            }
            i = i + 1;
        }
        proof {
            assert forall|r: Seq<char>| #[trigger] start.dom().contains(r) implies done.contains(
                r,
            ) by {
                let ks = keys@.map_values(|k: String| k@);
                assert(ks.to_set().contains(r));
                let j = choose|j: int| 0 <= j < ks.len() && ks[j] == r;
                assert(keys@[j]@ == r);
            }
            assert(self.view() =~= without_session(start, id));
        }
    }

    /// Whether `room` has an entry, members or not.
    pub fn has_room(&self, room: &str) -> (r: bool)
        ensures
            r == self.view().dom().contains(room@),
    {
        rooms_has(&self.rooms, room)
    }

    /// A copy of the members of `room`, each once, taken now and independent
    /// of later changes.
    pub fn members_of(&self, room: &str) -> (r: Vec<u128>)
        ensures
            r@.to_set() == members_in(self.view(), room@),
            r@.no_duplicates(),
    {
        rooms_snapshot(&self.rooms, room)
    }
}

} // verus!
