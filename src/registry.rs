//! Sessions that are connected, each with the channel its writer drains.
use vstd::prelude::*;

use dashmap::DashMap;
use tokio::sync::mpsc::UnboundedSender;

verus! {

#[verifier::external_type_specification]
#[verifier::external_body]
#[verifier::reject_recursive_types(K)]
#[verifier::reject_recursive_types(V)]
#[verifier::reject_recursive_types(S)]
pub struct ExDashMap<K, V, S>(dashmap::DashMap<K, V, S>);

#[verifier::external_type_specification]
#[verifier::external_body]
#[verifier::reject_recursive_types(T)]
pub struct ExUnboundedSender<T>(tokio::sync::mpsc::UnboundedSender<T>);

/// The outbound channel of one session: frames pushed here reach its writer.
pub type Outbox = UnboundedSender<String>;

/// The sessions that hold an entry in a connection table.
pub uninterp spec fn live_sessions(m: DashMap<u128, Outbox>) -> Set<u128>;

/// Relies on `DashMap::new`: a new map holds no entry.
#[verifier::external_body]
fn table_new() -> (r: DashMap<u128, Outbox>)
    ensures
        live_sessions(r) =~= Set::empty(),
{
    DashMap::new()
}

/// Relies on `DashMap::insert`: afterwards the key has an entry (an earlier
/// value under the same key is replaced), other keys keep theirs.
#[verifier::external_body]
fn table_insert(m: &mut DashMap<u128, Outbox>, id: u128, outbox: Outbox)
    ensures
        live_sessions(*final(m)) == live_sessions(*old(m)).insert(id),
{
    m.insert(id, outbox);
}

/// Relies on `DashMap::remove`: afterwards the key has no entry, other keys
/// keep theirs; an absent key leaves the map as it was.
#[verifier::external_body]
fn table_remove(m: &mut DashMap<u128, Outbox>, id: u128)
    ensures
        live_sessions(*final(m)) == live_sessions(*old(m)).remove(id),
{
    m.remove(&id);
}

/// Relies on `DashMap::get`: a value is found exactly for a key that has an
/// entry; the sender handed back is a clone of the stored one.
#[verifier::external_body]
fn table_get(m: &DashMap<u128, Outbox>, id: u128) -> (r: Option<Outbox>)
    ensures
        r is Some <==> live_sessions(*m).contains(id),
{
    m.get(&id).map(|entry| entry.value().clone())
}

/// Relies on `UnboundedSender::send`: it never waits; it fails when the
/// receiving side is gone. Whether it fails is not known here.
#[verifier::external_body]
pub(crate) fn push_frame(outbox: &Outbox, frame: String) -> (sent: bool) {
    outbox.send(frame).is_ok()
}

/// Maps each session that is connected to the channel of its writer.
pub struct ConnectionRegistry {
    table: DashMap<u128, Outbox>,
}

impl ConnectionRegistry {
    /// The sessions that hold an entry.
    pub closed spec fn view(&self) -> Set<u128> {
        live_sessions(self.table)
    }

    /// An empty registry.
    pub fn new() -> (r: Self)
        ensures
            r.view() == Set::<u128>::empty(),
    {
        ConnectionRegistry { table: table_new() }
    }

    /// Installs the channel of `id`, replacing one that was there.
    pub fn register(&mut self, id: u128, outbox: Outbox)
        ensures
            final(self).view() == old(self).view().insert(id),
    {
        table_insert(&mut self.table, id, outbox);
    }

    /// Removes the entry of `id`; nothing happens when there is none.
    pub fn unregister(&mut self, id: u128)
        ensures
            final(self).view() == old(self).view().remove(id),
    {
        table_remove(&mut self.table, id);
    }

    /// The channel of `id`, or `None` once that session is gone.
    pub fn lookup(&self, id: u128) -> (r: Option<Outbox>)
        ensures
            r is Some <==> self.view().contains(id),
    {
        table_get(&self.table, id)
    }

    /// Whether `id` holds an entry.
    pub fn contains(&self, id: u128) -> (r: bool)
        ensures
            r == self.view().contains(id),
    {
        let found = table_get(&self.table, id);
        found.is_some()
    }
}

} // verus!
