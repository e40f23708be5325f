use vstd::prelude::*;
use std::collections::HashMap;
use crate::connection::ModbusConnection;

verus! {

broadcast use vstd::std_specs::hash::group_hash_axioms;

/// Identifier of a registered connection. Identifiers are supplied by the
/// caller; the registry never generates them and never checks them for
/// uniqueness beyond the one-entry-per-identifier map invariant.
pub type ConnectionId = u32;

/// The registry of live connections: a mapping from caller-supplied
/// identifier to connection, with at most one entry per identifier. Adding
/// under an existing identifier replaces the entry; the prior connection
/// simply becomes unreachable from the registry, while any channel handle a
/// caller cloned from it earlier stays usable until dropped. The surrounding
/// application shares one manager among all callers behind a reader/writer
/// lock; the manager itself is a plain map.
pub struct ModbusConnectionManager {
    connections: HashMap<ConnectionId, ModbusConnection>,
}

impl View for ModbusConnectionManager {
    type V = Map<ConnectionId, ModbusConnection>;

    closed spec fn view(&self) -> Map<ConnectionId, ModbusConnection> {
        self.connections@
    }
}

impl ModbusConnectionManager {
    /// Creates an empty registry.
    pub fn new() -> (r: Self)
        ensures
            r@ == Map::<ConnectionId, ModbusConnection>::empty(),
    {
        ModbusConnectionManager { connections: HashMap::new() }
    }

    /// Inserts the connection under `id`, replacing whatever entry was there.
    /// Insertion is unconditional and has no failure mode.
    pub fn add_connection(&mut self, id: ConnectionId, connection: ModbusConnection)
        ensures
            final(self)@ == old(self)@.insert(id, connection),
    {
        self.connections.insert(id, connection);
    }

    /// Removes the entry under `id` if one exists; absent identifiers are a
    /// no-op, never an error.
    pub fn remove_connection(&mut self, id: ConnectionId)
        ensures
            final(self)@ == old(self)@.remove(id),
    {
        self.connections.remove(&id);
    }

    /// Looks up the connection registered under `id`, or nothing when the
    /// identifier has no entry. Lookups never change the registry.
    pub fn get_connection(&self, id: ConnectionId) -> (r: Option<&ModbusConnection>)
        ensures
            match r {
                Some(c) => self@.contains_key(id) && *c == self@[id],
                None => !self@.contains_key(id),
            },
    {
        self.connections.get(&id)
    }
}

/// One mutation of the registry, for stating laws over whole histories of
/// operations.
pub enum RegistryOp<V> {
    Add { id: ConnectionId, value: V },
    Remove { id: ConnectionId },
}

/// The map that results from applying one operation.
pub open spec fn apply_op<V>(m: Map<ConnectionId, V>, op: RegistryOp<V>) -> Map<ConnectionId, V> {
    match op {
        RegistryOp::Add { id, value } => m.insert(id, value),
        RegistryOp::Remove { id } => m.remove(id),
    }
}

/// The map that results from applying a whole history of operations in order.
pub open spec fn apply_ops<V>(m: Map<ConnectionId, V>, ops: Seq<RegistryOp<V>>) -> Map<
    ConnectionId,
    V,
>
    decreases ops.len(),
{
    if ops.len() == 0 {
        m
    } else {
        apply_op(apply_ops(m, ops.drop_last()), ops.last())
    }
}

/// The entry a history leaves under `id`: the value of the most recent add of
/// `id` not followed by a remove of `id`, or the starting entry when the
/// history never touches `id`, or nothing.
pub open spec fn latest_entry<V>(
    m: Map<ConnectionId, V>,
    ops: Seq<RegistryOp<V>>,
    id: ConnectionId,
) -> Option<V>
    decreases ops.len(),
{
    if ops.len() == 0 {
        if m.contains_key(id) {
            Some(m[id])
        } else {
            None
        }
    } else {
        match ops.last() {
            RegistryOp::Add { id: i, value } => if i == id {
                Some(value)
            } else {
                latest_entry(m, ops.drop_last(), id)
            },
            RegistryOp::Remove { id: i } => if i == id {
                None
            } else {
                latest_entry(m, ops.drop_last(), id)
            },
        }
    }
}

/// Registry identity law: after any history of adds and removes, a lookup of
/// `id` returns exactly the most recently added value for `id`, or nothing
/// when `id` was never added or was last removed.
pub proof fn lemma_registry_identity<V>(
    m: Map<ConnectionId, V>,
    ops: Seq<RegistryOp<V>>,
    id: ConnectionId,
)
    ensures
        apply_ops(m, ops).contains_key(id) <==> latest_entry(m, ops, id) is Some,
        apply_ops(m, ops).contains_key(id) ==> Some(apply_ops(m, ops)[id]) == latest_entry(
            m,
            ops,
            id,
        ),
    decreases ops.len(),
{
    if ops.len() > 0 {
        lemma_registry_identity(m, ops.drop_last(), id);
    }
}

/// Replacement law: adding `value` under an identifier that already has an
/// entry replaces that entry, so a lookup now yields `value`; every other
/// identifier's entry is untouched, and the displaced value itself is
/// unchanged for anyone still holding it.
pub proof fn lemma_replacement<V>(m: Map<ConnectionId, V>, id: ConnectionId, value: V)
    requires
        m.contains_key(id),
    ensures
        apply_op(m, RegistryOp::Add { id, value }).contains_key(id),
        apply_op(m, RegistryOp::Add { id, value })[id] == value,
        forall|other: ConnectionId|
            other != id ==> (#[trigger] apply_op(m, RegistryOp::Add { id, value }).contains_key(
                other,
            ) <==> m.contains_key(other)),
        forall|other: ConnectionId|
            other != id && m.contains_key(other) ==> #[trigger] apply_op(
                m,
                RegistryOp::Add { id, value },
            )[other] == m[other],
{
}

} // verus!
