use vstd::prelude::*;

verus! {

/// The concurrent map from dashmap, held opaquely; its contents are `routes_of`.
#[verifier::external_type_specification]
#[verifier::external_body]
#[verifier::reject_recursive_types(K)]
#[verifier::reject_recursive_types(V)]
#[verifier::reject_recursive_types(S)]
pub struct ExDashMap<K, V, S>(dashmap::DashMap<K, V, S>);

/// What a `DashMap` from identity to connection id holds.
pub uninterp spec fn routes_of(m: dashmap::DashMap<u128, u64>) -> Map<u128, u64>;

/// Relies on `DashMap::new`: the map starts empty.
#[verifier::external_body]
fn map_new() -> (r: dashmap::DashMap<u128, u64>)
    ensures
        routes_of(r) =~= Map::empty(),
{
    dashmap::DashMap::new()
}

/// Relies on `DashMap::insert`: the entry for `k` is set to `v`, others stay.
#[verifier::external_body]
fn map_insert(m: &mut dashmap::DashMap<u128, u64>, k: u128, v: u64)
    ensures
        routes_of(*final(m)) == routes_of(*old(m)).insert(k, v),
{
    m.insert(k, v);
}

/// Relies on `DashMap::get`: the value stored under `k`, if any.
#[verifier::external_body]
fn map_get(m: &dashmap::DashMap<u128, u64>, k: u128) -> (r: Option<u64>)
    ensures
        r == (if routes_of(*m).contains_key(k) {
            Some(routes_of(*m)[k])
        } else {
            None
        }),
{
    m.get(&k).map(|e| *e)
}

/// Relies on `DashMap::remove_if`: under one shard lock, the entry for `k` is
/// removed exactly when it exists and the predicate holds of its value.
#[verifier::external_body]
fn map_remove_if_conn(m: &mut dashmap::DashMap<u128, u64>, k: u128, conn: u64) -> (r: bool)
    ensures
        r == (routes_of(*old(m)).contains_key(k) && routes_of(*old(m))[k] == conn),
        routes_of(*final(m)) == (if r {
            routes_of(*old(m)).remove(k)
        } else {
            routes_of(*old(m))
        }),
{
    m.remove_if(&k, |_, v| same_conn(v, conn)).is_some()
}

/// Whether a stored route points at connection `conn`.
fn same_conn(stored: &u64, conn: u64) -> (r: bool)
    ensures
        r == (*stored == conn),
{
    *stored == conn
}

/// The routes left after the connection `conn`, authenticated as `user`,
/// withdraws its own entry: the entry goes only if it still points at `conn`.
pub open spec fn release(m: Map<u128, u64>, user: Option<u128>, conn: u64) -> Map<u128, u64> {
    match user {
        Some(id) => if m.contains_key(id) && m[id] == conn {
            m.remove(id)
        } else {
            m
        },
        None => m,
    }
}

/// Registering an identity again never adds a second entry for it: the
/// routes are those of the last registration alone, and a lookup yields its
/// connection.
pub proof fn lemma_one_route_per_identity(m: Map<u128, u64>, id: u128, first: u64, second: u64)
    ensures
        m.insert(id, first).insert(id, second) == m.insert(id, second),
        m.insert(id, first).insert(id, second).dom() == m.dom().insert(id),
        m.insert(id, first).insert(id, second)[id] == second,
{
    assert(m.insert(id, first).insert(id, second) =~= m.insert(id, second));
}

/// Registry of live peers: each identity routes to at most one connection,
/// named by the connection's id; the last registration wins. Changes take
/// `&mut self`, so connections that share one registry take turns on it.
pub struct PeerRegistry {
    peers: dashmap::DashMap<u128, u64>,
}

impl View for PeerRegistry {
    type V = Map<u128, u64>;

    closed spec fn view(&self) -> Map<u128, u64> {
        routes_of(self.peers)
    }
}

impl PeerRegistry {
    /// An empty registry.
    pub fn new() -> (r: PeerRegistry)
        ensures
            r@ =~= Map::empty(),
    {
        PeerRegistry { peers: map_new() }
    }

    /// Routes `id` to `conn`, silently replacing any earlier route for `id`.
    pub fn register(&mut self, id: u128, conn: u64)
        ensures
            final(self)@ == old(self)@.insert(id, conn),
    {
        map_insert(&mut self.peers, id, conn);
    }

    /// The connection that `id` routes to, if it is registered.
    pub fn lookup(&self, id: u128) -> (r: Option<u64>)
        ensures
            r == (if self@.contains_key(id) {
                Some(self@[id])
            } else {
                None
            }),
    {
        map_get(&self.peers, id)
    }

    /// Removes the route for `id` only if it still points at `conn`, so that a
    /// closing connection never removes the route of a newer one.
    pub fn unregister(&mut self, id: u128, conn: u64) -> (r: bool)
        ensures
            r == (old(self)@.contains_key(id) && old(self)@[id] == conn),
            final(self)@ == release(old(self)@, Some(id), conn),
    {
        map_remove_if_conn(&mut self.peers, id, conn)
    }
}

} // verus!
