//! The process-wide constructor registry.
//!
//! A registry maps a runtime type token to the constructor able to produce a
//! value of that type. Tokens and constructors are identified by `u64` ids:
//! a token id stands for one concrete type for the whole process, and a
//! constructor id names one constructor function. The table itself is the
//! host platform's hash map, reached only through the trusted wrappers below.

use vstd::prelude::*;

verus! {

/// Declares bevy_platform::hash::FixedHasher, the platform hash map's default
/// hasher, so the map type below can be named in signatures and fields.
#[verifier::external_type_specification]
#[verifier::external_body]
pub struct ExFixedHasher(bevy_platform::hash::FixedHasher);

/// Declares bevy_platform::collections::HashMap, the table the registry is
/// built on. The type is opaque here: everything known of a table's contents
/// comes from the wrappers below.
#[verifier::external_type_specification]
#[verifier::external_body]
#[verifier::reject_recursive_types(K)]
#[verifier::reject_recursive_types(V)]
#[verifier::reject_recursive_types(S)]
pub struct ExHashMap<K, V, S>(bevy_platform::collections::HashMap<K, V, S>);

/// The entries the table holds, as a mathematical map from token id to
/// constructor id. Every wrapper below states its effect over this map.
pub uninterp spec fn table_contents(m: bevy_platform::collections::HashMap<u64, u64>) -> Map<
    u64,
    u64,
>;

/// Relies on bevy_platform::collections::HashMap::new: the new table is empty.
#[verifier::external_body]
fn table_new() -> (r: bevy_platform::collections::HashMap<u64, u64>)
    ensures
        table_contents(r) == (Map::<u64, u64>::empty()),
{
    bevy_platform::collections::HashMap::new()
}

/// Relies on bevy_platform::collections::HashMap::insert: maps the key to the
/// value, replacing the earlier entry for that key if there was one.
#[verifier::external_body]
fn table_insert(m: &mut bevy_platform::collections::HashMap<u64, u64>, k: u64, v: u64)
    ensures
        table_contents(*final(m)) == table_contents(*old(m)).insert(k, v),
{
    m.insert(k, v);
}

/// Relies on bevy_platform::collections::HashMap::get: returns the value the
/// key is mapped to, and nothing for an absent key.
#[verifier::external_body]
fn table_get(m: &bevy_platform::collections::HashMap<u64, u64>, k: u64) -> (r: Option<u64>)
    ensures
        r == if table_contents(*m).contains_key(k) {
            Some(table_contents(*m)[k])
        } else {
            None::<u64>
        },
{
    m.get(&k).copied()
}

/// Relies on bevy_platform::collections::HashMap::contains_key: reports
/// whether the map holds an entry for the key.
#[verifier::external_body]
fn table_contains(m: &bevy_platform::collections::HashMap<u64, u64>, k: u64) -> (r: bool)
    ensures
        r == table_contents(*m).contains_key(k),
{
    m.contains_key(&k)
}

/// The registry: a flat table from runtime type token to constructor.
///
/// Entries are written during a single-threaded setup phase and read during
/// the exclusive-access apply phase; re-registering a token silently replaces
/// the earlier constructor (last write wins). Nothing is ever removed.
pub struct ErasedComponentRegistry {
    table: bevy_platform::collections::HashMap<u64, u64>,
}

impl View for ErasedComponentRegistry {
    type V = Map<u64, u64>;

    closed spec fn view(&self) -> Map<u64, u64> {
        table_contents(self.table)
    }
}

impl ErasedComponentRegistry {
    /// An empty registry: no token is registered.
    pub fn new() -> (r: ErasedComponentRegistry)
        ensures
            r@ == (Map::<u64, u64>::empty()),
    {
        ErasedComponentRegistry { table: table_new() }
    }

    /// Inserts or overwrites the mapping from `token` to `constructor`.
    pub fn register(&mut self, token: u64, constructor: u64)
        ensures
            final(self)@ == old(self)@.insert(token, constructor),
    {
        table_insert(&mut self.table, token, constructor);
    }

    /// Pure lookup: the constructor registered for `token`, or nothing if the
    /// token is unregistered.
    pub fn get_constructor(&self, token: u64) -> (r: Option<u64>)
        ensures
            r == if self@.contains_key(token) {
                Some(self@[token])
            } else {
                None::<u64>
            },
    {
        table_get(&self.table, token)
    }

    /// Pure membership test: whether a constructor is registered for `token`.
    pub fn is_registered(&self, token: u64) -> (r: bool)
        ensures
            r == self@.contains_key(token),
    {
        table_contains(&self.table, token)
    }
}

impl Default for ErasedComponentRegistry {
    /// An empty registry, as `new` gives.
    fn default() -> (r: Self)
        ensures
            r@ == (Map::<u64, u64>::empty()),
    {
        ErasedComponentRegistry::new()
    }
}

} // verus!
