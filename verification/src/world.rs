//! A model of the world the insertion path mutates, and the deferred command
//! queue it is driven by.
//!
//! The host store is modelled by the pieces of it the insertion path reads and
//! writes: the registry, the table of declared component types (token id to
//! storage slot id), and per-entity component storage (entity id to a map from
//! slot id to the constructor id that built the occupant). Slot and entity ids
//! are dense: the next id handed out is the current count, as the host's own
//! id allocation works.

use crate::registry::ErasedComponentRegistry;
use std::collections::HashMap;
use vstd::prelude::*;

verus! {

broadcast use vstd::std_specs::hash::group_hash_axioms;

/// One deferred mutation request: attach the component type named by `token`
/// to `entity`.
#[derive(Clone, Copy, PartialEq, Eq, Structural, Debug)]
pub struct InsertRequest {
    pub entity: u64,
    pub token: u64,
}

/// A type-erased value, as the insertion path sees it: the token of the
/// concrete type it holds, and the constructor that built it. Exclusively
/// owned from the constructor's return until it is moved into storage.
#[derive(Clone, Copy, PartialEq, Eq, Structural, Debug)]
pub struct ErasedValue {
    pub token: u64,
    pub ctor: u64,
}

/// The state of the world the insertion path observes: the registry's
/// entries, the declared component types with their storage slots, and each
/// spawned entity's components, each component recorded as the constructor id
/// that built it, keyed by storage slot.
#[verifier::ext_equal]
pub ghost struct WorldSnapshot {
    pub registry: Map<u64, u64>,
    pub slots: Map<u64, u64>,
    pub storage: Map<u64, Map<u64, u64>>,
}

/// Well-formedness of a world: slot ids are dense (below the count of
/// declared types) and distinct types have distinct slots; entity ids are
/// dense likewise.
pub open spec fn snapshot_wf(w: WorldSnapshot) -> bool {
    &&& forall|t: u64| w.slots.contains_key(t) ==> #[trigger] w.slots[t] < w.slots.len()
    &&& forall|t1: u64, t2: u64|
        w.slots.contains_key(t1) && w.slots.contains_key(t2) && t1 != t2 ==> #[trigger] w.slots[t1]
            != #[trigger] w.slots[t2]
    &&& forall|e: u64| #[trigger] w.storage.contains_key(e) ==> e < w.storage.len()
}

/// What one applied request may demand of the world: an unregistered token
/// demands nothing (the request is skipped); a registered one demands that
/// the type was declared to the store (else the host aborts) and that the
/// entity is spawned.
pub open spec fn req_ok(w: WorldSnapshot, r: InsertRequest) -> bool {
    w.registry.contains_key(r.token) ==> {
        &&& w.slots.contains_key(r.token)
        &&& w.storage.contains_key(r.entity)
    }
}

pub open spec fn reqs_ok(w: WorldSnapshot, rs: Seq<InsertRequest>) -> bool {
    forall|i: int| 0 <= i < rs.len() ==> req_ok(w, #[trigger] rs[i])
}

/// The effect of applying one request: an unregistered token is silently
/// skipped; a registered one overwrites the entity's component at the token's
/// slot with a value built by the registered constructor.
pub open spec fn apply_one(w: WorldSnapshot, r: InsertRequest) -> WorldSnapshot {
    if w.registry.contains_key(r.token) {
        WorldSnapshot {
            storage: w.storage.insert(
                r.entity,
                w.storage[r.entity].insert(w.slots[r.token], w.registry[r.token]),
            ),
            ..w
        }
    } else {
        w
    }
}

/// The effect of applying a batch, first request first.
pub open spec fn apply_seq(w: WorldSnapshot, rs: Seq<InsertRequest>) -> WorldSnapshot
    decreases rs.len(),
{
    if rs.len() == 0 {
        w
    } else {
        apply_one(apply_seq(w, rs.drop_last()), rs.last())
    }
}

/// The deferred-mutation queue: requests are recorded in order by producers
/// and applied first-in first-out by the exclusive apply phase. Once queued,
/// a request cannot be withdrawn.
pub struct CommandQueue {
    requests: Vec<InsertRequest>,
}

impl View for CommandQueue {
    type V = Seq<InsertRequest>;

    closed spec fn view(&self) -> Seq<InsertRequest> {
        self.requests@
    }
}

impl CommandQueue {
    /// An empty queue.
    pub fn new() -> (q: CommandQueue)
        ensures
            q@ == Seq::<InsertRequest>::empty(),
    {
        CommandQueue { requests: Vec::new() }
    }

    /// Records a deferred request to attach the component type named by
    /// `token` to `entity`. Nothing is resolved or checked here: the token is
    /// looked up only when the queue is applied.
    pub fn insert_component_by_type_token(&mut self, entity: u64, token: u64)
        ensures
            final(self)@ == old(self)@.push(InsertRequest { entity, token }),
    {
        self.requests.push(InsertRequest { entity, token });
    }

    /// How many requests are queued.
    pub fn len(&self) -> (n: usize)
        ensures
            n == self@.len(),
    {
        self.requests.len()
    }
}

/// The world model: the registry, the declared component types, and the
/// spawned entities' component storage.
pub struct WorldModel {
    registry: ErasedComponentRegistry,
    slots: HashMap<u64, u64>,
    storage: HashMap<u64, HashMap<u64, u64>>,
}

impl View for WorldModel {
    type V = WorldSnapshot;

    closed spec fn view(&self) -> WorldSnapshot {
        WorldSnapshot {
            registry: self.registry@,
            slots: self.slots@,
            storage: Map::new(
                |e: u64| self.storage@.contains_key(e),
                |e: u64| self.storage@[e]@,
            ),
        }
    }
}

impl WorldModel {
    /// A fresh world: nothing registered, nothing declared, nothing spawned.
    pub fn new() -> (w: WorldModel)
        ensures
            snapshot_wf(w@),
            w@ == (WorldSnapshot {
                registry: Map::<u64, u64>::empty(),
                slots: Map::<u64, u64>::empty(),
                storage: Map::<u64, Map<u64, u64>>::empty(),
            }),
    {
        let w = WorldModel {
            registry: ErasedComponentRegistry::new(),
            slots: HashMap::new(),
            storage: HashMap::new(),
        };
        proof {
            assert(w@ =~= WorldSnapshot {
                registry: Map::<u64, u64>::empty(),
                slots: Map::<u64, u64>::empty(),
                storage: Map::<u64, Map<u64, u64>>::empty(),
            });
        }
        w
    }

    /// Inserts or overwrites the registry mapping from `token` to
    /// `constructor`. Expected only during the single-threaded setup phase.
    pub fn register(&mut self, token: u64, constructor: u64)
        ensures
            final(self)@ == (WorldSnapshot {
                registry: old(self)@.registry.insert(token, constructor),
                ..old(self)@
            }),
    {
        self.registry.register(token, constructor);
        proof {
            assert(final(self)@ =~= WorldSnapshot {
                registry: old(self)@.registry.insert(token, constructor),
                ..old(self)@
            });
        }
    }

    /// Whether a constructor is registered for `token`.
    pub fn is_registered(&self, token: u64) -> (r: bool)
        ensures
            r == self@.registry.contains_key(token),
    {
        self.registry.is_registered(token)
    }

    /// The constructor registered for `token`, or nothing.
    pub fn get_constructor(&self, token: u64) -> (r: Option<u64>)
        ensures
            r == if self@.registry.contains_key(token) {
                Some(self@.registry[token])
            } else {
                None::<u64>
            },
    {
        self.registry.get_constructor(token)
    }

    /// Declares the component type named by `token` to the store's
    /// type-storage system and returns its storage slot id. Declaring a type
    /// twice returns the slot it already has; a new type gets the next dense
    /// slot id.
    pub fn declare_type(&mut self, token: u64) -> (slot: u64)
        requires
            snapshot_wf(old(self)@),
        ensures
            snapshot_wf(final(self)@),
            old(self)@.slots.contains_key(token) ==> slot == old(self)@.slots[token] && final(self)@
                == old(self)@,
            !old(self)@.slots.contains_key(token) ==> slot as nat == old(self)@.slots.len()
                && final(self)@ == (WorldSnapshot {
                slots: old(self)@.slots.insert(token, slot),
                ..old(self)@
            }),
    {
        if self.slots.contains_key(&token) {
            match self.slots.get(&token) {
                Some(s) => *s,
                None => vstd::pervasive::unreached(),
            }
        } else {
            let slot = self.slots.len() as u64;
            self.slots.insert(token, slot);
            proof {
                assert(self@ =~= WorldSnapshot {
                    slots: old(self)@.slots.insert(token, slot),
                    ..old(self)@
                });
                assert(self@.slots.dom() =~= old(self)@.slots.dom().insert(token));
            }
            slot
        }
    }

    /// The storage slot id the store assigned to `token`, or nothing if the
    /// type was never declared.
    pub fn get_slot(&self, token: u64) -> (r: Option<u64>)
        ensures
            r == if self@.slots.contains_key(token) {
                Some(self@.slots[token])
            } else {
                None::<u64>
            },
    {
        match self.slots.get(&token) {
            Some(s) => Some(*s),
            None => None,
        }
    }

    /// Spawns a fresh empty entity and returns its id.
    pub fn spawn_empty(&mut self) -> (e: u64)
        requires
            snapshot_wf(old(self)@),
        ensures
            snapshot_wf(final(self)@),
            !old(self)@.storage.contains_key(e),
            e as nat == old(self)@.storage.len(),
            final(self)@ == (WorldSnapshot {
                storage: old(self)@.storage.insert(e, Map::empty()),
                ..old(self)@
            }),
    {
        proof {
            assert(old(self)@.storage.dom() =~= old(self).storage@.dom());
            assert(old(self).storage@.dom().finite());
        }
        let e = self.storage.len() as u64;
        proof {
            assert(e as nat == old(self)@.storage.len());
            assert(!old(self)@.storage.contains_key(e));
        }
        let empty_cells: HashMap<u64, u64> = HashMap::new();
        self.storage.insert(e, empty_cells);
        proof {
            assert(self@.storage =~~= old(self)@.storage.insert(e, Map::empty()));
            assert(self@ =~= WorldSnapshot {
                storage: old(self)@.storage.insert(e, Map::empty()),
                ..old(self)@
            });
            assert(self@.storage.dom() =~= old(self)@.storage.dom().insert(e));
        }
        e
    }

    /// Whether `entity` has been spawned.
    pub fn is_spawned(&self, entity: u64) -> (r: bool)
        ensures
            r == self@.storage.contains_key(entity),
    {
        self.storage.contains_key(&entity)
    }

    /// Whether `entity` currently holds a component in storage slot `slot`.
    pub fn has_component(&self, entity: u64, slot: u64) -> (r: bool)
        ensures
            r == (self@.storage.contains_key(entity) && self@.storage[entity].contains_key(slot)),
    {
        match self.storage.get(&entity) {
            Some(cells) => cells.contains_key(&slot),
            None => false,
        }
    }

    /// The constructor that built the component `entity` holds in `slot`, or
    /// nothing if there is no such component.
    pub fn component_ctor(&self, entity: u64, slot: u64) -> (r: Option<u64>)
        ensures
            r == if self@.storage.contains_key(entity) && self@.storage[entity].contains_key(
                slot,
            ) {
                Some(self@.storage[entity][slot])
            } else {
                None::<u64>
            },
    {
        match self.storage.get(&entity) {
            Some(cells) => match cells.get(&slot) {
                Some(c) => Some(*c),
                None => None,
            },
            None => None,
        }
    }

    /// How many components `entity` holds.
    pub fn component_count(&self, entity: u64) -> (n: usize)
        requires
            self@.storage.contains_key(entity),
        ensures
            n == self@.storage[entity].len(),
    {
        match self.storage.get(&entity) {
            Some(cells) => cells.len(),
            None => vstd::pervasive::unreached(),
        }
    }

    /// Resolves the constructor for `token` and invokes it, yielding the
    /// type-erased value to move into storage, or nothing if the token is
    /// unregistered. The value's token always equals the token it was
    /// resolved from: that equality is what the raw move's safety rests on.
    fn construct(&self, token: u64) -> (r: Option<ErasedValue>)
        ensures
            r == if self@.registry.contains_key(token) {
                Some(ErasedValue { token, ctor: self@.registry[token] })
            } else {
                None::<ErasedValue>
            },
    {
        match self.registry.get_constructor(token) {
            Some(c) => Some(ErasedValue { token, ctor: c }),
            None => None,
        }
    }

    /// The raw move of an erased value into an entity's storage. The
    /// precondition is the safety argument of the host's unsafe insertion
    /// primitive: the value's actual type and the destination slot's declared
    /// type are the same token. Overwrites any prior component in the slot.
    fn insert_erased(&mut self, entity: u64, slot: u64, value: ErasedValue)
        requires
            snapshot_wf(old(self)@),
            old(self)@.slots.contains_key(value.token),
            old(self)@.slots[value.token] == slot,
            old(self)@.storage.contains_key(entity),
        ensures
            snapshot_wf(final(self)@),
            final(self)@ == (WorldSnapshot {
                storage: old(self)@.storage.insert(
                    entity,
                    old(self)@.storage[entity].insert(slot, value.ctor),
                ),
                ..old(self)@
            }),
    {
        let mut cells = match self.storage.remove(&entity) {
            Some(c) => c,
            None => vstd::pervasive::unreached(),
        };
        cells.insert(slot, value.ctor);
        self.storage.insert(entity, cells);
        proof {
            assert(self@.storage =~~= old(self)@.storage.insert(
                entity,
                old(self)@.storage[entity].insert(slot, value.ctor),
            ));
            assert(self@ =~= WorldSnapshot {
                storage: old(self)@.storage.insert(
                    entity,
                    old(self)@.storage[entity].insert(slot, value.ctor),
                ),
                ..old(self)@
            });
            assert(self@.storage.dom() =~= old(self)@.storage.dom());
        }
    }

    /// Applies one recorded request: resolve the token in the registry (skip
    /// silently if absent), invoke the constructor, resolve the storage slot,
    /// and move the erased value into the entity's storage.
    fn apply_insert(&mut self, r: InsertRequest)
        requires
            snapshot_wf(old(self)@),
            req_ok(old(self)@, r),
        ensures
            snapshot_wf(final(self)@),
            final(self)@ == apply_one(old(self)@, r),
    {
        match self.construct(r.token) {
            None => {
                // Unregistered token: the request is silently skipped.
            },
            Some(value) => {
                let slot = match self.get_slot(value.token) {
                    Some(s) => s,
                    None => vstd::pervasive::unreached(),
                };
                self.insert_erased(r.entity, slot, value);
            },
        }
    }

    /// Applies a whole batch of recorded requests, first request first,
    /// consuming the queue.
    pub fn apply(&mut self, queue: CommandQueue)
        requires
            snapshot_wf(old(self)@),
            reqs_ok(old(self)@, queue@),
        ensures
            snapshot_wf(final(self)@),
            final(self)@ == apply_seq(old(self)@, queue@),
    {
        let n = queue.requests.len();
        let mut i: usize = 0;
        while i < n
            invariant
                n == queue@.len(),
                i <= n,
                snapshot_wf(self@),
                reqs_ok(old(self)@, queue@),
                self@ == apply_seq(old(self)@, queue@.take(i as int)),
                self@.registry == old(self)@.registry,
                self@.slots == old(self)@.slots,
                self@.storage.dom() == old(self)@.storage.dom(),
            decreases n - i,
        {
            let r = queue.requests[i];
            proof {
                assert(req_ok(old(self)@, r));
                assert(req_ok(self@, r));
                assert(queue@.take(i + 1).drop_last() =~= queue@.take(i as int));
                assert(queue@.take(i + 1).last() == r);
            }
            let ghost prev = self@;
            self.apply_insert(r);
            proof {
                assert(self@ == apply_one(prev, r));
                assert(self@ == apply_seq(old(self)@, queue@.take(i + 1)));
                if prev.registry.contains_key(r.token) {
                    assert(self@.storage.dom() =~= prev.storage.dom());
                }
            }
            i += 1;
        }
        proof {
            assert(queue@.take(n as int) =~= queue@);
        }
    }
}

} // verus!

