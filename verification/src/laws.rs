//! The laws the registry and the insertion path obey, stated over the world
//! snapshot and proved from the definitions in [`crate::world`].

use crate::world::apply_one;
use crate::world::apply_seq;
use crate::world::req_ok;
use crate::world::snapshot_wf;
use crate::world::InsertRequest;
use crate::world::WorldSnapshot;
use vstd::prelude::*;

verus! {

/// Applying a batch of insertion requests never changes the registry or the
/// declared types: insertion only writes component storage.
pub proof fn lemma_apply_preserves_structure(w: WorldSnapshot, rs: Seq<InsertRequest>)
    ensures
        apply_seq(w, rs).registry == w.registry,
        apply_seq(w, rs).slots == w.slots,
    decreases rs.len(),
{
    if rs.len() != 0 {
        lemma_apply_preserves_structure(w, rs.drop_last());
    }
}

/// A token is registered immediately after registering it, and stays
/// registered: registering other tokens and applying any batch of insertions
/// never removes it. Nothing in the system removes a registry entry.
pub proof fn lemma_registration_persists(
    w: WorldSnapshot,
    token: u64,
    ctor: u64,
    rs: Seq<InsertRequest>,
)
    ensures
        ({
            let w1 = WorldSnapshot { registry: w.registry.insert(token, ctor), ..w };
            &&& w1.registry.contains_key(token)
            &&& forall|t2: u64, c2: u64|
                t2 != token ==> #[trigger] w1.registry.insert(t2, c2).contains_key(token)
            &&& apply_seq(w1, rs).registry == w1.registry
            &&& apply_seq(w1, rs).registry.contains_key(token)
        }),
{
    let w1 = WorldSnapshot { registry: w.registry.insert(token, ctor), ..w };
    lemma_apply_preserves_structure(w1, rs);
}

/// Inserting an unregistered type token is a defined no-op: the world is left
/// exactly as it was, and the request demands nothing of the world, so no
/// abort can arise from it.
pub proof fn lemma_unregistered_insert_noop(w: WorldSnapshot, r: InsertRequest)
    requires
        !w.registry.contains_key(r.token),
    ensures
        apply_one(w, r) == w,
        req_ok(w, r),
{
}

/// Re-registering a token replaces the earlier constructor (last write wins):
/// a component inserted afterward was built by the new constructor.
pub proof fn lemma_last_write_wins(
    w: WorldSnapshot,
    token: u64,
    old_ctor: u64,
    new_ctor: u64,
    e: u64,
)
    requires
        w.slots.contains_key(token),
        w.storage.contains_key(e),
    ensures
        w.registry.insert(token, old_ctor).insert(token, new_ctor) == w.registry.insert(
            token,
            new_ctor,
        ),
        ({
            let w2 = WorldSnapshot {
                registry: w.registry.insert(token, old_ctor).insert(token, new_ctor),
                ..w
            };
            let w3 = apply_one(w2, InsertRequest { entity: e, token });
            w3.storage[e][w.slots[token]] == new_ctor
        }),
{
    assert(w.registry.insert(token, old_ctor).insert(token, new_ctor) =~= w.registry.insert(
        token,
        new_ctor,
    ));
}

/// Insertion is idempotent: applying the same request twice leaves the world
/// exactly as applying it once does, so an entity ends with exactly one
/// component of the type (the second insertion overwrites, never duplicates).
pub proof fn lemma_insert_idempotent(w: WorldSnapshot, r: InsertRequest)
    ensures
        apply_one(apply_one(w, r), r) == apply_one(w, r),
{
    if w.registry.contains_key(r.token) {
        let w1 = apply_one(w, r);
        assert(apply_one(w1, r).storage =~~= w1.storage);
        assert(apply_one(w1, r) =~= w1);
    }
}

/// Insertions on distinct entities with distinct registered tokens never
/// cross-contaminate: after inserting token `ta` on empty entity `e1` and
/// token `tb` on empty entity `e2`, `e1` holds a component in `ta`'s slot and
/// none in `tb`'s, and `e2` the other way round.
pub proof fn lemma_no_cross_contamination(
    w: WorldSnapshot,
    e1: u64,
    e2: u64,
    ta: u64,
    tb: u64,
)
    requires
        snapshot_wf(w),
        ta != tb,
        e1 != e2,
        w.registry.contains_key(ta),
        w.registry.contains_key(tb),
        w.slots.contains_key(ta),
        w.slots.contains_key(tb),
        w.storage.contains_key(e1),
        w.storage.contains_key(e2),
        w.storage[e1] == (Map::<u64, u64>::empty()),
        w.storage[e2] == (Map::<u64, u64>::empty()),
    ensures
        ({
            let rs = seq![
                InsertRequest { entity: e1, token: ta },
                InsertRequest { entity: e2, token: tb },
            ];
            let w2 = apply_seq(w, rs);
            &&& w2.storage[e1].contains_key(w.slots[ta])
            &&& !w2.storage[e1].contains_key(w.slots[tb])
            &&& w2.storage[e2].contains_key(w.slots[tb])
            &&& !w2.storage[e2].contains_key(w.slots[ta])
        }),
{
    let r1 = InsertRequest { entity: e1, token: ta };
    let r2 = InsertRequest { entity: e2, token: tb };
    let rs = seq![r1, r2];
    assert(rs.drop_last() =~= seq![r1]);
    assert(seq![r1].drop_last() =~= Seq::<InsertRequest>::empty());
    assert(apply_seq(w, seq![r1].drop_last()) == w);
    assert(seq![r1].last() == r1);
    assert(apply_seq(w, seq![r1]) == apply_one(w, r1));
    assert(rs.last() == r2);
    assert(apply_seq(w, rs) == apply_one(apply_one(w, r1), r2));
    assert(w.slots[ta] != w.slots[tb]);
}

} // verus!
