use vstd::prelude::*;

use crate::permissions::{allows, pattern_matches, AccessMode};
use crate::store::{
    batch_step, entry_of, has_id, index_of, lemma_index_unique, lemma_update_step_frame, store_wf, update_permitted, update_step, update_valid,
    writes_entry, EntryError, StoreModel, UpdateModel,
};

verus! {

/// An accepted value is what a later read sees, and its broker time is not
/// earlier than the one it replaced: a permitted update of a known entry whose
/// value fits succeeds.
pub proof fn lemma_update_then_get(
    s: StoreModel,
    perms: Seq<(Seq<char>, AccessMode)>,
    id: i32,
    u: UpdateModel,
    now: u64,
)
    requires
        store_wf(s),
        has_id(s, id),
        u.datapoint is Some,
        update_permitted(perms, entry_of(s, id).path, u),
        update_valid(entry_of(s, id), u),
    ensures
        update_step(s, perms, id, u, now).1 is None,
        has_id(update_step(s, perms, id, u, now).0, id),
        entry_of(update_step(s, perms, id, u, now).0, id).datapoint.value == u.datapoint->0.value,
        entry_of(update_step(s, perms, id, u, now).0, id).datapoint.ts >= entry_of(s, id).datapoint.ts,
{
    let i = index_of(s, id);
    assert(s.entries[i].id == id);
    assert(s.entries[i].datapoint.ts <= s.clock);
    lemma_update_step_frame(s, perms, id, u, now);
    let s2 = update_step(s, perms, id, u, now).0;
    lemma_index_unique(s2, id, i);
}

/// An update of an unknown id fails with `NotFound` and changes nothing.
pub proof fn lemma_unknown_id(
    s: StoreModel,
    perms: Seq<(Seq<char>, AccessMode)>,
    id: i32,
    u: UpdateModel,
    now: u64,
)
    requires
        !has_id(s, id),
    ensures
        update_step(s, perms, id, u, now) == (s, Some(EntryError::NotFound)),
{
}

pub open spec fn mentions(updates: Seq<(i32, UpdateModel)>, id: i32) -> bool {
    exists|k: int| 0 <= k < updates.len() && #[trigger] updates[k].0 == id
}

/// In a batch, an entry whose id no pair names keeps its state, the store
/// keeps its entries and their ids, and every pair with an unknown id is
/// reported as `NotFound`.
pub proof fn lemma_batch_isolation(
    s: StoreModel,
    perms: Seq<(Seq<char>, AccessMode)>,
    updates: Seq<(i32, UpdateModel)>,
    now: u64,
)
    requires
        store_wf(s),
    ensures
        ({
            let (s2, errs) = batch_step(s, perms, updates, now);
            &&& store_wf(s2)
            &&& s2.entries.len() == s.entries.len()
            &&& forall|i: int| 0 <= i < s.entries.len() ==> #[trigger] s2.entries[i].id == s.entries[i].id
            &&& forall|i: int|
                0 <= i < s.entries.len() && !mentions(updates, s.entries[i].id) ==> #[trigger] s2.entries[i]
                    == s.entries[i]
            &&& forall|k: int|
                0 <= k < updates.len() && !has_id(s, #[trigger] updates[k].0) ==> errs.contains(
                    (updates[k].0, EntryError::NotFound),
                )
        }),
    decreases updates.len(),
{
    if updates.len() > 0 {
        let (id, u) = updates.last();
        let (s1, e) = update_step(s, perms, id, u, now);
        let rest = updates.drop_last();
        lemma_update_step_frame(s, perms, id, u, now);
        lemma_batch_isolation(s1, perms, rest, now);
        let (s2, errs_rest) = batch_step(s1, perms, rest, now);
        let all = batch_step(s, perms, updates, now).1;
        assert forall|i: int|
            0 <= i < s.entries.len() && !mentions(updates, s.entries[i].id) implies #[trigger] s2.entries[i]
            == s.entries[i] by {
            if mentions(rest, s.entries[i].id) {
                let k = choose|k: int| 0 <= k < rest.len() && #[trigger] rest[k].0 == s.entries[i].id;
                assert(updates[k].0 == s.entries[i].id);
            }
            assert(updates[updates.len() - 1].0 == id);
            assert(s1.entries[i] == s.entries[i]);
            assert(s1.entries[i].id == s.entries[i].id);
        }
        assert forall|k: int|
            0 <= k < updates.len() && !has_id(s, #[trigger] updates[k].0) implies all.contains(
            (updates[k].0, EntryError::NotFound),
        ) by {
            if k == updates.len() - 1 {
                assert(all[0] == (id, EntryError::NotFound));
            } else {
                assert(rest[k] == updates[k]);
                if has_id(s1, updates[k].0) {
                    let j = choose|j: int| 0 <= j < s1.entries.len() && #[trigger] s1.entries[j].id == updates[k].0;
                    assert(s.entries[j].id == updates[k].0);
                }
                assert(errs_rest.contains((updates[k].0, EntryError::NotFound)));
                let j = choose|j: int|
                    0 <= j < errs_rest.len() && errs_rest[j] == (updates[k].0, EntryError::NotFound);
                match e {
                    Some(err) => {
                        assert(all == seq![(id, err)] + errs_rest);
                        assert(all[j + 1] == errs_rest[j]);
                    },
                    None => {},
                }
            }
        }
    }
}

/// Applying the same update twice leaves the same value as applying it once.
pub proof fn lemma_value_idempotent(
    s: StoreModel,
    perms: Seq<(Seq<char>, AccessMode)>,
    id: i32,
    u: UpdateModel,
    now1: u64,
    now2: u64,
)
    requires
        store_wf(s),
        has_id(s, id),
    ensures
        ({
            let s1 = update_step(s, perms, id, u, now1).0;
            let s2 = update_step(s1, perms, id, u, now2).0;
            has_id(s2, id) && entry_of(s2, id).datapoint.value == entry_of(s1, id).datapoint.value
        }),
{
    let i = index_of(s, id);
    assert(s.entries[i].id == id);
    let s1 = update_step(s, perms, id, u, now1).0;
    lemma_update_step_frame(s, perms, id, u, now1);
    lemma_index_unique(s1, id, i);
    let s2 = update_step(s1, perms, id, u, now2).0;
    lemma_update_step_frame(s1, perms, id, u, now2);
    lemma_index_unique(s2, id, i);
}

/// A grant of `Read` on one path without `*` allows nothing but reading that
/// path.
pub proof fn lemma_read_only_grant(path: Seq<char>, q: Seq<char>, mode: AccessMode)
    requires
        forall|k: int| 0 <= k < path.len() ==> path[k] != '*',
    ensures
        allows(seq![(path, AccessMode::Read)], q, mode) ==> q == path && mode == AccessMode::Read,
{
    let grants = seq![(path, AccessMode::Read)];
    if allows(grants, q, mode) {
        let k = choose|k: int| 0 <= k < grants.len() && #[trigger] grants[k].1 == mode
            && pattern_matches(grants[k].0, q);
        assert(k == 0);
        if path == seq!['*'] {
            assert(path[0] == '*');
        }
        if path.len() >= 2 {
            assert(path[path.len() - 1] != '*');
        }
    }
}

/// Under a grant of `Read` on one path without `*`, every update that writes
/// an existing entry is refused with `PermissionDenied` and changes nothing.
pub proof fn lemma_read_only_grant_refuses_writes(
    s: StoreModel,
    path: Seq<char>,
    id: i32,
    u: UpdateModel,
    now: u64,
)
    requires
        forall|k: int| 0 <= k < path.len() ==> path[k] != '*',
        has_id(s, id),
        writes_entry(u),
    ensures
        update_step(s, seq![(path, AccessMode::Read)], id, u, now) == (s, Some(
            EntryError::PermissionDenied,
        )),
{
    lemma_read_only_grant(path, entry_of(s, id).path, AccessMode::Write);
}

} // verus!
