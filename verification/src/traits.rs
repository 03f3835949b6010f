use vstd::prelude::*;

use crate::memory::memory_store::{StoredValue, found_at};

verus! {

/// `entries` after `create(id, data, expires_at)`: a new entry where `id` had none,
/// and nothing changed where it had one.
pub open spec fn created_entries<K, V>(
    entries: Map<K, StoredValue<V>>,
    id: K,
    data: V,
    expires_at: Option<u64>,
) -> Map<K, StoredValue<V>> {
    if entries.contains_key(id) {
        entries
    } else {
        entries.insert(id, StoredValue { value: data, expires_at })
    }
}

/// `entries` after `update_bucket_status(id, data, expires_at)`: the entry under `id`
/// is replaced, or added, expiry included.
pub open spec fn updated_entries<K, V>(
    entries: Map<K, StoredValue<V>>,
    id: K,
    data: V,
    expires_at: Option<u64>,
) -> Map<K, StoredValue<V>> {
    entries.insert(id, StoredValue { value: data, expires_at })
}

/// What `find(id)` does for some reading `now` of the clock: the lookup of `found_at`.
/// An entry whose expiry has come at that reading is removed and nothing is found; an
/// entry with no expiry, or one still live at that reading, is found unchanged.
pub open spec fn find_outcome<K, V: Clone>(
    before: Map<K, StoredValue<V>>,
    after: Map<K, StoredValue<V>>,
    id: K,
    found: Option<V>,
) -> bool {
    exists|now: u64| #[trigger] found_at(before, after, id, now, found)
}

/// Creating never overwrites: where `id` already has an entry, `create` leaves the
/// entries exactly as they were, expiry included.
pub proof fn lemma_create_keeps_existing<K, V>(
    entries: Map<K, StoredValue<V>>,
    id: K,
    data: V,
    expires_at: Option<u64>,
)
    requires
        entries.contains_key(id),
    ensures
        created_entries(entries, id, data, expires_at) == entries,
{
}

/// A read gives back what a write wrote: after writing `data` under `id` with no expiry,
/// by `update_bucket_status` or by a `create` on a fresh key, `find(id)` hands out a clone
/// of `data` and changes nothing.
pub proof fn lemma_find_after_write<K, V: Clone>(
    entries: Map<K, StoredValue<V>>,
    id: K,
    data: V,
    after: Map<K, StoredValue<V>>,
    found: Option<V>,
)
    requires
        find_outcome(updated_entries(entries, id, data, None), after, id, found)
            || (!entries.contains_key(id) && find_outcome(
            created_entries(entries, id, data, None),
            after,
            id,
            found,
        )),
    ensures
        found matches Some(value) && cloned(data, value),
        after == updated_entries(entries, id, data, None),
{
}

/// Deleting twice is deleting once, and after a delete `find` finds nothing and
/// changes nothing.
pub proof fn lemma_delete_idempotent<K, V: Clone>(
    entries: Map<K, StoredValue<V>>,
    id: K,
    after: Map<K, StoredValue<V>>,
    found: Option<V>,
)
    requires
        find_outcome(entries.remove(id), after, id, found),
    ensures
        entries.remove(id).remove(id) == entries.remove(id),
        found is None,
        after == entries.remove(id),
{
    assert(entries.remove(id).remove(id) =~= entries.remove(id));
}

/// A key-value store of buckets, each entry with an optional expiry.
pub trait QueryDatabase<K: View, V>: Sized {
    /// The entries held, by key. `MemoryStore` defines them as its map. The default is an
    /// unspecified map, so that an implementation with no model of its own (a recording
    /// test double, say) need not define this item; the contracts below then speak of
    /// that unspecified map.
    closed spec fn entries(&self) -> Map<K::V, StoredValue<V>> {
        arbitrary()
    }

    /// Adds an entry under `id` unless one is there already.
    fn create(&mut self, id: K, data: V, expires_at: Option<u64>)
        ensures
            final(self).entries() == created_entries(old(self).entries(), id@, data, expires_at),
    ;

    /// The value under `id`, unless there is none or it has expired (then it is removed).
    fn find(&mut self, id: K) -> (found: Option<V>) where V: Clone
        ensures
            find_outcome(old(self).entries(), final(self).entries(), id@, found),
    ;

    /// Puts `data` under `id`, replacing any entry there.
    fn update_bucket_status(&mut self, id: K, data: V, expires_at: Option<u64>)
        ensures
            final(self).entries() == updated_entries(old(self).entries(), id@, data, expires_at),
    ;

    /// Removes the entry under `id`, if any.
    fn delete_bucket(&mut self, id: K)
        ensures
            final(self).entries() == old(self).entries().remove(id@),
    ;
}

} // verus!
