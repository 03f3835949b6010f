use vstd::prelude::*;

use crate::memory::memory_store::{MemoryStore, StoredValue};
use crate::traits::{created_entries, find_outcome, updated_entries};

pub use crate::traits::QueryDatabase;

pub use crate::utils::time::timestamp;

verus! {

/// Expiry, in seconds, given to an entry written to a shared store without one.
pub const DEFAULT_TTL_SECONDS: u64 = 3600;

/// The time-to-live an entry is written with: the given expiry, or an hour without one.
pub fn ttl_or_default(expires_at: Option<u64>) -> (ttl: u64)
    ensures
        ttl == (match expires_at {
            Some(seconds) => seconds,
            None => DEFAULT_TTL_SECONDS,
        }),
{
    match expires_at {
        Some(seconds) => seconds,
        None => DEFAULT_TTL_SECONDS,
    }
}

/// A synchronous store of buckets, each entry with an optional expiry.
pub trait SyncMemoryQueryDatabase<K: View, V>: Sized {
    /// The entries held, by key. `MemoryStore` defines them as its map. The default is an
    /// unspecified map, so that an implementation with no model of its own (a recording
    /// test double, say) need not define this item; the contracts below then speak of
    /// that unspecified map.
    closed spec fn entries(&self) -> Map<K::V, StoredValue<V>> {
        arbitrary()
    }

    /// Adds an entry under `id` unless one is there already.
    fn create(&mut self, id: K, data: V, expires_at: Option<u64>)
        ensures
            final(self).entries() == created_entries(old(self).entries(), id@, data, expires_at),
    ;

    /// The value under `id`, unless there is none or it has expired (then it is removed).
    fn find(&mut self, id: K) -> (found: Option<V>) where V: Clone
        ensures
            find_outcome(old(self).entries(), final(self).entries(), id@, found),
    ;

    /// Puts `data` under `id`, replacing any entry there.
    fn update_bucket_status(&mut self, id: K, data: V, expires_at: Option<u64>)
        ensures
            final(self).entries() == updated_entries(old(self).entries(), id@, data, expires_at),
    ;

    /// Removes the entry under `id`, if any.
    fn delete_bucket(&mut self, id: K)
        ensures
            final(self).entries() == old(self).entries().remove(id@),
    ;
}

impl<V> SyncMemoryQueryDatabase<String, V> for MemoryStore<V> {
    open spec fn entries(&self) -> Map<Seq<char>, StoredValue<V>> {
        self.map@
    }

    fn create(&mut self, id: String, data: V, expires_at: Option<u64>) {
        MemoryStore::create(self, id, data, expires_at)
    }

    fn find(&mut self, id: String) -> (found: Option<V>) where V: Clone {
        MemoryStore::find(self, id)
    }

    fn update_bucket_status(&mut self, id: String, data: V, expires_at: Option<u64>) {
        MemoryStore::update_bucket_status(self, id, data, expires_at)
    }

    fn delete_bucket(&mut self, id: String) {
        MemoryStore::delete_bucket(self, id)
    }
}

impl<V> QueryDatabase<String, V> for MemoryStore<V> {
    open spec fn entries(&self) -> Map<Seq<char>, StoredValue<V>> {
        self.map@
    }

    fn create(&mut self, id: String, data: V, expires_at: Option<u64>) {
        MemoryStore::create(self, id, data, expires_at)
    }

    fn find(&mut self, id: String) -> (found: Option<V>) where V: Clone {
        MemoryStore::find(self, id)
    }

    fn update_bucket_status(&mut self, id: String, data: V, expires_at: Option<u64>) {
        MemoryStore::update_bucket_status(self, id, data, expires_at)
    }

    fn delete_bucket(&mut self, id: String) {
        MemoryStore::delete_bucket(self, id)
    }
}

} // verus!
