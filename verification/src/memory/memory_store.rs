use vstd::prelude::*;

use vstd::hash_map::StringHashMap;

use crate::utils::time::timestamp;

verus! {

/// A stored value and the second, if any, from which it counts as expired.
#[derive(Debug)]
pub struct StoredValue<V> {
    pub value: V,
    pub expires_at: Option<u64>,
}

/// Whether an entry that expires at `expires_at` has expired at second `now`.
pub open spec fn expired_at(expires_at: Option<u64>, now: u64) -> bool {
    match expires_at {
        Some(deadline) => now >= deadline,
        None => false,
    }
}

/// `find` at a known second `now`: nothing for a missing key; an expired entry is
/// removed and nothing is found; otherwise a clone of the value, the entries unchanged.
pub open spec fn found_at<K, V: Clone>(
    before: Map<K, StoredValue<V>>,
    after: Map<K, StoredValue<V>>,
    id: K,
    now: u64,
    found: Option<V>,
) -> bool {
    if !before.contains_key(id) {
        found is None && after == before
    } else if expired_at(before[id].expires_at, now) {
        found is None && after == before.remove(id)
    } else {
        found matches Some(value) && cloned(before[id].value, value) && after == before
    }
}

/// An entry written with expiry `deadline` is found exactly until the second `deadline`:
/// read at an earlier second it gives back a clone of its value, and read at `deadline`
/// or later it is gone and removed.
pub proof fn lemma_expiry_deadline<V: Clone>(
    entries: Map<Seq<char>, StoredValue<V>>,
    id: Seq<char>,
    data: V,
    deadline: u64,
    now: u64,
    after: Map<Seq<char>, StoredValue<V>>,
    found: Option<V>,
)
    requires
        found_at(
            entries.insert(id, StoredValue { value: data, expires_at: Some(deadline) }),
            after,
            id,
            now,
            found,
        ),
    ensures
        now < deadline ==> (found matches Some(value) && cloned(data, value)),
        now >= deadline ==> (found is None && after == entries.remove(id)),
{
    let written = entries.insert(id, StoredValue { value: data, expires_at: Some(deadline) });
    assert(written.remove(id) =~= entries.remove(id));
}

/// An in-process store of values under string keys.
#[verifier::reject_recursive_types(V)]
pub struct MemoryStore<V> {
    pub map: StringHashMap<StoredValue<V>>,
}

impl<V> MemoryStore<V> {
    /// An empty store.
    pub fn new() -> (store: Self)
        ensures
            store.map@ == Map::<Seq<char>, StoredValue<V>>::empty(),
    {
        Self { map: StringHashMap::new() }
    }

    /// Adds an entry under `id` unless one is there already; an existing entry keeps
    /// its value and its expiry.
    pub fn create(&mut self, id: String, data: V, expires_at: Option<u64>)
        ensures
            final(self).map@ == (if old(self).map@.contains_key(id@) {
                old(self).map@
            } else {
                old(self).map@.insert(id@, StoredValue { value: data, expires_at })
            }),
    {
        if !self.map.contains_key(id.as_str()) {
            let storage_value = StoredValue::<V> { value: data, expires_at };
            self.map.insert(id, storage_value);
        }
    }

    /// The value under `id`. Where the entry carries an expiry, the system clock is read:
    /// an entry whose expiry has come is removed and nothing is found.
    pub fn find(&mut self, id: String) -> (found: Option<V>) where V: Clone
        ensures
            exists|now: u64| found_at(old(self).map@, final(self).map@, id@, now, found),
    {
        let needs_clock = match self.map.get(id.as_str()) {
            Some(bucket_data) => bucket_data.expires_at.is_some(),
            None => false,
        };
        let now = if needs_clock {
            timestamp()
        } else {
            0
        };
        self.find_at(id, now)
    }

    /// The value under `id` as seen at second `now`: an entry with an expiry at or
    /// before `now` is removed and nothing is found.
    pub fn find_at(&mut self, id: String, now: u64) -> (found: Option<V>) where V: Clone
        ensures
            found_at(old(self).map@, final(self).map@, id@, now, found),
    {
        let expired = match self.map.get(id.as_str()) {
            None => {
                return None;
            },
            Some(bucket_data) => match bucket_data.expires_at {
                Some(exp) => now >= exp,
                None => false,
            },
        };
        if expired {
            self.delete_bucket(id);
            return None;
        }
        match self.map.get(id.as_str()) {
            Some(bucket_data) => Some(bucket_data.value.clone()),
            None => None,
        }
    }

    /// Puts `data` under `id` with the given expiry, replacing any entry there.
    pub fn update_bucket_status(&mut self, id: String, data: V, expires_at: Option<u64>)
        ensures
            final(self).map@ == old(self).map@.insert(id@, StoredValue { value: data, expires_at }),
    {
        self.map.remove(id.as_str());
        let storage_value = StoredValue::<V> { value: data, expires_at };
        self.map.insert(id, storage_value);
    }

    /// Removes the entry under `id`, if any.
    pub fn delete_bucket(&mut self, id: String)
        ensures
            final(self).map@ == old(self).map@.remove(id@),
    {
        self.map.remove(id.as_str());
    }
}

} // verus!
