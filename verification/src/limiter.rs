use vstd::prelude::*;

use crate::algorithms::token_bucket::TokenBucket;
use crate::limiter_helper::{check_request, create_new_consumer, new_consumer_effect, request_effect};
use crate::memory::memory_store::{StoredValue, expired_at, found_at};
use crate::models::bucket_state::BucketState;
use crate::store::SyncMemoryQueryDatabase;
use crate::types::CheckRequestInput;

verus! {

/// What `check_rate` does to the entries of a store when its lookup reads the clock at
/// second `seen`: a key with a bucket still live at `seen` has its request checked against
/// that bucket; a key with no bucket, or one whose expiry has come at `seen`, gets a new
/// bucket from its first request.
pub open spec fn rate_check_at(
    before: Map<Seq<char>, StoredValue<BucketState>>,
    after: Map<Seq<char>, StoredValue<BucketState>>,
    key: Seq<char>,
    refill_rate: u64,
    capacity: u64,
    consume: u64,
    allowed: bool,
    seen: u64,
) -> bool {
    if !before.contains_key(key) || expired_at(before[key].expires_at, seen) {
        exists|stamp: u64|
            #[trigger] new_consumer_effect(
                before.remove(key),
                after,
                key,
                capacity,
                consume,
                allowed,
                stamp,
            )
    } else {
        exists|now: u64|
            #[trigger] request_effect(
                before,
                after,
                key,
                before[key].value,
                refill_rate,
                capacity,
                consume,
                allowed,
                now,
                now,
            )
    }
}

/// What `check_rate` does for some reading of the clock by its lookup.
pub open spec fn rate_check_effect(
    before: Map<Seq<char>, StoredValue<BucketState>>,
    after: Map<Seq<char>, StoredValue<BucketState>>,
    key: Seq<char>,
    refill_rate: u64,
    capacity: u64,
    consume: u64,
    allowed: bool,
) -> bool {
    exists|seen: u64|
        #[trigger] rate_check_at(before, after, key, refill_rate, capacity, consume, allowed, seen)
}

/// On a key with a stored bucket, `check_rate` does what `check_request` does on that
/// bucket (the same decision and the same write, never a create) whenever its lookup
/// found the bucket live, and always where the bucket carries no expiry. A bucket that
/// expires at second 0 is expired at every reading, and is always replaced by a new one.
pub proof fn lemma_check_rate_on_stored_bucket(
    before: Map<Seq<char>, StoredValue<BucketState>>,
    after: Map<Seq<char>, StoredValue<BucketState>>,
    key: Seq<char>,
    refill_rate: u64,
    capacity: u64,
    consume: u64,
    allowed: bool,
    seen: u64,
)
    requires
        rate_check_at(before, after, key, refill_rate, capacity, consume, allowed, seen),
        before.contains_key(key),
    ensures
        !expired_at(before[key].expires_at, seen) ==> exists|now: u64|
            #[trigger] request_effect(
                before,
                after,
                key,
                before[key].value,
                refill_rate,
                capacity,
                consume,
                allowed,
                now,
                now,
            ),
        before[key].expires_at is None ==> !expired_at(before[key].expires_at, seen),
        before[key].expires_at == Some(0u64) ==> exists|stamp: u64|
            #[trigger] new_consumer_effect(
                before.remove(key),
                after,
                key,
                capacity,
                consume,
                allowed,
                stamp,
            ),
{
}

/// Decides requests by consumer key against a store of buckets.
pub trait RateLimiter {
    /// Whether a request of `consume` tokens under `key` is allowed; the store is updated.
    fn check_rate<S: SyncMemoryQueryDatabase<String, BucketState>>(
        &self,
        key: String,
        consume: u64,
        storage: &mut S,
    ) -> bool;
}

impl RateLimiter for TokenBucket {
    /// Looks the key up; a live bucket has the request checked against it, otherwise a new
    /// bucket is made for the key. Only the entry under `key` can change, and a bucket the
    /// call writes never holds more than the capacity.
    fn check_rate<S: SyncMemoryQueryDatabase<String, BucketState>>(
        &self,
        key: String,
        consume: u64,
        storage: &mut S,
    ) -> (allowed: bool)
        ensures
            rate_check_effect(
                old(storage).entries(),
                final(storage).entries(),
                key@,
                self.refill_rate,
                self.capacity,
                consume,
                allowed,
            ),
            final(storage).entries().remove(key@) == old(storage).entries().remove(key@),
            final(storage).entries() == old(storage).entries() || {
                let after = final(storage).entries();
                after.contains_key(key@) && after[key@].value.current_tokens <= self.capacity
            },
    {
        let bucket = storage.find(key.clone());
        let ghost seen = choose|seen: u64|
            #[trigger] found_at(old(storage).entries(), storage.entries(), key@, seen, bucket);

        let allowed = match bucket {
            Some(data) => {
                let input = CheckRequestInput {
                    id: key,
                    bucket_state: data,
                    refill_rate: self.refill_rate,
                    capacity: self.capacity,
                    consume,
                };
                check_request(input, storage)
            },
            None => {
                assert(storage.entries() =~= old(storage).entries().remove(key@));
                create_new_consumer(key, self.capacity, consume, storage)
            },
        };
        assert(rate_check_at(
            old(storage).entries(),
            storage.entries(),
            key@,
            self.refill_rate,
            self.capacity,
            consume,
            allowed,
            seen,
        ));
        allowed
    }
}

} // verus!
