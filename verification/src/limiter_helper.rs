use vstd::prelude::*;

use crate::algorithms::token_bucket::{
    TokenBucket,
    available_tokens,
    elapsed_seconds,
    lemma_refill_bounded_and_monotone,
    refill_amount,
    remaining_tokens,
};
use crate::memory::memory_store::StoredValue;
use crate::models::bucket_state::BucketState;
use crate::store::SyncMemoryQueryDatabase;
use crate::traits::{created_entries, updated_entries};
use crate::types::CheckRequestInput;
use crate::utils::time::timestamp;

verus! {

/// Tokens a request against `state` may draw on when the clock reads `now`: the stored
/// tokens plus the refill since the state was stamped, capped at `capacity`.
pub open spec fn tokens_at(state: BucketState, refill_rate: u64, capacity: u64, now: u64) -> int {
    available_tokens(
        state.current_tokens as int,
        refill_amount(state.last_refill_timestamp, refill_rate, capacity, now),
        capacity as int,
    )
}

/// The state a request for `consume` tokens against `state` writes, with the refill
/// measured at `now` and the new state stamped `stamp`: the tokens at `now` less the
/// request where they cover it, and nothing where they do not.
pub open spec fn request_update(
    state: BucketState,
    refill_rate: u64,
    capacity: u64,
    consume: u64,
    now: u64,
    stamp: u64,
) -> Option<BucketState> {
    let total = tokens_at(state, refill_rate, capacity, now);
    if consume <= total {
        Some(BucketState { current_tokens: (total - consume) as u64, last_refill_timestamp: stamp })
    } else {
        None
    }
}

/// A request checked against `state` as `request_update` decides it: allowed exactly when
/// there is a state to write, which is then stored under `id` with no expiry; a denied
/// request changes nothing.
pub open spec fn request_effect(
    before: Map<Seq<char>, StoredValue<BucketState>>,
    after: Map<Seq<char>, StoredValue<BucketState>>,
    id: Seq<char>,
    state: BucketState,
    refill_rate: u64,
    capacity: u64,
    consume: u64,
    allowed: bool,
    now: u64,
    stamp: u64,
) -> bool {
    let update = request_update(state, refill_rate, capacity, consume, now, stamp);
    &&& allowed == (update is Some)
    &&& after == (match update {
        Some(written) => updated_entries(before, id, written, None),
        None => before,
    })
}

/// The bucket of a consumer seen for the first time, stamped `stamp`: the capacity less
/// the first request, never below zero.
pub open spec fn new_consumer_state(capacity: u64, consume: u64, stamp: u64) -> BucketState {
    BucketState {
        current_tokens: remaining_tokens(consume as int, capacity as int) as u64,
        last_refill_timestamp: stamp,
    }
}

/// A first request for `consume` tokens from a bucket of `capacity`: allowed exactly when
/// the capacity covers it, and the bucket of `new_consumer_state` is created under `id`
/// with no expiry.
pub open spec fn new_consumer_effect(
    before: Map<Seq<char>, StoredValue<BucketState>>,
    after: Map<Seq<char>, StoredValue<BucketState>>,
    id: Seq<char>,
    capacity: u64,
    consume: u64,
    allowed: bool,
    stamp: u64,
) -> bool {
    &&& allowed == (consume <= capacity)
    &&& after == created_entries(before, id, new_consumer_state(capacity, consume, stamp), None)
}

/// Whatever the clock reads, a request for more tokens than the capacity is denied, and
/// a request covered both by the stored tokens and by the capacity is allowed.
pub proof fn lemma_request_bounds(
    state: BucketState,
    refill_rate: u64,
    capacity: u64,
    consume: u64,
    now: u64,
)
    ensures
        consume > capacity ==> !(consume <= tokens_at(state, refill_rate, capacity, now)),
        consume <= state.current_tokens && consume <= capacity ==> consume <= tokens_at(
            state,
            refill_rate,
            capacity,
            now,
        ),
        tokens_at(state, refill_rate, capacity, now) <= capacity,
{
    lemma_refill_bounded_and_monotone(
        state.last_refill_timestamp,
        refill_rate,
        capacity,
        now,
        now,
    );
}

/// A state written for a request is stamped with the reading its refill was measured at,
/// so at that reading it holds exactly the tokens left: the refill already granted is not
/// counted again, and what is left never exceeds the capacity.
pub proof fn lemma_written_state_has_no_pending_refill(
    state: BucketState,
    refill_rate: u64,
    capacity: u64,
    consume: u64,
    now: u64,
)
    requires
        request_update(state, refill_rate, capacity, consume, now, now) is Some,
    ensures
        ({
            let written = request_update(state, refill_rate, capacity, consume, now, now)->0;
            &&& written.last_refill_timestamp == now
            &&& written.current_tokens + consume == tokens_at(state, refill_rate, capacity, now)
            &&& tokens_at(written, refill_rate, capacity, now) == written.current_tokens
        }),
{
    lemma_request_bounds(state, refill_rate, capacity, consume, now);
    assert(elapsed_seconds(now, now) == 0);
    assert(0 * refill_rate == 0) by (nonlinear_arith);
}

/// Two requests in a row on one key: when the first is allowed at clock reading `now`,
/// the second, checked at a reading `later` no earlier than `now`, draws only on what the
/// first left plus the refill from `now` to `later`, capped at the capacity. In
/// particular, repeated at the same reading it sees exactly the tokens left: elapsed time
/// is never refilled twice.
pub proof fn lemma_no_double_refill(
    before: Map<Seq<char>, StoredValue<BucketState>>,
    middle: Map<Seq<char>, StoredValue<BucketState>>,
    after: Map<Seq<char>, StoredValue<BucketState>>,
    id: Seq<char>,
    state: BucketState,
    refill_rate: u64,
    capacity: u64,
    first: u64,
    second: u64,
    second_allowed: bool,
    now: u64,
    later: u64,
)
    requires
        request_effect(before, middle, id, state, refill_rate, capacity, first, true, now, now),
        request_effect(
            middle,
            after,
            id,
            middle[id].value,
            refill_rate,
            capacity,
            second,
            second_allowed,
            later,
            later,
        ),
        now <= later,
    ensures
        ({
            let left = tokens_at(state, refill_rate, capacity, now) - first;
            let refilled = refill_amount(now, refill_rate, capacity, later);
            second_allowed == (second <= (if left + refilled < capacity {
                left + refilled
            } else {
                capacity as int
            }))
        }),
        later == now ==> second_allowed == (second <= tokens_at(
            state,
            refill_rate,
            capacity,
            now,
        ) - first),
{
    lemma_written_state_has_no_pending_refill(state, refill_rate, capacity, first, now);
    let written = request_update(state, refill_rate, capacity, first, now, now)->0;
    assert(middle[id].value == written);
}

/// The async path decides as the sync path does: for the same clock readings, the state
/// `async_request_update_at` hands out is exactly what `check_request_at` writes, and it
/// hands out none exactly when `check_request_at` denies and leaves the store alone.
pub proof fn lemma_async_matches_sync(
    before: Map<Seq<char>, StoredValue<BucketState>>,
    after: Map<Seq<char>, StoredValue<BucketState>>,
    data: CheckRequestInput<BucketState>,
    allowed: bool,
    update: Option<BucketState>,
    now: u64,
    stamp: u64,
)
    requires
        request_effect(
            before,
            after,
            data.id@,
            data.bucket_state,
            data.refill_rate,
            data.capacity,
            data.consume,
            allowed,
            now,
            stamp,
        ),
        update == request_update(
            data.bucket_state,
            data.refill_rate,
            data.capacity,
            data.consume,
            now,
            stamp,
        ),
    ensures
        allowed == (update is Some),
        update matches Some(written) ==> after == updated_entries(before, data.id@, written, None),
        update is None ==> after == before,
{
}

/// Checks a request against a stored bucket with the refill measured at second `now`:
/// allowed exactly when the tokens at `now` cover it, and then what is left is stored
/// under the request's key, stamped `stamp`, with no expiry. A denied request leaves the
/// store as it was.
pub fn check_request_at<S: SyncMemoryQueryDatabase<String, BucketState>>(
    data: CheckRequestInput<BucketState>,
    now: u64,
    stamp: u64,
    storage: &mut S,
) -> (allowed: bool)
    ensures
        request_effect(
            old(storage).entries(),
            final(storage).entries(),
            data.id@,
            data.bucket_state,
            data.refill_rate,
            data.capacity,
            data.consume,
            allowed,
            now,
            stamp,
        ),
        allowed ==> final(storage).entries()[data.id@].value.current_tokens <= data.capacity,
{
    let replenish_token = TokenBucket::refill_logic_at(
        now,
        data.bucket_state.last_refill_timestamp,
        data.refill_rate,
        data.capacity,
    );
    let total_left_token = TokenBucket::maximum_available_token_for_request(
        data.bucket_state.current_tokens,
        replenish_token,
        data.capacity,
    );
    let result = TokenBucket::allow_deny_request(total_left_token, data.consume);
    if result {
        let token_left_after_request = TokenBucket::reminder_token_after_request(
            data.consume,
            total_left_token,
        );
        let new_data = BucketState::new(token_left_after_request, stamp);
        storage.update_bucket_status(data.id, new_data, None);
    }
    result
}

/// Checks a request against a stored bucket: reads the clock once, refills the bucket by
/// the time elapsed up to that reading, allows the request if the tokens cover it and
/// then stores what is left stamped with that same reading, so the time refilled here is
/// never refilled again. A denied request leaves the store as it was.
pub fn check_request<S: SyncMemoryQueryDatabase<String, BucketState>>(
    data: CheckRequestInput<BucketState>,
    storage: &mut S,
) -> (allowed: bool)
    ensures
        exists|now: u64|
            #[trigger] request_effect(
                old(storage).entries(),
                final(storage).entries(),
                data.id@,
                data.bucket_state,
                data.refill_rate,
                data.capacity,
                data.consume,
                allowed,
                now,
                now,
            ),
        !allowed ==> final(storage).entries() == old(storage).entries(),
        allowed ==> final(storage).entries()[data.id@].value.current_tokens <= data.capacity,
{
    let now = timestamp();
    check_request_at(data, now, now, storage)
}

/// The decision and the starting bucket for a consumer seen for the first time: allowed
/// exactly when `capacity` covers `consume`, and the bucket of `new_consumer_state`,
/// stamped with the current time.
pub fn new_consumer_bucket(capacity: u64, consume: u64) -> (outcome: (bool, BucketState))
    ensures
        outcome.0 == (consume <= capacity),
        outcome.1 == new_consumer_state(capacity, consume, outcome.1.last_refill_timestamp),
        outcome.1.current_tokens <= capacity,
{
    let current_tokens = capacity.saturating_sub(consume);
    let allowed = consume <= capacity;
    let new_bucket = BucketState::new(current_tokens, timestamp());
    (allowed, new_bucket)
}

/// Creates the bucket of a consumer seen for the first time and decides its first
/// request. An entry already under `id` is kept as it is.
pub fn create_new_consumer<S: SyncMemoryQueryDatabase<String, BucketState>>(
    id: String,
    capacity: u64,
    consume: u64,
    storage: &mut S,
) -> (allowed: bool)
    ensures
        exists|stamp: u64|
            #[trigger] new_consumer_effect(
                old(storage).entries(),
                final(storage).entries(),
                id@,
                capacity,
                consume,
                allowed,
                stamp,
            ),
{
    let (allowed, new_bucket) = new_consumer_bucket(capacity, consume);
    let ghost stamp = new_bucket.last_refill_timestamp;
    storage.create(id, new_bucket, None);
    assert(new_consumer_effect(
        old(storage).entries(),
        final(storage).entries(),
        id@,
        capacity,
        consume,
        allowed,
        stamp,
    ));
    allowed
}

/// The state to write for a request checked against a shared store with the refill
/// measured at second `now` and the new state stamped `stamp`, or `None` when the request
/// is denied; exactly what `check_request_at` writes for the same readings.
pub fn async_request_update_at(
    data: &CheckRequestInput<BucketState>,
    now: u64,
    stamp: u64,
) -> (update: Option<BucketState>)
    ensures
        update == request_update(
            data.bucket_state,
            data.refill_rate,
            data.capacity,
            data.consume,
            now,
            stamp,
        ),
{
    let replenish_token = TokenBucket::refill_logic_at(
        now,
        data.bucket_state.last_refill_timestamp,
        data.refill_rate,
        data.capacity,
    );
    let total_left_token = TokenBucket::maximum_available_token_for_request(
        data.bucket_state.current_tokens,
        replenish_token,
        data.capacity,
    );
    let result = TokenBucket::allow_deny_request(total_left_token, data.consume);
    if result {
        let token_left_after_request = TokenBucket::reminder_token_after_request(
            data.consume,
            total_left_token,
        );
        Some(BucketState::new(token_left_after_request, stamp))
    } else {
        None
    }
}

/// The state to write for a request checked against a shared store, or `None` when the
/// request is denied. The clock is read once: the refill is measured up to that reading
/// and the state is stamped with it.
pub fn async_request_update(data: &CheckRequestInput<BucketState>) -> (update: Option<BucketState>)
    ensures
        exists|now: u64|
            update == #[trigger] request_update(
                data.bucket_state,
                data.refill_rate,
                data.capacity,
                data.consume,
                now,
                now,
            ),
{
    let now = timestamp();
    async_request_update_at(data, now, now)
}

} // verus!
