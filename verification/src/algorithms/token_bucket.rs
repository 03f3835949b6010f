use vstd::prelude::*;

use crate::utils::time::timestamp;

verus! {

/// Seconds elapsed from `last_refill` to `now`; a refill time in the future counts as none.
pub open spec fn elapsed_seconds(last_refill: u64, now: u64) -> int {
    if now >= last_refill {
        now - last_refill
    } else {
        0
    }
}

/// Tokens regenerated between `last_refill` and `now` at `refill_rate` tokens per
/// second, never more than `capacity`.
pub open spec fn refill_amount(last_refill: u64, refill_rate: u64, capacity: u64, now: u64) -> int {
    let produced = elapsed_seconds(last_refill, now) * refill_rate;
    if produced < capacity {
        produced
    } else {
        capacity as int
    }
}

/// Tokens a request may draw on: the stored tokens plus the refill, never more than `capacity`.
pub open spec fn available_tokens(current_tokens: int, replenished: int, capacity: int) -> int {
    if current_tokens + replenished < capacity {
        current_tokens + replenished
    } else {
        capacity
    }
}

/// Tokens left once `consume` tokens are taken from `current_tokens`, never below zero.
pub open spec fn remaining_tokens(consume: int, current_tokens: int) -> int {
    if consume <= current_tokens {
        current_tokens - consume
    } else {
        0
    }
}

/// A token bucket: at most `capacity` tokens, regenerated at `refill_rate` tokens per second.
#[derive(Debug)]
pub struct TokenBucket {
    pub capacity: u64,
    pub refill_rate: u64,
    pub current_tokens: u64,
    pub last_refill_timestamp: u64,
}

impl TokenBucket {
    /// A bucket of capacity 100, refilled at one token per second, holding 10 tokens,
    /// stamped with the current time.
    pub fn new_default_value() -> (bucket: Self)
        ensures
            bucket.capacity == 100,
            bucket.refill_rate == 1,
            bucket.current_tokens == 10,
    {
        Self { capacity: 100, refill_rate: 1, current_tokens: 10, last_refill_timestamp: timestamp() }
    }

    /// A full bucket: it starts with `capacity` tokens, stamped with the current time.
    pub fn new(capacity: u64, refill_rate: u64) -> (bucket: Self)
        ensures
            bucket.capacity == capacity,
            bucket.refill_rate == refill_rate,
            bucket.current_tokens == capacity,
    {
        Self { capacity, refill_rate, current_tokens: capacity, last_refill_timestamp: timestamp() }
    }

    /// Tokens regenerated since `last_refill`, measured against the system clock.
    /// Whatever the clock reads, the result is the refill at that reading, so it never
    /// exceeds `capacity`.
    pub fn refill_logic(last_refill: u64, refill_rate: u64, capacity: u64) -> (tokens: u64)
        ensures
            tokens <= capacity,
            exists|now: u64| tokens == refill_amount(last_refill, refill_rate, capacity, now),
    {
        let now = timestamp();
        Self::refill_logic_at(now, last_refill, refill_rate, capacity)
    }

    /// Tokens regenerated between `last_refill` and `now`: elapsed seconds times
    /// `refill_rate`, capped at `capacity`; zero when `last_refill` lies after `now`.
    pub fn refill_logic_at(now: u64, last_refill: u64, refill_rate: u64, capacity: u64) -> (tokens: u64)
        ensures
            tokens == refill_amount(last_refill, refill_rate, capacity, now),
    {
        let elapsed_time = now.saturating_sub(last_refill);
        let current_tokens = match elapsed_time.checked_mul(refill_rate) {
            Some(produced) => produced,
            None => u64::MAX,
        };
        if current_tokens < capacity {
            current_tokens
        } else {
            capacity
        }
    }

    /// Whether a request for `consume_tokens` fits in `current_tokens`.
    pub fn allow_deny_request(current_tokens: u64, consume_tokens: u64) -> (allowed: bool)
        ensures
            allowed == (consume_tokens <= current_tokens),
    {
        consume_tokens <= current_tokens
    }

    /// Tokens a request may draw on: stored tokens plus the refill, capped at `capacity`.
    pub fn maximum_available_token_for_request(
        current_tokens: u64,
        replenish_token: u64,
        capacity: u64,
    ) -> (tokens: u64)
        ensures
            tokens == available_tokens(current_tokens as int, replenish_token as int, capacity as int),
            tokens <= capacity,
    {
        let total = current_tokens.saturating_add(replenish_token);
        if total < capacity {
            total
        } else {
            capacity
        }
    }

    /// Tokens left after taking `consume` from `current_tokens`, saturating at zero.
    pub fn reminder_token_after_request(consume: u64, current_tokens: u64) -> (tokens: u64)
        ensures
            tokens == remaining_tokens(consume as int, current_tokens as int),
            tokens <= current_tokens,
    {
        current_tokens.saturating_sub(consume)
    }
}

/// The refill never exceeds the capacity, and it never shrinks as time goes on.
pub proof fn lemma_refill_bounded_and_monotone(
    last_refill: u64,
    refill_rate: u64,
    capacity: u64,
    earlier: u64,
    later: u64,
)
    requires
        earlier <= later,
    ensures
        0 <= refill_amount(last_refill, refill_rate, capacity, earlier),
        refill_amount(last_refill, refill_rate, capacity, later) <= capacity,
        refill_amount(last_refill, refill_rate, capacity, earlier) <= refill_amount(
            last_refill,
            refill_rate,
            capacity,
            later,
        ),
{
    let e1 = elapsed_seconds(last_refill, earlier);
    let e2 = elapsed_seconds(last_refill, later);
    assert(0 <= e1 <= e2);
    assert(0 <= e1 * refill_rate <= e2 * refill_rate) by (nonlinear_arith)
        requires
            0 <= e1 <= e2,
            0 <= refill_rate,
    ;
}

/// The decision and the remainder agree: an allowed request leaves exactly the
/// tokens it did not take, and a denied one leaves nothing to take.
pub proof fn lemma_decision_matches_remainder(current_tokens: int, consume: int)
    ensures
        consume <= current_tokens ==> remaining_tokens(consume, current_tokens) + consume
            == current_tokens,
        consume > current_tokens ==> remaining_tokens(consume, current_tokens) == 0,
{
}

} // verus!
