use vstd::prelude::*;

verus! {

/// What a store keeps for one consumer: the tokens left and when they were last counted.
#[derive(Debug, Clone, Copy)]
pub struct BucketState {
    pub current_tokens: u64,
    pub last_refill_timestamp: u64,
}

impl BucketState {
    pub fn new(tokens: u64, timestamp: u64) -> (state: Self)
        ensures
            state.current_tokens == tokens,
            state.last_refill_timestamp == timestamp,
    {
        Self { current_tokens: tokens, last_refill_timestamp: timestamp }
    }
}

} // verus!
