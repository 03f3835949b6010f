use vstd::prelude::*;

verus! {

/// Everything a request check needs: the key, the stored bucket and the bucket's limits.
pub struct CheckRequestInput<BS> {
    pub id: String,
    pub bucket_state: BS,
    pub refill_rate: u64,
    pub capacity: u64,
    pub consume: u64,
}

} // verus!
