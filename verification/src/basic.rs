use vstd::prelude::*;

use crate::algorithms::token_bucket::{TokenBucket, refill_amount};
use crate::utils::decimal::{decimal_digits, decimal_string};
use crate::utils::time::timestamp;

verus! {

/// Who sends a request, and how many tokens it weighs.
pub struct Requester {
    pub identity: Identity,
    pub request_weight: u64,
}

/// The identities a request can be limited by.
pub enum Identity {
    UserId(String),
    ApiKey(String),
    IpAddress(String),
    ServiceInstance(String),
    Jwt(String),
}

/// The refill stamp a standalone `allow` measures from.
pub const PROBE_LAST_REFILL: u64 = 1779304074;

/// The tokens a standalone `allow` asks for.
pub const PROBE_CONSUME: u64 = 39;

/// A limiter that decides on its own, without a store.
pub trait RateLimiter {
    /// Whether a request under `key` is allowed.
    fn allow(&self, key: &str) -> bool;

    /// A one-line description of the limiter.
    fn status(&self) -> String;
}

/// `total capacity <capacity> and last refill was in <last refill>`, numbers in decimal.
pub open spec fn status_line(capacity: u64, last_refill_timestamp: u64) -> Seq<char> {
    "total capacity "@ + decimal_digits(capacity as nat) + " and last refill was in "@
        + decimal_digits(last_refill_timestamp as nat)
}

impl TokenBucket {
    /// The standalone decision with the clock reading `now`: the refill from
    /// `PROBE_LAST_REFILL` to `now` at this bucket's rate, up to its capacity, must cover
    /// a request of `PROBE_CONSUME` tokens.
    pub fn allow_at(&self, now: u64) -> (allowed: bool)
        ensures
            allowed == (PROBE_CONSUME <= refill_amount(
                PROBE_LAST_REFILL,
                self.refill_rate,
                self.capacity,
                now,
            )),
    {
        let current_tokens = TokenBucket::refill_logic_at(
            now,
            PROBE_LAST_REFILL,
            self.refill_rate,
            self.capacity,
        );
        TokenBucket::allow_deny_request(current_tokens, PROBE_CONSUME)
    }
}

impl RateLimiter for TokenBucket {
    /// Refills from the fixed stamp `PROBE_LAST_REFILL` at this bucket's rate, up to its
    /// capacity, and allows a request of `PROBE_CONSUME` tokens if the refill covers it.
    /// The key does not enter the decision.
    fn allow(&self, key: &str) -> (allowed: bool)
        ensures
            exists|now: u64|
                allowed == (PROBE_CONSUME <= #[trigger] refill_amount(
                    PROBE_LAST_REFILL,
                    self.refill_rate,
                    self.capacity,
                    now,
                )),
    {
        self.allow_at(timestamp())
    }

    fn status(&self) -> (line: String)
        ensures
            line@ == status_line(self.capacity, self.last_refill_timestamp),
    {
        let capacity = decimal_string(self.capacity);
        let last_refill = decimal_string(self.last_refill_timestamp);
        String::from_str("total capacity ").concat(capacity.as_str()).concat(
            " and last refill was in ",
        ).concat(last_refill.as_str())
    }
}

} // verus!
