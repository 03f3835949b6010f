use vstd::prelude::*;

verus! {

/// The limits every bucket is made with, and how long an idle bucket is kept.
#[derive(Debug)]
pub struct RatelimiterConfig {
    pub token_bucket_max_capacity: u64,
    pub token_bucket_refill_rate: u64,
    pub bucket_ttl_seconds: u64,
}

/// Where buckets are kept.
#[derive(Debug)]
pub struct StorageConfig {
    pub storage_type: StorageType,
    pub redis_url: Option<String>,
}

/// The kinds of bucket store.
#[derive(Debug)]
pub enum StorageType {
    Memory,
    Redis,
}

/// The whole configuration: limits and storage.
#[derive(Debug)]
pub struct AppConfig {
    pub rate_limit: RatelimiterConfig,
    pub storage: StorageConfig,
}

} // verus!
