//! Token-bucket rate limiting: the bucket arithmetic, the request decision,
//! the storage-key format and an in-memory bucket store, each with its contract.

pub mod algorithms;
pub mod basic;
pub mod limiter;
pub mod limiter_helper;
pub mod memory;
pub mod models;
pub mod policy;
pub mod store;
pub mod traits;
pub mod types;
pub mod utils;
