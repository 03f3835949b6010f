pub mod token_bucket;
