pub mod bucket_state;
pub mod key;
