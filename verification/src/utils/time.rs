use vstd::prelude::*;

use std::time::{Duration, SystemTime, UNIX_EPOCH};

verus! {

/// `std::time::SystemTime`, carried through as an opaque value.
#[verifier::external_type_specification]
#[verifier::external_body]
pub struct ExSystemTime(SystemTime);

/// The system clock's current reading, from `std::time::SystemTime::now()`. Nothing is
/// promised of it: two reads may differ in either direction.
#[verifier::external_body]
fn system_now() -> (reading: SystemTime) {
    SystemTime::now()
}

/// The time from the Unix epoch to `reading`, from `SystemTime::duration_since`, or
/// `None` where std reports an error, which it documents to happen exactly when the
/// reading lies before the epoch. Nothing more is promised of the duration.
#[verifier::external_body]
fn since_epoch(reading: &SystemTime) -> (elapsed: Option<Duration>) {
    match reading.duration_since(UNIX_EPOCH) {
        Ok(elapsed) => Some(elapsed),
        Err(_) => None,
    }
}

/// The whole seconds of `elapsed`, from `Duration::as_secs`. `Duration` is opaque here,
/// so nothing is promised of the number.
#[verifier::external_body]
fn whole_seconds(elapsed: &Duration) -> (secs: u64) {
    elapsed.as_secs()
}

/// Whole seconds since the Unix epoch, read from the system clock; a clock that reads
/// earlier than the epoch counts as the epoch itself, second 0.
pub fn timestamp() -> (secs: u64) {
    let reading = system_now();
    match since_epoch(&reading) {
        Some(elapsed) => whole_seconds(&elapsed),
        None => 0,
    }
}

} // verus!
