//! The wall clock, in whole seconds since the Unix epoch.

use std::time::{Duration, SystemTime, UNIX_EPOCH};
use vstd::prelude::*;

verus! {

/// `std::time::SystemTime`, carried through as an opaque value.
#[verifier::external_type_specification]
#[verifier::external_body]
pub struct ExSystemTime(SystemTime);

/// Calls `SystemTime::now`. The reading depends on when it is taken, so
/// nothing is claimed of it.
#[verifier::external_body]
fn system_now() -> (now: SystemTime) {
    SystemTime::now()
}

/// Calls `SystemTime::duration_since` with the Unix epoch: the time from the
/// epoch to `time`, or `None` where the call fails because `time` lies
/// before the epoch. Nothing is claimed of the duration.
#[verifier::external_body]
fn elapsed_since_epoch(time: &SystemTime) -> (elapsed: Option<Duration>) {
    match time.duration_since(UNIX_EPOCH) {
        Ok(elapsed) => Some(elapsed),
        Err(_) => None,
    }
}

/// Calls `Duration::as_secs`: the whole seconds of `elapsed`. Nothing is
/// claimed of the number.
#[verifier::external_body]
fn whole_seconds(elapsed: &Duration) -> (seconds: u64) {
    elapsed.as_secs()
}

/// The timestamp for a clock reading: the seconds since the epoch, and zero
/// for a clock that is set before it.
pub open spec fn timestamp_of(elapsed: Option<u64>) -> u64 {
    match elapsed {
        Some(seconds) => seconds,
        None => 0,
    }
}

/// Turns a clock reading into a timestamp.
pub fn timestamp_or_zero(elapsed: Option<u64>) -> (timestamp: u64)
    ensures
        timestamp == timestamp_of(elapsed),
{
    match elapsed {
        Some(seconds) => seconds,
        None => 0,
    }
}

/// The current Unix timestamp in seconds, zero where the clock is set before
/// the epoch.
pub fn current_timestamp() -> u64 {
    let now = system_now();
    let elapsed = match elapsed_since_epoch(&now) {
        Some(elapsed) => Some(whole_seconds(&elapsed)),
        None => None,
    };
    timestamp_or_zero(elapsed)
}

} // verus!
