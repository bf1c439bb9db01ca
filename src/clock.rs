//! Reading the system wall clock.
use std::time::{Duration, SystemTime};
use vstd::prelude::*;

verus! {

#[verifier::external_type_specification]
#[verifier::external_body]
pub struct ExSystemTime(SystemTime);

/// Relies on std::time::SystemTime::now: the current wall-clock time.
/// Nothing is promised of the reading.
#[verifier::external_body]
fn system_time_now() -> SystemTime {
    SystemTime::now()
}

/// Relies on std::time::SystemTime::duration_since: how long after the Unix epoch
/// `t` lies, or `None` where `t` is earlier than the epoch.
#[verifier::external_body]
fn since_unix_epoch(t: &SystemTime) -> Option<Duration> {
    t.duration_since(std::time::UNIX_EPOCH).ok()
}

/// Relies on std::time::Duration::as_millis: the whole milliseconds in `d`.
#[verifier::external_body]
fn whole_millis(d: &Duration) -> u128 {
    d.as_millis()
}

/// Milliseconds since the Unix epoch now, or `None` where the clock reads a time
/// before the epoch.
pub(crate) fn wall_clock_millis() -> Option<u128> {
    let now = system_time_now();
    match since_unix_epoch(&now) {
        Some(d) => Some(whole_millis(&d)),
        None => None,
    }
}

} // verus!
