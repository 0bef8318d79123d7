//! The wall clock, read in whole seconds since the unix epoch.

use std::time::{Duration, SystemTime, SystemTimeError};
use vstd::prelude::*;

verus! {

#[verifier::external_type_specification]
#[verifier::external_body]
pub struct ExSystemTime(std::time::SystemTime);

#[verifier::external_type_specification]
#[verifier::external_body]
pub struct ExSystemTimeError(std::time::SystemTimeError);

/// `SystemTime::now`: the current reading of the system clock. Nothing is claimed of
/// it: two readings may differ in either direction.
#[verifier::external_body]
fn system_now() -> (t: SystemTime) {
    SystemTime::now()
}

/// `SystemTime::duration_since` with the unix epoch as the earlier time: the time
/// that lies between the epoch and `t`, or an error if `t` lies before the epoch.
/// Nothing is claimed of which of the two comes back, nor of the duration.
#[verifier::external_body]
fn since_epoch(t: &SystemTime) -> (d: Result<Duration, SystemTimeError>) {
    t.duration_since(std::time::UNIX_EPOCH)
}

/// `Duration::as_secs`: the whole seconds of a duration. Nothing is claimed of the
/// number.
#[verifier::external_body]
fn whole_seconds(d: &Duration) -> (secs: u64) {
    d.as_secs()
}

/// The current time in seconds since the unix epoch; 0 if the clock stands before it.
///
/// The value is whatever the clock says, so nothing is promised of it here: what is
/// made of a reading is stated by `epoch_seconds`, which this function ends with.
pub fn now() -> u64 {
    let t = system_now();
    let elapsed = match since_epoch(&t) {
        Ok(d) => Some(whole_seconds(&d)),
        Err(_) => None,
    };
    epoch_seconds(elapsed)
}

/// The time that a reading of the clock stands for: the whole seconds that lie between
/// the epoch and the reading, or 0 where the reading lies before the epoch (`None`).
pub open spec fn seconds_of(elapsed: Option<u64>) -> u64 {
    match elapsed {
        Some(secs) => secs,
        None => 0,
    }
}

/// Turns a reading of the clock into seconds since the unix epoch.
pub fn epoch_seconds(elapsed: Option<u64>) -> (secs: u64)
    ensures
        secs == seconds_of(elapsed),
{
    match elapsed {
        Some(secs) => secs,
        None => 0,
    }
}

} // verus!
