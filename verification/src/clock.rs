//! The wall clock, in whole seconds since the Unix epoch.

use vstd::prelude::*;
use std::time::{Duration, SystemTime, SystemTimeError};

verus! {

/// `std::time::SystemTime`, a reading of the system clock. Nothing is known of a reading
/// but what the functions below return for it.
#[verifier::external_type_specification]
#[verifier::external_body]
pub struct ExSystemTime(SystemTime);

/// `std::time::SystemTimeError`, with which `duration_since` says that the later reading
/// is in fact the earlier one.
#[verifier::external_type_specification]
#[verifier::external_body]
pub struct ExSystemTimeError(SystemTimeError);

/// `SystemTime::now` reads the system clock. No two readings need agree, so nothing is
/// claimed of the result.
pub assume_specification[ SystemTime::now ]() -> (now: SystemTime);

/// `SystemTime::duration_since` gives the time that has passed since `earlier`, or an
/// error where `earlier` is the later of the two. Nothing is claimed of the result.
pub assume_specification[ SystemTime::duration_since ](
    later: &SystemTime,
    earlier: SystemTime,
) -> (elapsed: Result<Duration, SystemTimeError>);

/// `Duration::as_secs` gives the whole seconds of a duration. Nothing is claimed of the
/// result.
pub assume_specification[ Duration::as_secs ](duration: &Duration) -> (seconds: u64);

/// The Unix epoch, `std::time::UNIX_EPOCH`, as a reading of the clock.
#[verifier::external_body]
fn unix_epoch() -> (epoch: SystemTime) {
    std::time::UNIX_EPOCH
}

/// The time by the system clock, in seconds since the Unix epoch; 0 where the clock stands
/// before the epoch. Every reading may differ from the last, so nothing is promised of it.
pub fn now_unix_sec() -> u64 {
    let now = SystemTime::now();
    let elapsed = match now.duration_since(unix_epoch()) {
        Ok(elapsed) => Some(elapsed.as_secs()),
        Err(_) => None,
    };
    seconds_since_epoch(elapsed)
}

/// The time that a reading of the clock counts as: the whole seconds that have passed since
/// the epoch, and 0 for a reading from before the epoch, which has none.
pub open spec fn seconds_counted(elapsed: Option<u64>) -> u64 {
    match elapsed {
        Some(seconds) => seconds,
        None => 0,
    }
}

/// The time that a reading of the clock counts as, where `elapsed` holds the whole seconds
/// between the epoch and the reading, if the reading is not from before the epoch.
pub fn seconds_since_epoch(elapsed: Option<u64>) -> (seconds: u64)
    ensures
        seconds == seconds_counted(elapsed),
{
    match elapsed {
        Some(seconds) => seconds,
        None => 0,
    }
}

} // verus!
