//! The current time, as the registry measures it.

use std::time::{SystemTime, SystemTimeError};
use vstd::prelude::*;

verus! {

/// A reading of the system clock: `std::time::SystemTime`, opaque here.
#[verifier::external_type_specification]
#[verifier::external_body]
pub struct ExSystemTime(std::time::SystemTime);

/// The error of a clock that reads earlier than the time it is compared
/// with: `std::time::SystemTimeError`, opaque here.
#[verifier::external_type_specification]
#[verifier::external_body]
pub struct ExSystemTimeError(std::time::SystemTimeError);

/// `SystemTime::now` reads the system clock. Nothing is claimed of the
/// reading.
pub assume_specification[ std::time::SystemTime::now ]() -> (time: std::time::SystemTime);

/// `Duration::as_secs` gives the whole seconds of a duration. Nothing is
/// claimed of their number.
pub assume_specification[ std::time::Duration::as_secs ](
    duration: &std::time::Duration,
) -> (seconds: u64);

/// Calls `SystemTime::duration_since` with the epoch as the earlier time.
/// Nothing is claimed of the result: the caller handles an elapsed time of
/// any length, and the error of a clock that reads earlier than the epoch.
#[verifier::external_body]
fn since_epoch(time: &SystemTime) -> (elapsed: Result<std::time::Duration, SystemTimeError>) {
    time.duration_since(SystemTime::UNIX_EPOCH)
}

/// The milliseconds that `seconds` whole seconds make.
pub open spec fn millis_of(seconds: u64) -> int {
    seconds * 1000
}

/// Converts whole seconds to milliseconds, where these fit in 64 bits.
pub fn millis_from_secs(seconds: u64) -> (millis: Option<u64>)
    ensures
        millis_of(seconds) <= u64::MAX ==> millis == Some(millis_of(seconds) as u64),
        millis_of(seconds) > u64::MAX ==> millis is None,
{
    seconds.checked_mul(1000)
}

/// Reads the time in milliseconds since the epoch, to the precision of
/// a second.
///
/// Gives `None` where the clock reads earlier than the epoch, or later than
/// 64 bits of milliseconds hold.
pub fn now_millis() -> (now: Option<u64>)
    ensures
        now matches Some(millis) ==> exists|seconds: u64| millis == #[trigger] millis_of(seconds),
{
    let time = SystemTime::now();
    match since_epoch(&time) {
        Ok(elapsed) => millis_from_secs(elapsed.as_secs()),
        Err(_) => None,
    }
}

} // verus!
