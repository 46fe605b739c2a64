//! The system clock, read as whole milliseconds since the Unix epoch.

use std::time::{Duration, SystemTime, SystemTimeError};
use vstd::prelude::*;

verus! {

/// `std::time::SystemTime`, a reading of the system clock. Nothing is known
/// of what a value holds.
#[verifier::external_type_specification]
#[verifier::external_body]
pub struct ExSystemTime(SystemTime);

/// `std::time::SystemTimeError`, which `SystemTime::duration_since` returns
/// where the second reading is later than the first.
#[verifier::external_type_specification]
#[verifier::external_body]
pub struct ExSystemTimeError(SystemTimeError);

/// `SystemTime::now` reads the system clock. The reading depends on the
/// moment of the call, so nothing is stated of it.
pub assume_specification[ SystemTime::now ]() -> (now: SystemTime);

/// Calls `SystemTime::duration_since` with `std::time::UNIX_EPOCH` as the
/// earlier reading: the time elapsed from the Unix epoch to `reading`, or an
/// error where `reading` lies before the Unix epoch. A reading is opaque, so
/// nothing is stated of the result.
#[verifier::external_body]
fn since_unix_epoch(reading: &SystemTime) -> (elapsed: Result<Duration, SystemTimeError>) {
    reading.duration_since(SystemTime::UNIX_EPOCH)
}

/// The whole milliseconds that a duration holds, as `Duration::as_millis`
/// counts them.
pub uninterp spec fn duration_millis(duration: Duration) -> u128;

/// `Duration::as_millis` gives the whole milliseconds that a duration holds.
/// The count depends on the duration alone: it is `duration_millis` of it.
pub assume_specification[ Duration::as_millis ](duration: &Duration) -> (millis: u128)
    ensures
        millis == duration_millis(*duration),
;

/// Why the clock could not be read.
#[derive(Clone, Copy, Debug, PartialEq, Eq)]
pub enum ClockError {
    /// The system clock reads a time before the Unix epoch.
    BehindUnixEpoch,
}

/// What a clock reading comes to, given the time from the Unix epoch to the
/// reading as `SystemTime::duration_since` returned it: the whole
/// milliseconds of that time, or `BehindUnixEpoch` where the reading lies
/// before the Unix epoch.
pub fn millis_since_unix_epoch(elapsed: Result<Duration, SystemTimeError>) -> (millis: Result<
    u128,
    ClockError,
>)
    ensures
        elapsed matches Ok(duration) ==> millis == Ok::<u128, ClockError>(
            duration_millis(duration),
        ),
        elapsed is Err ==> millis == Err::<u128, ClockError>(ClockError::BehindUnixEpoch),
{
    match elapsed {
        Ok(elapsed) => Ok(elapsed.as_millis()),
        Err(_) => Err(ClockError::BehindUnixEpoch),
    }
}

/// Reads the system clock as whole milliseconds since the Unix epoch.
/// Fails where the clock reads a time before the Unix epoch, and for no
/// other reason.
pub fn unix_time_millis() -> (millis: Result<u128, ClockError>)
    ensures
        millis matches Err(error) ==> error == ClockError::BehindUnixEpoch,
{
    let now: SystemTime = SystemTime::now();
    millis_since_unix_epoch(since_unix_epoch(&now))
}

} // verus!
