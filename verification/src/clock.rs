//! The two clocks an engine reads: a monotonic one for the rate limit and
//! the wall clock for audit records.

use std::time::{Duration, Instant, SystemTime, SystemTimeError};
use vstd::prelude::*;

verus! {

/// A point on the monotonic clock.
#[verifier::external_type_specification]
#[verifier::external_body]
pub struct ExInstant(Instant);

/// A point on the wall clock.
#[verifier::external_type_specification]
#[verifier::external_body]
pub struct ExSystemTime(SystemTime);

/// What `duration_since` reports when the earlier point is the later one.
#[verifier::external_type_specification]
#[verifier::external_body]
pub struct ExSystemTimeError(SystemTimeError);

/// `Instant::now` reads the monotonic clock; nothing is claimed of the
/// reading.
pub assume_specification[ Instant::now ]() -> (now: Instant)
;

/// `Instant::elapsed` measures the time since the instant was taken;
/// nothing is claimed of the measure.
pub assume_specification[ Instant::elapsed ](start: &Instant) -> (elapsed: Duration)
;

/// `Duration::as_secs` gives the whole seconds of a duration; nothing is
/// claimed of their number.
pub assume_specification[ Duration::as_secs ](duration: &Duration) -> (seconds: u64)
;

/// `Duration::as_nanos` gives a duration in nanoseconds; nothing is
/// claimed of their number.
pub assume_specification[ Duration::as_nanos ](duration: &Duration) -> (nanos: u128)
;

/// `SystemTime::now` reads the wall clock; nothing is claimed of the
/// reading.
pub assume_specification[ SystemTime::now ]() -> (now: SystemTime)
;

/// Calls `SystemTime::duration_since` with the Unix epoch as the earlier
/// point. It measures the time from the epoch to `time`, and fails when
/// `time` lies before the epoch; nothing is claimed of the measure.
#[verifier::external_body]
fn since_unix_epoch(time: &SystemTime) -> (elapsed: Result<Duration, SystemTimeError>) {
    time.duration_since(SystemTime::UNIX_EPOCH)
}

/// Nanoseconds since `start` on the monotonic clock.
pub(crate) fn nanos_since(start: &Instant) -> u128 {
    let elapsed = start.elapsed();
    elapsed.as_nanos()
}

/// Whole seconds since the Unix epoch on the wall clock, and zero for a
/// wall clock that is set before the epoch.
pub(crate) fn unix_seconds() -> u64 {
    let now = SystemTime::now();
    let measured = match since_unix_epoch(&now) {
        Ok(elapsed) => Ok(elapsed.as_secs()),
        Err(fault) => Err(fault),
    };
    timestamp_from(measured)
}

/// The time that a record carries for a measure of the wall clock against
/// the Unix epoch: the whole seconds that were measured, and zero where the
/// wall clock is set before the epoch and nothing could be measured.
pub open spec fn timestamp_of(measured: Result<u64, SystemTimeError>) -> u64 {
    match measured {
        Ok(seconds) => seconds,
        Err(_) => 0,
    }
}

/// Turns the outcome of measuring the wall clock against the Unix epoch
/// into the time that a record carries.
pub fn timestamp_from(measured: Result<u64, SystemTimeError>) -> (timestamp: u64)
    ensures
        timestamp == timestamp_of(measured),
{
    match measured {
        Ok(seconds) => seconds,
        Err(_) => 0,
    }
}

} // verus!
