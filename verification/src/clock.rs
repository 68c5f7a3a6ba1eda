//! The wall clock.

use std::time::{Duration, SystemTime, SystemTimeError};
use vstd::prelude::*;

use crate::calls::{outcome, outcome_on};

verus! {

/// A point in time of the system's clock.
#[verifier::external_type_specification]
#[verifier::external_body]
pub struct ExSystemTime(SystemTime);

/// The error of a time that lies before the one it is measured from.
#[verifier::external_type_specification]
#[verifier::external_body]
pub struct ExSystemTimeError(SystemTimeError);

/// `SystemTime::now` of the standard library reads the clock; nothing is claimed of the reading.
pub assume_specification[ SystemTime::now ]() -> SystemTime;

/// `Duration::as_secs` of the standard library gives whole seconds; nothing is claimed of them.
pub assume_specification[ Duration::as_secs ](d: &Duration) -> u64;

/// Calls `SystemTime::duration_since` of the standard library on the Unix epoch; nothing is claimed
/// of how long ago it was.
#[verifier::external_body]
pub(crate) fn since_epoch(t: SystemTime) -> Result<Duration, SystemTimeError> {
    t.duration_since(SystemTime::UNIX_EPOCH)
}

/// Whether a reading is one of the clock: the time since the Unix epoch of a time that the system
/// gave.
pub closed spec fn clock_reading(reading: Option<u64>) -> bool {
    exists|now: SystemTime, elapsed: Result<Duration, SystemTimeError>|
        call_ensures(SystemTime::now, (), now) && call_ensures(since_epoch, (now,), elapsed)
            && is_reading(elapsed, reading)
}

/// The whole seconds since the Unix epoch, or nothing where the clock stands before it.
pub(crate) fn read_clock() -> (r: Option<u64>)
    ensures
        clock_reading(r),
{
    let now = outcome(SystemTime::now);
    let elapsed = outcome_on(since_epoch, now);
    whole_seconds(elapsed)
}

/// Whether a reading is the whole seconds of the time since the Unix epoch, or nothing where the
/// clock stands before it.
pub open spec fn is_reading(
    elapsed: Result<Duration, SystemTimeError>,
    reading: Option<u64>,
) -> bool {
    match elapsed {
        Ok(d) => reading matches Some(seconds) && call_ensures(Duration::as_secs, (&d,), seconds),
        Err(_) => reading is None,
    }
}

/// A reading is that of a time that the system gave: its whole seconds since the Unix epoch, or
/// nothing where it lies before that.
pub(crate) proof fn a_reading_comes_from_the_clock(reading: Option<u64>)
    requires
        clock_reading(reading),
    ensures
        exists|now: SystemTime, elapsed: Result<Duration, SystemTimeError>|
            call_ensures(SystemTime::now, (), now) && #[trigger] call_ensures(
                since_epoch,
                (now,),
                elapsed,
            ) && (elapsed matches Ok(d) ==> reading is Some && call_ensures(
                Duration::as_secs,
                (&d,),
                reading->0,
            )) && (elapsed is Err ==> reading is None),
{
}

/// Gives the whole seconds of the time since the Unix epoch.
pub fn whole_seconds(elapsed: Result<Duration, SystemTimeError>) -> (r: Option<u64>)
    ensures
        is_reading(elapsed, r),
{
    elapsed.as_ref().map(Duration::as_secs).ok()
}

} // verus!
