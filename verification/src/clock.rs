//! Reading the system clock and converting durations to milliseconds. The
//! clock is read through std behind trusted items; the conversions to `i64`
//! milliseconds are verified.
use std::time::{Duration, SystemTime, SystemTimeError};
use vstd::prelude::*;

verus! {

#[verifier::external_type_specification]
#[verifier::external_body]
pub struct ExSystemTime(SystemTime);

#[verifier::external_type_specification]
#[verifier::external_body]
pub struct ExSystemTimeError(SystemTimeError);

/// The whole milliseconds of a duration, as `Duration::as_millis` computes
/// them from the duration alone.
pub uninterp spec fn duration_millis(d: Duration) -> u128;

/// `m` is a clock reading: the whole milliseconds that `Duration::as_millis`
/// measured of some duration, as the clock's time since the Unix epoch is.
pub open spec fn is_clock_reading(m: i64) -> bool {
    exists|d: Duration| #[trigger] duration_millis(d) == m
}

/// `SystemTime::now`. The time differs on every call; nothing is promised.
#[verifier::external_body]
pub fn system_time_now() -> (res: SystemTime) {
    SystemTime::now()
}

/// `SystemTime::duration_since(UNIX_EPOCH)`: fails when the clock reads a
/// time before the epoch. Nothing is promised of the duration.
#[verifier::external_body]
pub fn since_unix_epoch(t: SystemTime) -> (res: Result<Duration, SystemTimeError>) {
    t.duration_since(std::time::UNIX_EPOCH)
}

/// `Duration::as_millis`: the whole milliseconds of `d`.
#[verifier::external_body]
pub fn as_millis(d: &Duration) -> (res: u128)
    ensures
        res == duration_millis(*d),
{
    d.as_millis()
}

/// `millis` as `i64`, when it fits.
pub fn millis_to_i64(millis: u128) -> (res: Option<i64>)
    ensures
        res matches Some(m) ==> m == millis,
        res is None <==> millis > i64::MAX,
{
    if millis <= 9223372036854775807u128 {
        Some(millis as i64)
    } else {
        None
    }
}

} // verus!
