//! Time units and epochs: wall-clock microseconds, and the conversion of
//! 100-nanosecond ticks counted from 1601-01-01.

use crate::integer::{clamp_i64, toward_zero};
use std::time::{Duration, SystemTime, SystemTimeError, UNIX_EPOCH};
use vstd::prelude::*;

verus! {

/// `std::time::SystemTime`: an instant of the system clock, opaque here.
#[verifier::external_type_specification]
#[verifier::external_body]
pub struct ExSystemTime(std::time::SystemTime);

/// `std::time::SystemTimeError`: by how much an instant precedes another,
/// opaque here.
#[verifier::external_type_specification]
#[verifier::external_body]
pub struct ExSystemTimeError(std::time::SystemTimeError);

/// `SystemTime::now`: the instant that the system clock shows. Nothing is
/// claimed of it.
#[verifier::external_body]
fn system_now() -> (instant: SystemTime) {
    SystemTime::now()
}

/// `SystemTime::duration_since`, against `UNIX_EPOCH`: the time from the epoch
/// to `instant`, or an error where `instant` precedes the epoch. Nothing is
/// claimed of either.
#[verifier::external_body]
fn since_unix_epoch(instant: &SystemTime) -> (span: Result<Duration, SystemTimeError>) {
    instant.duration_since(UNIX_EPOCH)
}

/// `SystemTimeError::duration`: the time by which the instant precedes the
/// epoch. Nothing is claimed of it.
#[verifier::external_body]
fn shortfall(error: &SystemTimeError) -> (span: Duration) {
    error.duration()
}

/// `Duration::as_micros`: the whole microseconds in `span`. Nothing is claimed
/// of their number.
#[verifier::external_body]
fn whole_micros(span: &Duration) -> (micros: u128) {
    span.as_micros()
}

/// A count of microseconds after the epoch, or before it, as a signed number
/// limited to the range of a signed 64-bit integer.
pub open spec fn signed_micros_spec(magnitude: int, before_epoch: bool) -> int {
    clamp_i64(if before_epoch {
        -magnitude
    } else {
        magnitude
    })
}

/// A count of microseconds after the epoch, or before it, as a signed number
/// that stays at the nearest bound where the count does not fit.
pub fn signed_micros(magnitude: u128, before_epoch: bool) -> (micros: i64)
    ensures
        micros == signed_micros_spec(magnitude as int, before_epoch),
{
    if before_epoch {
        if magnitude > i64::MAX as u128 {
            i64::MIN
        } else {
            -(magnitude as i64)
        }
    } else if magnitude > i64::MAX as u128 {
        i64::MAX
    } else {
        magnitude as i64
    }
}

/// A count of microseconds after the epoch as a signed number, where it is
/// one: no count before the epoch is, nor one past the range of a signed
/// 64-bit integer.
pub fn checked_micros(magnitude: u128, before_epoch: bool) -> (micros: Option<i64>)
    ensures
        micros is None <==> before_epoch || magnitude > i64::MAX,
        micros matches Some(count) ==> count == magnitude,
{
    if before_epoch || magnitude > i64::MAX as u128 {
        None
    } else {
        Some(magnitude as i64)
    }
}

/// Wall-clock time in microseconds since the UNIX epoch; `None` where the
/// system clock stands before the epoch or the count does not fit.
pub fn try_micros_since_epoch() -> (now: Option<i64>)
    ensures
        now matches Some(count) ==> count >= 0,
{
    let instant: SystemTime = system_now();
    match since_unix_epoch(&instant) {
        Ok(span) => checked_micros(whole_micros(&span), false),
        Err(error) => {
            let span: Duration = shortfall(&error);
            checked_micros(whole_micros(&span), true)
        },
    }
}

/// Wall-clock time in microseconds since the UNIX epoch, negative where the
/// system clock stands before it.
pub fn micros_since_epoch() -> (now: i64) {
    let instant: SystemTime = system_now();
    match since_unix_epoch(&instant) {
        Ok(span) => signed_micros(whole_micros(&span), false),
        Err(error) => {
            let span: Duration = shortfall(&error);
            signed_micros(whole_micros(&span), true)
        },
    }
}

/// Microseconds between 1601-01-01 and 1970-01-01.
pub const NT_UNIX_MICROSEC_DIFF: i64 = 11_644_473_600_000_000;

/// Number of 100-nanosecond ticks in one microsecond.
pub const TICKS_PER_MICRO: i64 = 10;

/// The microseconds in a count of ticks: its quotient by ten, rounded toward
/// zero.
pub open spec fn ticks_to_micros_spec(ticks: int) -> int {
    toward_zero(ticks, TICKS_PER_MICRO as int)
}

/// Converts a count of 100-nanosecond ticks to microseconds, rounding toward zero.
pub fn ticks_to_micros(ticks: i64) -> (micros: i64)
    ensures
        micros == ticks_to_micros_spec(ticks as int),
{
    ticks / TICKS_PER_MICRO
}

/// Converts an instant in 100-nanosecond ticks since 1601-01-01 to
/// microseconds since the UNIX epoch.
pub fn nt_ticks_to_unix_micros(ticks: i64) -> (unix: i64)
    ensures
        unix == ticks_to_micros_spec(ticks as int) - NT_UNIX_MICROSEC_DIFF,
{
    nt_to_unix(ticks_to_micros(ticks))
}

/// Shifts a microsecond count from the 1601 epoch to the UNIX epoch.
pub fn nt_to_unix(time: i64) -> (unix: i64)
    requires
        time - NT_UNIX_MICROSEC_DIFF >= i64::MIN,
    ensures
        unix == time - NT_UNIX_MICROSEC_DIFF,
{
    time - NT_UNIX_MICROSEC_DIFF
}

} // verus!
