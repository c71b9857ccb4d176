//! Wall-clock readings: Unix time in milliseconds and elapsed seconds.
//!
//! The clock itself is read through std; what the library does with a reading
//! is verified for every value the clock may give.

use std::time::{Duration, Instant, SystemTime, SystemTimeError};
use vstd::prelude::*;

verus! {

#[verifier::external_type_specification]
#[verifier::external_body]
pub struct ExSystemTime(SystemTime);

#[verifier::external_type_specification]
#[verifier::external_body]
pub struct ExSystemTimeError(SystemTimeError);

#[verifier::external_type_specification]
#[verifier::external_body]
pub struct ExInstant(Instant);

/// Trusted: calls `std::time::SystemTime::now`. Nothing is claimed of the reading.
#[verifier::external_body]
fn system_time_now() -> SystemTime {
    SystemTime::now()
}

/// Trusted: calls `SystemTime::duration_since` with `UNIX_EPOCH`. Nothing is
/// claimed of the outcome, which depends on the clock.
#[verifier::external_body]
fn since_unix_epoch(t: &SystemTime) -> Result<Duration, SystemTimeError> {
    t.duration_since(SystemTime::UNIX_EPOCH)
}

/// Trusted: calls `Duration::as_millis`. Nothing is claimed of the number,
/// since a `Duration` is opaque here.
#[verifier::external_body]
fn duration_as_millis(d: &Duration) -> u128 {
    d.as_millis()
}

/// Trusted: calls `Duration::as_secs`. Nothing is claimed of the number,
/// since a `Duration` is opaque here.
#[verifier::external_body]
fn duration_as_secs(d: &Duration) -> u64 {
    d.as_secs()
}

/// Trusted: calls `std::time::Instant::now`. Nothing is claimed of the reading.
#[verifier::external_body]
pub(crate) fn instant_now() -> Instant {
    Instant::now()
}

/// Trusted: calls `Instant::elapsed`. Nothing is claimed of the outcome,
/// which depends on the clock.
#[verifier::external_body]
fn instant_elapsed(since: &Instant) -> Duration {
    since.elapsed()
}

/// The timestamp for a reading of `millis` milliseconds since the Unix epoch
/// (`None` for a clock set before the epoch): the reading truncated to `i64`,
/// or 0.
pub open spec fn timestamp_of(millis: Option<u128>) -> i64 {
    match millis {
        Some(m) => m as i64,
        None => 0,
    }
}

/// Turns a clock reading in milliseconds into a timestamp: the low 64 bits of
/// the reading as a signed number, or 0 where there is no reading.
pub fn timestamp_from_millis(millis: Option<u128>) -> (t: i64)
    ensures
        t == timestamp_of(millis),
        millis matches Some(m) ==> (m <= i64::MAX ==> t == m),
        millis is None ==> t == 0,
{
    match millis {
        Some(m) => {
            let t = m as i64;
            assert(m <= i64::MAX ==> t == m) by (bit_vector)
                requires
                    t == m as i64,
            ;
            t
        },
        None => 0,
    }
}

/// Milliseconds since the Unix epoch, as an `i64`; 0 where the clock stands
/// before the epoch.
pub fn get_time() -> i64 {
    let now = system_time_now();
    let millis = match since_unix_epoch(&now) {
        Ok(d) => Some(duration_as_millis(&d)),
        Err(_) => None,
    };
    timestamp_from_millis(millis)
}

/// Whole seconds elapsed since `since`.
pub fn elapsed_secs(since: &Instant) -> u64 {
    let d = instant_elapsed(since);
    duration_as_secs(&d)
}

} // verus!
