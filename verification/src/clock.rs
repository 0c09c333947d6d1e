//! The two clocks of the service: the steady clock that paces the attempts and
//! the calendar clock that dates the snapshots. The readings and the calendar
//! are trusted: their contracts are believed, not proved.

use crate::naming::UtcStamp;
use vstd::prelude::*;

verus! {

/// A point of the steady clock, as `tokio` measures it. Opaque.
#[verifier::external_type_specification]
#[verifier::external_body]
pub struct ExInstant(tokio::time::Instant);

/// A point of the system clock, as `std` measures it. Opaque.
#[verifier::external_type_specification]
#[verifier::external_body]
pub struct ExSystemTime(std::time::SystemTime);

/// The UTC date and time of day, as `chrono` reckons them, of the moment
/// `seconds` after the beginning of 1970; `None` where `chrono` has no date
/// for that moment.
pub uninterp spec fn utc_civil(seconds: int) -> Option<UtcStamp>;

/// Calls `tokio::time::Instant::now`. The result depends on the moment of the
/// call, so nothing is claimed of it.
#[verifier::external_body]
pub(crate) fn instant_now() -> tokio::time::Instant {
    tokio::time::Instant::now()
}

/// Calls `tokio::time::Instant::elapsed` and gives the whole seconds of the
/// duration. The result depends on the moment of the call, so nothing is
/// claimed of it.
#[verifier::external_body]
pub(crate) fn elapsed_seconds(since: &tokio::time::Instant) -> u64 {
    since.elapsed().as_secs()
}

/// Calls `std::time::SystemTime::now`. The result depends on the moment of
/// the call, so nothing is claimed of it.
#[verifier::external_body]
pub(crate) fn system_now() -> std::time::SystemTime {
    std::time::SystemTime::now()
}

/// Calls `std::time::SystemTime::duration_since` with the beginning of 1970
/// and gives the whole seconds of the duration; `None` where `moment` lies
/// before 1970. An opaque value has no model, so nothing is claimed of the
/// number.
#[verifier::external_body]
pub(crate) fn seconds_since_epoch(moment: &std::time::SystemTime) -> Option<u64> {
    match moment.duration_since(std::time::UNIX_EPOCH) {
        Ok(passed) => Some(passed.as_secs()),
        Err(_) => None,
    }
}

/// Calls `chrono::DateTime::from_timestamp` with `seconds` and no fraction,
/// and reads the year, month, day, hour, minute and second of the result
/// with the methods of `chrono::Datelike` and `chrono::Timelike`. The
/// contract names the outcome as `utc_civil`, with `None` exactly where
/// `chrono` answers `None`, and claims of the numbers the ranges that the
/// documentation of those methods gives.
#[verifier::external_body]
pub(crate) fn civil_time(seconds: i64) -> (r: Option<UtcStamp>)
    ensures
        r == utc_civil(seconds as int),
        r matches Some(stamp) ==> stamp.well_formed(),
{
    match chrono::DateTime::from_timestamp(seconds, 0) {
        Some(moment) => Some(
            UtcStamp {
                year: chrono::Datelike::year(&moment.naive_utc()),
                month: chrono::Datelike::month(&moment.naive_utc()),
                day: chrono::Datelike::day(&moment.naive_utc()),
                hour: chrono::Timelike::hour(&moment.naive_utc()),
                minute: chrono::Timelike::minute(&moment.naive_utc()),
                second: chrono::Timelike::second(&moment.naive_utc()),
            },
        ),
        None => None,
    }
}

/// The UTC date and time of day of the moment that the system clock gave as
/// `seconds` after the beginning of 1970. There is none where the clock gave
/// no such number, where the number is beyond what the calendar takes, and
/// where the calendar has no date for it.
pub fn utc_at(seconds: Option<u64>) -> (r: Option<UtcStamp>)
    ensures
        r == (match seconds {
            Some(passed) => if passed <= 0x7fff_ffff_ffff_ffff {
                utc_civil(passed as int)
            } else {
                None
            },
            None => None,
        }),
        r matches Some(stamp) ==> stamp.well_formed(),
{
    match seconds {
        Some(passed) => {
            if passed > 0x7fff_ffff_ffff_ffff {
                None
            } else {
                civil_time(passed as i64)
            }
        },
        None => None,
    }
}

/// The present UTC date and time of day; `None` where the system clock
/// stands before 1970 or beyond the dates that the calendar knows.
pub fn utc_now() -> (r: Option<UtcStamp>)
    ensures
        r matches Some(stamp) ==> stamp.well_formed() && exists|seconds: int| #[trigger]
            utc_civil(seconds) == Some(stamp),
{
    let moment = system_now();
    utc_at(seconds_since_epoch(&moment))
}

} // verus!
