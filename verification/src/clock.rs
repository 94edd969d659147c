//! Time as the outside world keeps it: the system clock in whole seconds,
//! and the calendar reading of a timestamp.

use vstd::prelude::*;

verus! {

/// `chrono`'s calendar date and time without a time zone. Its contents are
/// not visible to the contracts: a value of it is only carried.
#[verifier::external_type_specification]
#[verifier::external_body]
pub struct ExNaiveDateTime(chrono::NaiveDateTime);

/// Whether `chrono` has a calendar reading for the Unix timestamp `secs`,
/// as `chrono::NaiveDateTime::from_timestamp_opt(secs, 0)` decides it. It
/// has none for a timestamp further from the common era than its calendar
/// reaches, about 262,000 years.
pub uninterp spec fn has_calendar_time(secs: i64) -> bool;

/// Seconds since the Unix epoch, read from the system clock through
/// `chrono::Utc::now().timestamp()`.
///
/// Nothing is promised of the value: it is whatever the machine's clock says
/// at the moment of the call, and two calls may differ. Callers must be
/// correct for every `i64`. On a machine whose clock stands before 1970 the
/// call does not return: `chrono` panics there.
#[verifier::external_body]
pub(crate) fn unix_now() -> (now: i64) {
    chrono::Utc::now().timestamp()
}

/// The calendar date and time, in UTC, of the Unix timestamp `secs`, through
/// `chrono::NaiveDateTime::from_timestamp_opt(secs, 0)`.
///
/// The contract claims that whether a reading comes back depends on `secs`
/// alone. It says nothing of which date and time the reading holds.
#[allow(deprecated)]
#[verifier::external_body]
pub(crate) fn calendar_time(secs: i64) -> (time: Option<chrono::NaiveDateTime>)
    ensures
        time is Some <==> has_calendar_time(secs),
{
    chrono::NaiveDateTime::from_timestamp_opt(secs, 0)
}

} // verus!
