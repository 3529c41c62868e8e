//! Trusted boundary to the system clock and calendar.
//!
//! Time and time-zone answers depend on the machine, so nothing beyond
//! documented ranges is assumed of them; parsing a timestamp string is a
//! pure function of the string alone and is given a name the contracts can
//! share.

use vstd::prelude::*;

use chrono::Offset;
use chrono::Timelike;

verus! {

/// Relies on chrono's `Local::now()` and `Timelike::hour`, documented to
/// return the hour number from 0 to 23.
#[verifier::external_body]
pub(crate) fn local_hour_now() -> (h: u32)
    ensures
        h < 24,
{
    chrono::Local::now().hour()
}

/// Relies on chrono's `Local::now()`, `Timelike::hour` (0 to 23) and
/// `Timelike::minute` (0 to 59): the current local time as minutes past
/// midnight.
#[verifier::external_body]
pub(crate) fn local_minutes_now() -> (m: u32)
    ensures
        m < 1440,
{
    let now = chrono::Local::now();
    now.hour() * 60 + now.minute()
}

/// Relies on chrono's `Local::now()` and `format`: the current local date,
/// year-month-day.
#[verifier::external_body]
pub(crate) fn local_date_string() -> String {
    chrono::Local::now().format("%Y-%m-%d").to_string()
}

/// Relies on chrono's `Local::now()` and `format`: the current local time
/// as an ISO-8601 timestamp without a zone suffix.
#[verifier::external_body]
pub(crate) fn local_timestamp_string() -> String {
    chrono::Local::now().format("%Y-%m-%dT%H:%M:%S").to_string()
}

/// Relies on chrono's `Offset::fix` and `FixedOffset::local_minus_utc`:
/// the local zone's offset from UTC in seconds, which `FixedOffset`
/// constrains to the open interval (-86400, 86400).
#[verifier::external_body]
pub(crate) fn local_utc_offset_seconds() -> (s: i32)
    ensures
        -86400 < s < 86400,
{
    chrono::Local::now().offset().fix().local_minus_utc()
}

/// What chrono's RFC-3339 parser makes of a timestamp string: the UTC
/// seconds since the epoch, or nothing when the string does not parse.
pub uninterp spec fn utc_seconds_of(s: Seq<char>) -> Option<i64>;

/// Relies on chrono's `FromStr` for `DateTime<Utc>` (a relaxed RFC 3339)
/// and `DateTime::timestamp`: the parse depends on the string alone.
#[verifier::external_body]
pub(crate) fn parse_utc_timestamp(s: &str) -> (r: Option<i64>)
    ensures
        r == utc_seconds_of(s@),
{
    s.parse::<chrono::DateTime<chrono::Utc>>().ok().map(|d| d.timestamp())
}

} // verus!
