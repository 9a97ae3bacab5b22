//! Wall-clock time and the text of UTC instants, through `chrono`. Instants
//! are microseconds since the Unix epoch.
use chrono::TimeZone;
use vstd::prelude::*;

verus! {

/// The `YYYY-MM-DD HH:MM:SS UTC` text of an instant, as `chrono` formats it.
pub uninterp spec fn utc_datetime_text(micros: i64) -> Seq<char>;

/// The instant of a UTC calendar date and time as `chrono` computes it, or
/// `None` where the date or time does not exist.
pub uninterp spec fn calendar_instant(
    year: i32,
    month: u32,
    day: u32,
    hour: u32,
    minute: u32,
    second: u32,
) -> Option<i64>;

/// Instants that `chrono` represents: from the start of year -262143 to the
/// end of year 262142, UTC.
pub open spec fn representable_micros(micros: i64) -> bool {
    -8_334_601_315_200_000_000 <= micros <= 8_210_266_876_799_999_999
}

/// The current time; wraps `chrono::Utc::now` (read with
/// `timestamp_micros`). Nothing is stated of its value.
#[verifier::external_body]
pub(crate) fn utc_now_micros() -> i64 {
    chrono::Utc::now().timestamp_micros()
}

/// The text of an instant; wraps `chrono::DateTime::from_timestamp_micros`
/// and `format("%Y-%m-%d %H:%M:%S UTC")`.
#[verifier::external_body]
pub(crate) fn format_utc_datetime(micros: i64) -> (res: String)
    requires
        representable_micros(micros),
    ensures
        res@ == utc_datetime_text(micros),
{
    chrono::DateTime::from_timestamp_micros(micros).unwrap().format("%Y-%m-%d %H:%M:%S UTC").to_string()
}

/// The instant of a calendar date and time in UTC; wraps
/// `chrono::TimeZone::with_ymd_and_hms` on `Utc` and `LocalResult::single`.
#[verifier::external_body]
pub(crate) fn utc_calendar_instant(
    year: i32,
    month: u32,
    day: u32,
    hour: u32,
    minute: u32,
    second: u32,
) -> (res: Option<i64>)
    ensures
        res == calendar_instant(year, month, day, hour, minute, second),
{
    chrono::Utc.with_ymd_and_hms(year, month, day, hour, minute, second).single().map(|t| t.timestamp_micros())
}

} // verus!
