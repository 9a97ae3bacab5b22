//! The instant before which events are left out of a person's context: the
//! events recorded before it are not trusted.
use crate::clock::{calendar_instant, utc_calendar_instant, utc_now_micros};
use vstd::prelude::*;

verus! {

/// The cutoff: the start of 2026-03-18 UTC, in microseconds since the Unix
/// epoch; the current time should `chrono` not know that instant.
pub fn event_history_cutoff() -> (res: i64)
    ensures
        calendar_instant(2026, 3, 18, 0, 0, 0) matches Some(c) ==> res == c,
{
    match utc_calendar_instant(2026, 3, 18, 0, 0, 0) {
        Some(cutoff) => cutoff,
        None => utc_now_micros(),
    }
}

} // verus!
