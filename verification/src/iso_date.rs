//! The ISO 8601 calendar rules that decide which stored dates and date-times
//! are valid, as `temporal_rs` checks them.
use vstd::prelude::*;
use crate::plain_time::{TimeOfDay, valid_time, time_of_day_ns};

verus! {

/// Whether `y` is a leap year of the proleptic Gregorian calendar.
pub open spec fn is_leap_year(y: int) -> bool {
    y % 4 == 0 && (y % 100 != 0 || y % 400 == 0)
}

/// The number of days in month `m` (1–12) of year `y`.
pub open spec fn days_in_month(y: int, m: int) -> int {
    if m == 2 {
        if is_leap_year(y) { 29 } else { 28 }
    } else if m == 4 || m == 6 || m == 9 || m == 11 {
        30
    } else {
        31
    }
}

/// Whether the fields name a day of the ISO calendar.
pub open spec fn valid_iso_date(y: int, m: int, d: int) -> bool {
    1 <= m <= 12 && 1 <= d <= days_in_month(y, m)
}

/// Whether date `(y1, m1, d1)` is on or before `(y2, m2, d2)`.
pub open spec fn date_on_or_before(y1: int, m1: int, d1: int, y2: int, m2: int, d2: int) -> bool {
    y1 < y2 || (y1 == y2 && (m1 < m2 || (m1 == m2 && d1 <= d2)))
}

/// Whether a date lies within the range Temporal allows: from
/// -271821-04-19 through +275760-09-13 (the instant range widened by a day,
/// taken at noon).
pub open spec fn date_in_limits(y: int, m: int, d: int) -> bool {
    date_on_or_before(-271821, 4, 19, y, m, d) && date_on_or_before(y, m, d, 275760, 9, 13)
}

/// Whether `temporal_rs` accepts the fields as a plain date.
pub open spec fn accepted_date(y: int, m: int, d: int) -> bool {
    valid_iso_date(y, m, d) && date_in_limits(y, m, d)
}

/// Whether `temporal_rs` accepts the fields as a plain date-time: a valid
/// date and time, strictly inside the instant range widened by a day (so the
/// first allowed day is allowed only after midnight).
pub open spec fn accepted_date_time(y: int, m: int, d: int, t: TimeOfDay) -> bool {
    &&& accepted_date(y, m, d)
    &&& valid_time(t)
    &&& !(y == -271821 && m == 4 && d == 19 && time_of_day_ns(t) == 0)
}

/// `accepted_date_time` of stored field types.
pub open spec fn accepts_date_time(y: i32, m: u8, d: u8, t: TimeOfDay) -> bool {
    accepted_date_time(y as int, m as int, d as int, t)
}

/// Midnight.
pub open spec fn midnight() -> TimeOfDay {
    TimeOfDay { hour: 0, minute: 0, second: 0, millisecond: 0, microsecond: 0, nanosecond: 0 }
}

} // verus!
