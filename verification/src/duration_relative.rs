//! Duration rounding, and duration arithmetic relative to a starting point
//! (needed once years, months, weeks or days are involved).
use vstd::prelude::*;
use temporal_rs::{Calendar, PlainDateTime as TemporalPdt, TimeZone, ZonedDateTime as TemporalZdt};
use temporal_rs::options::{RelativeTo, RoundingOptions};
use crate::calendar::temporal_calendar_id;
use crate::duration::{Duration, balance_time, from_temporal_duration, temporal_accepts_duration,
    to_temporal_duration};
use crate::error::{Error, from_temporal_error};
use crate::iso_date::accepted_date_time;
use crate::order::text_equal;
use crate::plain_date::stored_calendar;
use crate::plain_datetime::{PlainDateTime, date_time_difference, date_time_loads, date_time_plus,
    plain_datetime_add, plain_datetime_subtract, plain_datetime_until, time_fields_of};
use crate::plain_time::TimeOfDay;
use crate::zoned_datetime::{ZonedDateTime, add_to_zoned, temporal_zoned_add, temporal_zoned_loads,
    until_zoned, zoned_plus};

verus! {

/// A unit of time, as a rounding option names it.
#[derive(Clone, Copy, Debug, PartialEq, Eq, Structural)]
pub enum Unit {
    Auto,
    Year,
    Month,
    Week,
    Day,
    Hour,
    Minute,
    Second,
    Millisecond,
    Microsecond,
    Nanosecond,
}

/// The unit a name stands for: `auto`, or a unit in the singular or plural
/// (`year`, `years`, ..., `nanosecond`, `nanoseconds`), lower case.
pub open spec fn unit_of_name(s: Seq<char>) -> Option<Unit> {
    if s == "auto"@ { Some(Unit::Auto) }
    else if s == "year"@ || s == "years"@ { Some(Unit::Year) }
    else if s == "month"@ || s == "months"@ { Some(Unit::Month) }
    else if s == "week"@ || s == "weeks"@ { Some(Unit::Week) }
    else if s == "day"@ || s == "days"@ { Some(Unit::Day) }
    else if s == "hour"@ || s == "hours"@ { Some(Unit::Hour) }
    else if s == "minute"@ || s == "minutes"@ { Some(Unit::Minute) }
    else if s == "second"@ || s == "seconds"@ { Some(Unit::Second) }
    else if s == "millisecond"@ || s == "milliseconds"@ { Some(Unit::Millisecond) }
    else if s == "microsecond"@ || s == "microseconds"@ { Some(Unit::Microsecond) }
    else if s == "nanosecond"@ || s == "nanoseconds"@ { Some(Unit::Nanosecond) }
    else { None }
}

/// Reads a unit name, as `temporal_rs`'s `Unit::from_str` does.
pub fn unit_from_name(s: &str) -> (r: Option<Unit>)
    ensures r == unit_of_name(s@),
{
    if text_equal(s, "auto") { Some(Unit::Auto) }
    else if text_equal(s, "year") || text_equal(s, "years") { Some(Unit::Year) }
    else if text_equal(s, "month") || text_equal(s, "months") { Some(Unit::Month) }
    else if text_equal(s, "week") || text_equal(s, "weeks") { Some(Unit::Week) }
    else if text_equal(s, "day") || text_equal(s, "days") { Some(Unit::Day) }
    else if text_equal(s, "hour") || text_equal(s, "hours") { Some(Unit::Hour) }
    else if text_equal(s, "minute") || text_equal(s, "minutes") { Some(Unit::Minute) }
    else if text_equal(s, "second") || text_equal(s, "seconds") { Some(Unit::Second) }
    else if text_equal(s, "millisecond") || text_equal(s, "milliseconds") { Some(Unit::Millisecond) }
    else if text_equal(s, "microsecond") || text_equal(s, "microseconds") { Some(Unit::Microsecond) }
    else if text_equal(s, "nanosecond") || text_equal(s, "nanoseconds") { Some(Unit::Nanosecond) }
    else { None }
}

/// The rounding options with `unit` as the smallest unit and the defaults
/// otherwise.
#[verifier::external_body]
fn rounding_to(unit: Unit) -> RoundingOptions {
    let mut opts = RoundingOptions::default();
    opts.smallest_unit = Some(match unit {
        Unit::Auto => temporal_rs::options::Unit::Auto,
        Unit::Year => temporal_rs::options::Unit::Year,
        Unit::Month => temporal_rs::options::Unit::Month,
        Unit::Week => temporal_rs::options::Unit::Week,
        Unit::Day => temporal_rs::options::Unit::Day,
        Unit::Hour => temporal_rs::options::Unit::Hour,
        Unit::Minute => temporal_rs::options::Unit::Minute,
        Unit::Second => temporal_rs::options::Unit::Second,
        Unit::Millisecond => temporal_rs::options::Unit::Millisecond,
        Unit::Microsecond => temporal_rs::options::Unit::Microsecond,
        Unit::Nanosecond => temporal_rs::options::Unit::Nanosecond,
    });
    opts
}

/// The `temporal_rs` rounding options, carried opaquely.
#[verifier::external_type_specification]
#[verifier::external_body]
pub struct ExRoundingOptions(RoundingOptions);

// ---------------------------------------------------------------------------
// Rounding
// ---------------------------------------------------------------------------

/// The duration `temporal_rs` rounds `d` to, with `unit` as the smallest
/// unit (half-expand, increment 1) and no reference point, if it can.
pub uninterp spec fn temporal_duration_round(d: Duration, unit: Unit) -> Option<Duration>;

/// As `temporal_duration_round`, relative to stored zoned fields.
pub uninterp spec fn temporal_duration_round_zoned(d: Duration, unit: Unit, ns: i128, tz: Seq<char>, cal: Seq<char>) -> Option<Duration>;

/// As `temporal_duration_round`, relative to an ISO date in the named calendar.
pub uninterp spec fn temporal_duration_round_plain(d: Duration, unit: Unit, y: i32, m: u8, day: u8, cal: Seq<char>) -> Option<Duration>;

/// Rounds a duration without a reference point.
///
/// Calls `temporal_rs::Duration::round` with `unit` as the smallest unit and
/// no relative-to value. Claimed: it can succeed only for an accepted
/// duration, and then the result is `temporal_duration_round`.
#[verifier::external_body]
fn outside_duration_round(d: &Duration, unit: Unit) -> (r: Result<Duration, temporal_rs::TemporalError>)
    ensures
        r is Ok ==> temporal_accepts_duration(*d),
        temporal_accepts_duration(*d) ==> match r {
            Ok(v) => temporal_duration_round(*d, unit) == Some(v),
            Err(_) => temporal_duration_round(*d, unit) is None,
        },
{
    Ok(from_temporal_duration(&to_temporal_duration(d)?.round(rounding_to(unit), None)?))
}

/// Rounds a duration relative to stored zoned fields.
///
/// Calls `temporal_rs::ZonedDateTime::try_new` and `Duration::round` with
/// the zoned date-time as the relative-to value. Claimed: it can succeed
/// only when the duration is accepted and the zoned fields load; then the
/// result is `temporal_duration_round_zoned`.
#[verifier::external_body]
fn outside_duration_round_zoned(d: &Duration, unit: Unit, ns: i128, tz: &str, cal: &str)
    -> (r: Result<Duration, temporal_rs::TemporalError>)
    ensures
        r is Ok ==> temporal_accepts_duration(*d) && temporal_zoned_loads(ns, tz@, cal@),
        temporal_accepts_duration(*d) && temporal_zoned_loads(ns, tz@, cal@) ==> match r {
            Ok(v) => temporal_duration_round_zoned(*d, unit, ns, tz@, cal@) == Some(v),
            Err(_) => temporal_duration_round_zoned(*d, unit, ns, tz@, cal@) is None,
        },
{
    let td = to_temporal_duration(d)?;
    let z = TemporalZdt::try_new(ns, TimeZone::try_from_str(tz)?, Calendar::try_from_utf8(cal.as_bytes())?)?;
    Ok(from_temporal_duration(&td.round(rounding_to(unit), Some(RelativeTo::from(z)))?))
}

/// Rounds a duration relative to the date of a stored date-time.
///
/// Calls `temporal_rs::PlainDateTime::try_new_iso`, `with_calendar`,
/// `to_plain_date` and `Duration::round` with that date as the relative-to
/// value. Claimed: it can succeed only when the duration is accepted, the
/// calendar loads and the date-time is accepted; then the result is
/// `temporal_duration_round_plain` of its date.
#[verifier::external_body]
fn outside_duration_round_plain(d: &Duration, unit: Unit, y: i32, m: u8, day: u8, t: &TimeOfDay, cal: &str)
    -> (r: Result<Duration, temporal_rs::TemporalError>)
    ensures
        r is Ok ==> temporal_accepts_duration(*d) && temporal_calendar_id(cal@) is Some
            && accepted_date_time(y as int, m as int, day as int, *t),
        temporal_accepts_duration(*d) && temporal_calendar_id(cal@) is Some
            && accepted_date_time(y as int, m as int, day as int, *t) ==> match r {
                Ok(v) => temporal_duration_round_plain(*d, unit, y, m, day, cal@) == Some(v),
                Err(_) => temporal_duration_round_plain(*d, unit, y, m, day, cal@) is None,
            },
{
    let td = to_temporal_duration(d)?;
    let c = Calendar::try_from_utf8(cal.as_bytes())?;
    let p = TemporalPdt::try_new_iso(y, m, day, t.hour, t.minute, t.second, t.millisecond, t.microsecond,
        t.nanosecond)?.with_calendar(c).to_plain_date();
    Ok(from_temporal_duration(&td.round(rounding_to(unit), Some(RelativeTo::from(p)))?))
}

/// What rounding `d` to `unit` gives, when `d` is accepted and
/// `temporal_rs` rounds it.
pub open spec fn rounded(d: Duration, unit: Unit) -> Option<Duration> {
    if temporal_accepts_duration(d) { temporal_duration_round(d, unit) } else { None }
}

/// What rounding `d` to `unit` relative to a zoned date-time gives.
pub open spec fn rounded_zoned(d: Duration, unit: Unit, ns: i128, tz: Seq<char>, cal: Seq<char>) -> Option<Duration> {
    if temporal_accepts_duration(d) && temporal_zoned_loads(ns, tz, cal) {
        temporal_duration_round_zoned(d, unit, ns, tz, cal)
    } else {
        None
    }
}

/// What rounding `d` to `unit` relative to the date of a plain date-time gives.
pub open spec fn rounded_plain(d: Duration, unit: Unit, p: PlainDateTime) -> Option<Duration> {
    if temporal_accepts_duration(d) && date_time_loads(p) {
        temporal_duration_round_plain(d, unit, p.year, p.month, p.day, crate::plain_date::stored_name(p.cal_idx))
    } else {
        None
    }
}

/// Every unit name reads as the unit it names, in the singular and in the
/// plural (`auto` has no plural), and a name that is no unit reads as none.
pub proof fn lemma_unit_names()
    ensures
        unit_of_name("auto"@) == Some(Unit::Auto),
        unit_of_name("year"@) == Some(Unit::Year),
        unit_of_name("years"@) == Some(Unit::Year),
        unit_of_name("month"@) == Some(Unit::Month),
        unit_of_name("months"@) == Some(Unit::Month),
        unit_of_name("week"@) == Some(Unit::Week),
        unit_of_name("weeks"@) == Some(Unit::Week),
        unit_of_name("day"@) == Some(Unit::Day),
        unit_of_name("days"@) == Some(Unit::Day),
        unit_of_name("hour"@) == Some(Unit::Hour),
        unit_of_name("hours"@) == Some(Unit::Hour),
        unit_of_name("minute"@) == Some(Unit::Minute),
        unit_of_name("minutes"@) == Some(Unit::Minute),
        unit_of_name("second"@) == Some(Unit::Second),
        unit_of_name("seconds"@) == Some(Unit::Second),
        unit_of_name("millisecond"@) == Some(Unit::Millisecond),
        unit_of_name("milliseconds"@) == Some(Unit::Millisecond),
        unit_of_name("microsecond"@) == Some(Unit::Microsecond),
        unit_of_name("microseconds"@) == Some(Unit::Microsecond),
        unit_of_name("nanosecond"@) == Some(Unit::Nanosecond),
        unit_of_name("nanoseconds"@) == Some(Unit::Nanosecond),
        unit_of_name("fortnight"@) is None,
{
    reveal_strlit("auto");
    reveal_strlit("year");
    reveal_strlit("years");
    reveal_strlit("month");
    reveal_strlit("months");
    reveal_strlit("week");
    reveal_strlit("weeks");
    reveal_strlit("day");
    reveal_strlit("days");
    reveal_strlit("hour");
    reveal_strlit("hours");
    reveal_strlit("minute");
    reveal_strlit("minutes");
    reveal_strlit("second");
    reveal_strlit("seconds");
    reveal_strlit("millisecond");
    reveal_strlit("milliseconds");
    reveal_strlit("microsecond");
    reveal_strlit("microseconds");
    reveal_strlit("nanosecond");
    reveal_strlit("nanoseconds");
    reveal_strlit("fortnight");
    assert("year"@ != "auto"@) by { assert("year"@[0] != "auto"@[0]); }
    assert("years"@ != "auto"@) by { assert("years"@.len() != "auto"@.len()); }
    assert("years"@ != "year"@) by { assert("years"@.len() != "year"@.len()); }
    assert("month"@ != "auto"@) by { assert("month"@.len() != "auto"@.len()); }
    assert("month"@ != "year"@) by { assert("month"@.len() != "year"@.len()); }
    assert("month"@ != "years"@) by { assert("month"@[0] != "years"@[0]); }
    assert("months"@ != "auto"@) by { assert("months"@.len() != "auto"@.len()); }
    assert("months"@ != "year"@) by { assert("months"@.len() != "year"@.len()); }
    assert("months"@ != "years"@) by { assert("months"@.len() != "years"@.len()); }
    assert("months"@ != "month"@) by { assert("months"@.len() != "month"@.len()); }
    assert("week"@ != "auto"@) by { assert("week"@[0] != "auto"@[0]); }
    assert("week"@ != "year"@) by { assert("week"@[0] != "year"@[0]); }
    assert("week"@ != "years"@) by { assert("week"@.len() != "years"@.len()); }
    assert("week"@ != "month"@) by { assert("week"@.len() != "month"@.len()); }
    assert("week"@ != "months"@) by { assert("week"@.len() != "months"@.len()); }
    assert("weeks"@ != "auto"@) by { assert("weeks"@.len() != "auto"@.len()); }
    assert("weeks"@ != "year"@) by { assert("weeks"@.len() != "year"@.len()); }
    assert("weeks"@ != "years"@) by { assert("weeks"@[0] != "years"@[0]); }
    assert("weeks"@ != "month"@) by { assert("weeks"@[0] != "month"@[0]); }
    assert("weeks"@ != "months"@) by { assert("weeks"@.len() != "months"@.len()); }
    assert("weeks"@ != "week"@) by { assert("weeks"@.len() != "week"@.len()); }
    assert("day"@ != "auto"@) by { assert("day"@.len() != "auto"@.len()); }
    assert("day"@ != "year"@) by { assert("day"@.len() != "year"@.len()); }
    assert("day"@ != "years"@) by { assert("day"@.len() != "years"@.len()); }
    assert("day"@ != "month"@) by { assert("day"@.len() != "month"@.len()); }
    assert("day"@ != "months"@) by { assert("day"@.len() != "months"@.len()); }
    assert("day"@ != "week"@) by { assert("day"@.len() != "week"@.len()); }
    assert("day"@ != "weeks"@) by { assert("day"@.len() != "weeks"@.len()); }
    assert("days"@ != "auto"@) by { assert("days"@[0] != "auto"@[0]); }
    assert("days"@ != "year"@) by { assert("days"@[0] != "year"@[0]); }
    assert("days"@ != "years"@) by { assert("days"@.len() != "years"@.len()); }
    assert("days"@ != "month"@) by { assert("days"@.len() != "month"@.len()); }
    assert("days"@ != "months"@) by { assert("days"@.len() != "months"@.len()); }
    assert("days"@ != "week"@) by { assert("days"@[0] != "week"@[0]); }
    assert("days"@ != "weeks"@) by { assert("days"@.len() != "weeks"@.len()); }
    assert("days"@ != "day"@) by { assert("days"@.len() != "day"@.len()); }
    assert("hour"@ != "auto"@) by { assert("hour"@[0] != "auto"@[0]); }
    assert("hour"@ != "year"@) by { assert("hour"@[0] != "year"@[0]); }
    assert("hour"@ != "years"@) by { assert("hour"@.len() != "years"@.len()); }
    assert("hour"@ != "month"@) by { assert("hour"@.len() != "month"@.len()); }
    assert("hour"@ != "months"@) by { assert("hour"@.len() != "months"@.len()); }
    assert("hour"@ != "week"@) by { assert("hour"@[0] != "week"@[0]); }
    assert("hour"@ != "weeks"@) by { assert("hour"@.len() != "weeks"@.len()); }
    assert("hour"@ != "day"@) by { assert("hour"@.len() != "day"@.len()); }
    assert("hour"@ != "days"@) by { assert("hour"@[0] != "days"@[0]); }
    assert("hours"@ != "auto"@) by { assert("hours"@.len() != "auto"@.len()); }
    assert("hours"@ != "year"@) by { assert("hours"@.len() != "year"@.len()); }
    assert("hours"@ != "years"@) by { assert("hours"@[0] != "years"@[0]); }
    assert("hours"@ != "month"@) by { assert("hours"@[0] != "month"@[0]); }
    assert("hours"@ != "months"@) by { assert("hours"@.len() != "months"@.len()); }
    assert("hours"@ != "week"@) by { assert("hours"@.len() != "week"@.len()); }
    assert("hours"@ != "weeks"@) by { assert("hours"@[0] != "weeks"@[0]); }
    assert("hours"@ != "day"@) by { assert("hours"@.len() != "day"@.len()); }
    assert("hours"@ != "days"@) by { assert("hours"@.len() != "days"@.len()); }
    assert("hours"@ != "hour"@) by { assert("hours"@.len() != "hour"@.len()); }
    assert("minute"@ != "auto"@) by { assert("minute"@.len() != "auto"@.len()); }
    assert("minute"@ != "year"@) by { assert("minute"@.len() != "year"@.len()); }
    assert("minute"@ != "years"@) by { assert("minute"@.len() != "years"@.len()); }
    assert("minute"@ != "month"@) by { assert("minute"@.len() != "month"@.len()); }
    assert("minute"@ != "months"@) by { assert("minute"@[1] != "months"@[1]); }
    assert("minute"@ != "week"@) by { assert("minute"@.len() != "week"@.len()); }
    assert("minute"@ != "weeks"@) by { assert("minute"@.len() != "weeks"@.len()); }
    assert("minute"@ != "day"@) by { assert("minute"@.len() != "day"@.len()); }
    assert("minute"@ != "days"@) by { assert("minute"@.len() != "days"@.len()); }
    assert("minute"@ != "hour"@) by { assert("minute"@.len() != "hour"@.len()); }
    assert("minute"@ != "hours"@) by { assert("minute"@.len() != "hours"@.len()); }
    assert("minutes"@ != "auto"@) by { assert("minutes"@.len() != "auto"@.len()); }
    assert("minutes"@ != "year"@) by { assert("minutes"@.len() != "year"@.len()); }
    assert("minutes"@ != "years"@) by { assert("minutes"@.len() != "years"@.len()); }
    assert("minutes"@ != "month"@) by { assert("minutes"@.len() != "month"@.len()); }
    assert("minutes"@ != "months"@) by { assert("minutes"@.len() != "months"@.len()); }
    assert("minutes"@ != "week"@) by { assert("minutes"@.len() != "week"@.len()); }
    assert("minutes"@ != "weeks"@) by { assert("minutes"@.len() != "weeks"@.len()); }
    assert("minutes"@ != "day"@) by { assert("minutes"@.len() != "day"@.len()); }
    assert("minutes"@ != "days"@) by { assert("minutes"@.len() != "days"@.len()); }
    assert("minutes"@ != "hour"@) by { assert("minutes"@.len() != "hour"@.len()); }
    assert("minutes"@ != "hours"@) by { assert("minutes"@.len() != "hours"@.len()); }
    assert("minutes"@ != "minute"@) by { assert("minutes"@.len() != "minute"@.len()); }
    assert("second"@ != "auto"@) by { assert("second"@.len() != "auto"@.len()); }
    assert("second"@ != "year"@) by { assert("second"@.len() != "year"@.len()); }
    assert("second"@ != "years"@) by { assert("second"@.len() != "years"@.len()); }
    assert("second"@ != "month"@) by { assert("second"@.len() != "month"@.len()); }
    assert("second"@ != "months"@) by { assert("second"@[0] != "months"@[0]); }
    assert("second"@ != "week"@) by { assert("second"@.len() != "week"@.len()); }
    assert("second"@ != "weeks"@) by { assert("second"@.len() != "weeks"@.len()); }
    assert("second"@ != "day"@) by { assert("second"@.len() != "day"@.len()); }
    assert("second"@ != "days"@) by { assert("second"@.len() != "days"@.len()); }
    assert("second"@ != "hour"@) by { assert("second"@.len() != "hour"@.len()); }
    assert("second"@ != "hours"@) by { assert("second"@.len() != "hours"@.len()); }
    assert("second"@ != "minute"@) by { assert("second"@[0] != "minute"@[0]); }
    assert("second"@ != "minutes"@) by { assert("second"@.len() != "minutes"@.len()); }
    assert("seconds"@ != "auto"@) by { assert("seconds"@.len() != "auto"@.len()); }
    assert("seconds"@ != "year"@) by { assert("seconds"@.len() != "year"@.len()); }
    assert("seconds"@ != "years"@) by { assert("seconds"@.len() != "years"@.len()); }
    assert("seconds"@ != "month"@) by { assert("seconds"@.len() != "month"@.len()); }
    assert("seconds"@ != "months"@) by { assert("seconds"@.len() != "months"@.len()); }
    assert("seconds"@ != "week"@) by { assert("seconds"@.len() != "week"@.len()); }
    assert("seconds"@ != "weeks"@) by { assert("seconds"@.len() != "weeks"@.len()); }
    assert("seconds"@ != "day"@) by { assert("seconds"@.len() != "day"@.len()); }
    assert("seconds"@ != "days"@) by { assert("seconds"@.len() != "days"@.len()); }
    assert("seconds"@ != "hour"@) by { assert("seconds"@.len() != "hour"@.len()); }
    assert("seconds"@ != "hours"@) by { assert("seconds"@.len() != "hours"@.len()); }
    assert("seconds"@ != "minute"@) by { assert("seconds"@.len() != "minute"@.len()); }
    assert("seconds"@ != "minutes"@) by { assert("seconds"@[0] != "minutes"@[0]); }
    assert("seconds"@ != "second"@) by { assert("seconds"@.len() != "second"@.len()); }
    assert("millisecond"@ != "auto"@) by { assert("millisecond"@.len() != "auto"@.len()); }
    assert("millisecond"@ != "year"@) by { assert("millisecond"@.len() != "year"@.len()); }
    assert("millisecond"@ != "years"@) by { assert("millisecond"@.len() != "years"@.len()); }
    assert("millisecond"@ != "month"@) by { assert("millisecond"@.len() != "month"@.len()); }
    assert("millisecond"@ != "months"@) by { assert("millisecond"@.len() != "months"@.len()); }
    assert("millisecond"@ != "week"@) by { assert("millisecond"@.len() != "week"@.len()); }
    assert("millisecond"@ != "weeks"@) by { assert("millisecond"@.len() != "weeks"@.len()); }
    assert("millisecond"@ != "day"@) by { assert("millisecond"@.len() != "day"@.len()); }
    assert("millisecond"@ != "days"@) by { assert("millisecond"@.len() != "days"@.len()); }
    assert("millisecond"@ != "hour"@) by { assert("millisecond"@.len() != "hour"@.len()); }
    assert("millisecond"@ != "hours"@) by { assert("millisecond"@.len() != "hours"@.len()); }
    assert("millisecond"@ != "minute"@) by { assert("millisecond"@.len() != "minute"@.len()); }
    assert("millisecond"@ != "minutes"@) by { assert("millisecond"@.len() != "minutes"@.len()); }
    assert("millisecond"@ != "second"@) by { assert("millisecond"@.len() != "second"@.len()); }
    assert("millisecond"@ != "seconds"@) by { assert("millisecond"@.len() != "seconds"@.len()); }
    assert("milliseconds"@ != "auto"@) by { assert("milliseconds"@.len() != "auto"@.len()); }
    assert("milliseconds"@ != "year"@) by { assert("milliseconds"@.len() != "year"@.len()); }
    assert("milliseconds"@ != "years"@) by { assert("milliseconds"@.len() != "years"@.len()); }
    assert("milliseconds"@ != "month"@) by { assert("milliseconds"@.len() != "month"@.len()); }
    assert("milliseconds"@ != "months"@) by { assert("milliseconds"@.len() != "months"@.len()); }
    assert("milliseconds"@ != "week"@) by { assert("milliseconds"@.len() != "week"@.len()); }
    assert("milliseconds"@ != "weeks"@) by { assert("milliseconds"@.len() != "weeks"@.len()); }
    assert("milliseconds"@ != "day"@) by { assert("milliseconds"@.len() != "day"@.len()); }
    assert("milliseconds"@ != "days"@) by { assert("milliseconds"@.len() != "days"@.len()); }
    assert("milliseconds"@ != "hour"@) by { assert("milliseconds"@.len() != "hour"@.len()); }
    assert("milliseconds"@ != "hours"@) by { assert("milliseconds"@.len() != "hours"@.len()); }
    assert("milliseconds"@ != "minute"@) by { assert("milliseconds"@.len() != "minute"@.len()); }
    assert("milliseconds"@ != "minutes"@) by { assert("milliseconds"@.len() != "minutes"@.len()); }
    assert("milliseconds"@ != "second"@) by { assert("milliseconds"@.len() != "second"@.len()); }
    assert("milliseconds"@ != "seconds"@) by { assert("milliseconds"@.len() != "seconds"@.len()); }
    assert("milliseconds"@ != "millisecond"@) by { assert("milliseconds"@.len() != "millisecond"@.len()); }
    assert("microsecond"@ != "auto"@) by { assert("microsecond"@.len() != "auto"@.len()); }
    assert("microsecond"@ != "year"@) by { assert("microsecond"@.len() != "year"@.len()); }
    assert("microsecond"@ != "years"@) by { assert("microsecond"@.len() != "years"@.len()); }
    assert("microsecond"@ != "month"@) by { assert("microsecond"@.len() != "month"@.len()); }
    assert("microsecond"@ != "months"@) by { assert("microsecond"@.len() != "months"@.len()); }
    assert("microsecond"@ != "week"@) by { assert("microsecond"@.len() != "week"@.len()); }
    assert("microsecond"@ != "weeks"@) by { assert("microsecond"@.len() != "weeks"@.len()); }
    assert("microsecond"@ != "day"@) by { assert("microsecond"@.len() != "day"@.len()); }
    assert("microsecond"@ != "days"@) by { assert("microsecond"@.len() != "days"@.len()); }
    assert("microsecond"@ != "hour"@) by { assert("microsecond"@.len() != "hour"@.len()); }
    assert("microsecond"@ != "hours"@) by { assert("microsecond"@.len() != "hours"@.len()); }
    assert("microsecond"@ != "minute"@) by { assert("microsecond"@.len() != "minute"@.len()); }
    assert("microsecond"@ != "minutes"@) by { assert("microsecond"@.len() != "minutes"@.len()); }
    assert("microsecond"@ != "second"@) by { assert("microsecond"@.len() != "second"@.len()); }
    assert("microsecond"@ != "seconds"@) by { assert("microsecond"@.len() != "seconds"@.len()); }
    assert("microsecond"@ != "millisecond"@) by { assert("microsecond"@[2] != "millisecond"@[2]); }
    assert("microsecond"@ != "milliseconds"@) by { assert("microsecond"@.len() != "milliseconds"@.len()); }
    assert("microseconds"@ != "auto"@) by { assert("microseconds"@.len() != "auto"@.len()); }
    assert("microseconds"@ != "year"@) by { assert("microseconds"@.len() != "year"@.len()); }
    assert("microseconds"@ != "years"@) by { assert("microseconds"@.len() != "years"@.len()); }
    assert("microseconds"@ != "month"@) by { assert("microseconds"@.len() != "month"@.len()); }
    assert("microseconds"@ != "months"@) by { assert("microseconds"@.len() != "months"@.len()); }
    assert("microseconds"@ != "week"@) by { assert("microseconds"@.len() != "week"@.len()); }
    assert("microseconds"@ != "weeks"@) by { assert("microseconds"@.len() != "weeks"@.len()); }
    assert("microseconds"@ != "day"@) by { assert("microseconds"@.len() != "day"@.len()); }
    assert("microseconds"@ != "days"@) by { assert("microseconds"@.len() != "days"@.len()); }
    assert("microseconds"@ != "hour"@) by { assert("microseconds"@.len() != "hour"@.len()); }
    assert("microseconds"@ != "hours"@) by { assert("microseconds"@.len() != "hours"@.len()); }
    assert("microseconds"@ != "minute"@) by { assert("microseconds"@.len() != "minute"@.len()); }
    assert("microseconds"@ != "minutes"@) by { assert("microseconds"@.len() != "minutes"@.len()); }
    assert("microseconds"@ != "second"@) by { assert("microseconds"@.len() != "second"@.len()); }
    assert("microseconds"@ != "seconds"@) by { assert("microseconds"@.len() != "seconds"@.len()); }
    assert("microseconds"@ != "millisecond"@) by { assert("microseconds"@.len() != "millisecond"@.len()); }
    assert("microseconds"@ != "milliseconds"@) by { assert("microseconds"@[2] != "milliseconds"@[2]); }
    assert("microseconds"@ != "microsecond"@) by { assert("microseconds"@.len() != "microsecond"@.len()); }
    assert("nanosecond"@ != "auto"@) by { assert("nanosecond"@.len() != "auto"@.len()); }
    assert("nanosecond"@ != "year"@) by { assert("nanosecond"@.len() != "year"@.len()); }
    assert("nanosecond"@ != "years"@) by { assert("nanosecond"@.len() != "years"@.len()); }
    assert("nanosecond"@ != "month"@) by { assert("nanosecond"@.len() != "month"@.len()); }
    assert("nanosecond"@ != "months"@) by { assert("nanosecond"@.len() != "months"@.len()); }
    assert("nanosecond"@ != "week"@) by { assert("nanosecond"@.len() != "week"@.len()); }
    assert("nanosecond"@ != "weeks"@) by { assert("nanosecond"@.len() != "weeks"@.len()); }
    assert("nanosecond"@ != "day"@) by { assert("nanosecond"@.len() != "day"@.len()); }
    assert("nanosecond"@ != "days"@) by { assert("nanosecond"@.len() != "days"@.len()); }
    assert("nanosecond"@ != "hour"@) by { assert("nanosecond"@.len() != "hour"@.len()); }
    assert("nanosecond"@ != "hours"@) by { assert("nanosecond"@.len() != "hours"@.len()); }
    assert("nanosecond"@ != "minute"@) by { assert("nanosecond"@.len() != "minute"@.len()); }
    assert("nanosecond"@ != "minutes"@) by { assert("nanosecond"@.len() != "minutes"@.len()); }
    assert("nanosecond"@ != "second"@) by { assert("nanosecond"@.len() != "second"@.len()); }
    assert("nanosecond"@ != "seconds"@) by { assert("nanosecond"@.len() != "seconds"@.len()); }
    assert("nanosecond"@ != "millisecond"@) by { assert("nanosecond"@.len() != "millisecond"@.len()); }
    assert("nanosecond"@ != "milliseconds"@) by { assert("nanosecond"@.len() != "milliseconds"@.len()); }
    assert("nanosecond"@ != "microsecond"@) by { assert("nanosecond"@.len() != "microsecond"@.len()); }
    assert("nanosecond"@ != "microseconds"@) by { assert("nanosecond"@.len() != "microseconds"@.len()); }
    assert("nanoseconds"@ != "auto"@) by { assert("nanoseconds"@.len() != "auto"@.len()); }
    assert("nanoseconds"@ != "year"@) by { assert("nanoseconds"@.len() != "year"@.len()); }
    assert("nanoseconds"@ != "years"@) by { assert("nanoseconds"@.len() != "years"@.len()); }
    assert("nanoseconds"@ != "month"@) by { assert("nanoseconds"@.len() != "month"@.len()); }
    assert("nanoseconds"@ != "months"@) by { assert("nanoseconds"@.len() != "months"@.len()); }
    assert("nanoseconds"@ != "week"@) by { assert("nanoseconds"@.len() != "week"@.len()); }
    assert("nanoseconds"@ != "weeks"@) by { assert("nanoseconds"@.len() != "weeks"@.len()); }
    assert("nanoseconds"@ != "day"@) by { assert("nanoseconds"@.len() != "day"@.len()); }
    assert("nanoseconds"@ != "days"@) by { assert("nanoseconds"@.len() != "days"@.len()); }
    assert("nanoseconds"@ != "hour"@) by { assert("nanoseconds"@.len() != "hour"@.len()); }
    assert("nanoseconds"@ != "hours"@) by { assert("nanoseconds"@.len() != "hours"@.len()); }
    assert("nanoseconds"@ != "minute"@) by { assert("nanoseconds"@.len() != "minute"@.len()); }
    assert("nanoseconds"@ != "minutes"@) by { assert("nanoseconds"@.len() != "minutes"@.len()); }
    assert("nanoseconds"@ != "second"@) by { assert("nanoseconds"@.len() != "second"@.len()); }
    assert("nanoseconds"@ != "seconds"@) by { assert("nanoseconds"@.len() != "seconds"@.len()); }
    assert("nanoseconds"@ != "millisecond"@) by { assert("nanoseconds"@[0] != "millisecond"@[0]); }
    assert("nanoseconds"@ != "milliseconds"@) by { assert("nanoseconds"@.len() != "milliseconds"@.len()); }
    assert("nanoseconds"@ != "microsecond"@) by { assert("nanoseconds"@[0] != "microsecond"@[0]); }
    assert("nanoseconds"@ != "microseconds"@) by { assert("nanoseconds"@.len() != "microseconds"@.len()); }
    assert("nanoseconds"@ != "nanosecond"@) by { assert("nanoseconds"@.len() != "nanosecond"@.len()); }
    assert("fortnight"@ != "auto"@) by { assert("fortnight"@.len() != "auto"@.len()); }
    assert("fortnight"@ != "year"@) by { assert("fortnight"@.len() != "year"@.len()); }
    assert("fortnight"@ != "years"@) by { assert("fortnight"@.len() != "years"@.len()); }
    assert("fortnight"@ != "month"@) by { assert("fortnight"@.len() != "month"@.len()); }
    assert("fortnight"@ != "months"@) by { assert("fortnight"@.len() != "months"@.len()); }
    assert("fortnight"@ != "week"@) by { assert("fortnight"@.len() != "week"@.len()); }
    assert("fortnight"@ != "weeks"@) by { assert("fortnight"@.len() != "weeks"@.len()); }
    assert("fortnight"@ != "day"@) by { assert("fortnight"@.len() != "day"@.len()); }
    assert("fortnight"@ != "days"@) by { assert("fortnight"@.len() != "days"@.len()); }
    assert("fortnight"@ != "hour"@) by { assert("fortnight"@.len() != "hour"@.len()); }
    assert("fortnight"@ != "hours"@) by { assert("fortnight"@.len() != "hours"@.len()); }
    assert("fortnight"@ != "minute"@) by { assert("fortnight"@.len() != "minute"@.len()); }
    assert("fortnight"@ != "minutes"@) by { assert("fortnight"@.len() != "minutes"@.len()); }
    assert("fortnight"@ != "second"@) by { assert("fortnight"@.len() != "second"@.len()); }
    assert("fortnight"@ != "seconds"@) by { assert("fortnight"@.len() != "seconds"@.len()); }
    assert("fortnight"@ != "millisecond"@) by { assert("fortnight"@.len() != "millisecond"@.len()); }
    assert("fortnight"@ != "milliseconds"@) by { assert("fortnight"@.len() != "milliseconds"@.len()); }
    assert("fortnight"@ != "microsecond"@) by { assert("fortnight"@.len() != "microsecond"@.len()); }
    assert("fortnight"@ != "microseconds"@) by { assert("fortnight"@.len() != "microseconds"@.len()); }
    assert("fortnight"@ != "nanosecond"@) by { assert("fortnight"@.len() != "nanosecond"@.len()); }
    assert("fortnight"@ != "nanoseconds"@) by { assert("fortnight"@.len() != "nanoseconds"@.len()); }
}

/// Rounds a duration to `smallest_unit` (a unit name, singular or plural)
/// without a reference point; calendar units need one and are refused.
pub fn duration_round(d: Duration, smallest_unit: &str) -> (r: Result<Duration, Error>)
    ensures
        unit_of_name(smallest_unit@) is None ==> r == Err::<Duration, Error>(Error::InvalidUnit),
        unit_of_name(smallest_unit@) matches Some(u) ==> match rounded(d, u) {
            Some(v) => r == Ok::<Duration, Error>(v),
            None => r is Err,
        },
{
    let unit = match unit_from_name(smallest_unit) {
        Some(u) => u,
        None => { return Err(Error::InvalidUnit); },
    };
    match outside_duration_round(&d, unit) {
        Ok(v) => Ok(v),
        Err(e) => Err(from_temporal_error(e)),
    }
}

/// Rounds a duration to `smallest_unit`, relative to a zoned date-time (so
/// that days have their length in that zone).
pub fn duration_round_zoned(d: Duration, smallest_unit: &str, relative_to: ZonedDateTime) -> (r: Result<Duration, Error>)
    ensures
        unit_of_name(smallest_unit@) is None ==> r == Err::<Duration, Error>(Error::InvalidUnit),
        unit_of_name(smallest_unit@) matches Some(u) ==> match rounded_zoned(d, u, relative_to.instant_ns, relative_to.tz_id@, relative_to.calendar_id@) {
            Some(v) => r == Ok::<Duration, Error>(v),
            None => r is Err,
        },
{
    let unit = match unit_from_name(smallest_unit) {
        Some(u) => u,
        None => { return Err(Error::InvalidUnit); },
    };
    match outside_duration_round_zoned(&d, unit, relative_to.instant_ns, relative_to.tz_id.as_str(),
        relative_to.calendar_id.as_str()) {
        Ok(v) => Ok(v),
        Err(e) => Err(from_temporal_error(e)),
    }
}

/// Rounds a duration to `smallest_unit`, relative to the date of a plain
/// date-time (so that months and years have their length from that date).
pub fn duration_round_plain(d: Duration, smallest_unit: &str, relative_to: PlainDateTime) -> (r: Result<Duration, Error>)
    ensures
        unit_of_name(smallest_unit@) is None ==> r == Err::<Duration, Error>(Error::InvalidUnit),
        unit_of_name(smallest_unit@) matches Some(u) ==> match rounded_plain(d, u, relative_to) {
            Some(v) => r == Ok::<Duration, Error>(v),
            None => r is Err,
        },
{
    let unit = match unit_from_name(smallest_unit) {
        Some(u) => u,
        None => { return Err(Error::InvalidUnit); },
    };
    let p = relative_to;
    let name = stored_calendar(p.cal_idx)?;
    let t = crate::plain_datetime::time_of_date_time(&p);
    match outside_duration_round_plain(&d, unit, p.year, p.month, p.day, &t, name) {
        Ok(v) => Ok(v),
        Err(e) => Err(from_temporal_error(e)),
    }
}

// ---------------------------------------------------------------------------
// Arithmetic relative to a starting point
// ---------------------------------------------------------------------------

/// What adding `a` then `b` to zoned fields and measuring from the start
/// gives: `None` when either addition fails; otherwise the end point.
pub open spec fn zoned_end(ns: i128, tz: Seq<char>, cal: Seq<char>, a: Duration, b: Duration)
    -> Option<(i128, Seq<char>, Seq<char>)> {
    match zoned_plus(ns, tz, cal, a) {
        Some(x) => zoned_plus(x.0, x.1, x.2, b),
        None => None,
    }
}

/// Adds two durations as time passes from a zoned date-time: the start
/// moved by `a`, then by `b`, measured from the start in hours and smaller
/// units.
pub fn duration_add_zoned(a: Duration, b: Duration, relative_to: ZonedDateTime) -> (r: Result<Duration, Error>)
    ensures ({
        let z = relative_to;
        match zoned_end(z.instant_ns, z.tz_id@, z.calendar_id@, a, b) {
            None => r is Err,
            Some(e) => {
                &&& r matches Ok(d) ==> d == balance_time(e.0 - z.instant_ns, 5)
                &&& r is Ok ==> temporal_zoned_loads(e.0, e.1, e.2)
                &&& temporal_zoned_loads(e.0, e.1, e.2) && z.calendar_id@ == e.2 ==> r is Ok
            },
        }
    }),
{
    let z = relative_to;
    let after_a = add_to_zoned(&z, &a)?;
    let after_ab = add_to_zoned(&after_a, &b)?;
    until_zoned(&z, &after_ab)
}

/// Subtracts `b` from `a` as time passes from a zoned date-time: the start
/// moved by `a`, then back by `b`, measured from the start.
pub fn duration_subtract_zoned(a: Duration, b: Duration, relative_to: ZonedDateTime) -> (r: Result<Duration, Error>)
    ensures ({
        let z = relative_to;
        match zoned_end(z.instant_ns, z.tz_id@, z.calendar_id@, a, crate::duration::negate(b)) {
            None => r is Err,
            Some(e) => {
                &&& r matches Ok(d) ==> d == balance_time(e.0 - z.instant_ns, 5)
                &&& r is Ok ==> temporal_zoned_loads(e.0, e.1, e.2)
                &&& temporal_zoned_loads(e.0, e.1, e.2) && z.calendar_id@ == e.2 ==> r is Ok
            },
        }
    }),
{
    let z = relative_to;
    let after_a = add_to_zoned(&z, &a)?;
    let after_ab = crate::zoned_datetime::subtract_from_zoned(&after_a, &b)?;
    until_zoned(&z, &after_ab)
}

/// What adding `a` then `b` to a stored date-time gives, if both succeed.
pub open spec fn plain_end(p: PlainDateTime, a: Duration, b: Duration) -> Option<PlainDateTime> {
    match date_time_plus(p, a) {
        Some(x) => date_time_plus(x, b),
        None => None,
    }
}

/// Adds two durations from a plain date-time: the start moved by `a`, then
/// by `b`, measured from the start with days as the largest unit.
pub fn duration_add_plain(a: Duration, b: Duration, relative_to: PlainDateTime) -> (r: Result<Duration, Error>)
    ensures
        match plain_end(relative_to, a, b) {
            None => r is Err,
            Some(e) => match date_time_difference(relative_to, e) {
                Some(d) => r == Ok::<Duration, Error>(d),
                None => r is Err,
            },
        },
{
    let after_a = plain_datetime_add(relative_to, a)?;
    let after_ab = plain_datetime_add(after_a, b)?;
    plain_datetime_until(relative_to, after_ab)
}

/// Subtracts `b` from `a` from a plain date-time: the start moved by `a`,
/// then back by `b`, measured from the start.
pub fn duration_subtract_plain(a: Duration, b: Duration, relative_to: PlainDateTime) -> (r: Result<Duration, Error>)
    ensures
        match plain_end(relative_to, a, crate::duration::negate(b)) {
            None => r is Err,
            Some(e) => match date_time_difference(relative_to, e) {
                Some(d) => r == Ok::<Duration, Error>(d),
                None => r is Err,
            },
        },
{
    let after_a = plain_datetime_add(relative_to, a)?;
    let after_ab = plain_datetime_subtract(after_a, b)?;
    plain_datetime_until(relative_to, after_ab)
}

} // verus!
