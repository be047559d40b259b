//! `PlainDateTime`: a calendar date and wall-clock time with no time zone,
//! stored as ISO 8601 fields, a sub-second count and a calendar index.
use vstd::prelude::*;
use temporal_rs::{Calendar, PlainDateTime as TemporalPdt, TimeZone, ZonedDateTime as TemporalZdt};
use temporal_rs::options::{DisplayCalendar, Overflow, ToStringRoundingOptions};
use crate::calendar::{CALENDAR_COUNT, lemma_index_spec_of_stored, ISO8601_INDEX, calendar_names, calendar_index, calendar_index_result,
    calendar_name, index_of, index_spec, lemma_calendar_names_distinct, temporal_calendar_id};
use crate::duration::{Duration, from_temporal_duration, negate, temporal_accepts_duration, to_temporal_duration};
use crate::error::{Error, Field, from_temporal_error};
use crate::iso_date::accepted_date_time;
use crate::plain_date::{calendar_loads, field_u8, field_u16, reloaded_index, stored_calendar, stored_name,
    temporal_date_fields};
use crate::plain_time::{PlainTime, TimeOfDay, lemma_pack_unpack, lemma_valid_subsecond, valid_time, pack_time, unpack_time, pack_time_exec, unpack_time_exec,
    lemma_unpack_pack};

verus! {

/// A plain date-time as stored: ISO date fields, the time of day with its
/// sub-second fields collapsed into one count of nanoseconds, and the
/// calendar index.
#[derive(Clone, Copy, Debug, PartialEq, Eq, Structural)]
pub struct PlainDateTime {
    pub year: i32,
    pub subsecond_ns: u32,
    pub month: u8,
    pub day: u8,
    pub hour: u8,
    pub minute: u8,
    pub second: u8,
    pub cal_idx: u8,
}

/// The time of day of a stored date-time, as a stored plain time.
pub open spec fn clock_of(p: PlainDateTime) -> PlainTime {
    PlainTime { subsecond_ns: p.subsecond_ns, hour: p.hour, minute: p.minute, second: p.second }
}

/// The six time fields of a stored date-time.
pub open spec fn time_fields_of(p: PlainDateTime) -> TimeOfDay {
    unpack_time(clock_of(p))
}

/// The stored date-time of ISO date fields, a time of day and a calendar index.
pub open spec fn pack_date_time(y: i32, m: u8, d: u8, t: TimeOfDay, cal_idx: u8) -> PlainDateTime {
    let c = pack_time(t);
    PlainDateTime { year: y, subsecond_ns: c.subsecond_ns, month: m, day: d, hour: c.hour,
        minute: c.minute, second: c.second, cal_idx }
}

/// Whether a stored date-time can be rebuilt as a `temporal_rs` date-time.
pub open spec fn date_time_loads(p: PlainDateTime) -> bool {
    calendar_loads(p.cal_idx) && accepted_date_time(p.year as int, p.month as int, p.day as int, time_fields_of(p))
}

pub(crate) fn time_of_date_time(p: &PlainDateTime) -> (r: TimeOfDay)
    ensures r == time_fields_of(*p),
{
    unpack_time_exec(&PlainTime { subsecond_ns: p.subsecond_ns, hour: p.hour, minute: p.minute, second: p.second })
}

fn pack_date_time_exec(y: i32, m: u8, d: u8, t: &TimeOfDay, cal_idx: u8) -> (r: PlainDateTime)
    requires t.millisecond <= 999, t.microsecond <= 999, t.nanosecond <= 999,
    ensures r == pack_date_time(y, m, d, *t, cal_idx),
{
    let c = pack_time_exec(t);
    PlainDateTime { year: y, subsecond_ns: c.subsecond_ns, month: m, day: d, hour: c.hour,
        minute: c.minute, second: c.second, cal_idx }
}

// ---------------------------------------------------------------------------
// Calls into temporal_rs
// ---------------------------------------------------------------------------

/// The ISO fields, time of day and calendar identifier of the date-time
/// `temporal_rs` reads from text, if it reads one.
pub uninterp spec fn temporal_date_time_from_text(text: Seq<char>) -> Option<(i32, u8, u8, TimeOfDay, Seq<char>)>;

/// The text `temporal_rs` writes for a date-time in the named calendar, if any.
pub uninterp spec fn temporal_date_time_text(y: i32, m: u8, d: u8, t: TimeOfDay, cal: Seq<char>) -> Option<Seq<char>>;

/// The ISO fields and time of the sum of a date-time in the named calendar
/// and a duration (day of month constrained), if `temporal_rs` computes one.
pub uninterp spec fn temporal_date_time_add(y: i32, m: u8, d: u8, t: TimeOfDay, cal: Seq<char>, dur: Duration) -> Option<(i32, u8, u8, TimeOfDay)>;

/// The duration from one date-time to another, each in its named calendar,
/// with days as the largest unit, if `temporal_rs` computes one.
pub uninterp spec fn temporal_date_time_until(a: (i32, u8, u8, TimeOfDay), b: (i32, u8, u8, TimeOfDay), cal_a: Seq<char>, cal_b: Seq<char>) -> Option<Duration>;

/// Checks ISO date-time fields.
///
/// Calls `temporal_rs::PlainDateTime::try_new_iso`. Claimed, from its source
/// (`IsoDate::new_with_overflow`, `IsoTime::new` and `IsoDateTime::new`, all
/// rejecting): it succeeds exactly when `accepted_date_time` holds.
#[verifier::external_body]
fn outside_date_time_check(y: i32, m: u8, d: u8, t: &TimeOfDay) -> (r: Result<(), temporal_rs::TemporalError>)
    ensures r is Ok == accepted_date_time(y as int, m as int, d as int, *t),
{
    TemporalPdt::try_new_iso(y, m, d, t.hour, t.minute, t.second, t.millisecond, t.microsecond, t.nanosecond)?;
    Ok(())
}

/// The calendar identifier of a date-time built from ISO fields.
///
/// Calls `temporal_rs::PlainDateTime::try_new_iso` and `Calendar::identifier`.
/// Claimed: it succeeds exactly when `accepted_date_time` holds, and the
/// calendar is ISO 8601.
#[verifier::external_body]
fn outside_iso_date_time(y: i32, m: u8, d: u8, t: &TimeOfDay) -> (r: Result<&'static str, temporal_rs::TemporalError>)
    ensures
        r is Ok == accepted_date_time(y as int, m as int, d as int, *t),
        r matches Ok(s) ==> s@ == "iso8601"@,
{
    let p = TemporalPdt::try_new_iso(y, m, d, t.hour, t.minute, t.second, t.millisecond, t.microsecond, t.nanosecond)?;
    Ok(p.calendar().identifier())
}

/// The calendar fields of a stored date-time.
///
/// Calls `temporal_rs::Calendar::try_from_utf8`, `PlainDateTime::try_new_iso`,
/// `with_calendar` and the `year`, `month` and `day` getters, which read the
/// date through the calendar as `PlainDate`'s do. Claimed: it succeeds exactly
/// when the calendar loads and the fields are accepted; the result is
/// `temporal_date_fields` of the date; in the ISO 8601 calendar these are the
/// ISO fields themselves.
#[verifier::external_body]
fn outside_date_time_fields(y: i32, m: u8, d: u8, t: &TimeOfDay, cal: &str) -> (r: Result<(i32, u8, u8), temporal_rs::TemporalError>)
    ensures
        r is Ok == (temporal_calendar_id(cal@) is Some && accepted_date_time(y as int, m as int, d as int, *t)),
        r matches Ok(v) ==> v == temporal_date_fields(y, m, d, cal@),
        r is Ok && (cal@ == "iso8601"@ || temporal_calendar_id(cal@) == Some("iso8601"@)) ==> temporal_date_fields(y, m, d, cal@) == (y, m, d),
{
    let c = Calendar::try_from_utf8(cal.as_bytes())?;
    let p = TemporalPdt::try_new_iso(y, m, d, t.hour, t.minute, t.second, t.millisecond, t.microsecond, t.nanosecond)?
        .with_calendar(c);
    Ok((p.year(), p.month(), p.day()))
}

/// Reads a date-time from text.
///
/// Calls `temporal_rs::PlainDateTime::from_utf8`, the ISO and time getters
/// and `Calendar::identifier`. Claimed: the result is
/// `temporal_date_time_from_text`, and its fields are accepted.
#[verifier::external_body]
fn outside_date_time_from_text(text: &str) -> (r: Result<(i32, u8, u8, TimeOfDay, &'static str), temporal_rs::TemporalError>)
    ensures
        match r {
            Ok(v) => temporal_date_time_from_text(text@) == Some((v.0, v.1, v.2, v.3, v.4@))
                && accepted_date_time(v.0 as int, v.1 as int, v.2 as int, v.3),
            Err(_) => temporal_date_time_from_text(text@) is None,
        },
{
    let p = TemporalPdt::from_utf8(text.as_bytes())?;
    Ok((p.iso_year(), p.iso_month(), p.iso_day(), TimeOfDay { hour: p.hour(), minute: p.minute(),
        second: p.second(), millisecond: p.millisecond(), microsecond: p.microsecond(),
        nanosecond: p.nanosecond() }, p.calendar().identifier()))
}

/// Writes a stored date-time as text.
///
/// Calls `temporal_rs::PlainDateTime::to_ixdtf_string` with the default
/// rounding options and the calendar shown only when it is not ISO 8601.
/// Claimed: it can succeed only when the calendar loads and the fields are
/// accepted; the text is `temporal_date_time_text`; and, for a calendar named
/// as in the stored table (each name there is the identifier `temporal_rs`
/// gives its calendar), the text (every non-zero digit of the fraction,
/// precision `Auto`) reads back as the same ISO fields, time and calendar.
#[verifier::external_body]
fn outside_date_time_text(y: i32, m: u8, d: u8, t: &TimeOfDay, cal: &str) -> (r: Result<String, temporal_rs::TemporalError>)
    ensures
        r is Ok ==> temporal_calendar_id(cal@) is Some && accepted_date_time(y as int, m as int, d as int, *t),
        temporal_calendar_id(cal@) is Some && accepted_date_time(y as int, m as int, d as int, *t) ==> match r {
            Ok(s) => temporal_date_time_text(y, m, d, *t, cal@) == Some(s@),
            Err(_) => temporal_date_time_text(y, m, d, *t, cal@) is None,
        },
        r matches Ok(s) ==> (calendar_names().contains(cal@)
            ==> temporal_date_time_from_text(s@) == Some((y, m, d, *t, cal@))),
{
    let c = Calendar::try_from_utf8(cal.as_bytes())?;
    TemporalPdt::try_new_iso(y, m, d, t.hour, t.minute, t.second, t.millisecond, t.microsecond, t.nanosecond)?
        .with_calendar(c).to_ixdtf_string(ToStringRoundingOptions::default(), DisplayCalendar::default())
}

/// Adds a duration to a stored date-time.
///
/// Calls `temporal_rs::PlainDateTime::add` with `Overflow::Constrain`.
/// Claimed: it can succeed only when the calendar loads, the fields are
/// accepted and so is the duration; then the result is `temporal_date_time_add`,
/// and is itself accepted.
#[verifier::external_body]
fn outside_date_time_add(y: i32, m: u8, d: u8, t: &TimeOfDay, cal: &str, dur: &Duration)
    -> (r: Result<(i32, u8, u8, TimeOfDay), temporal_rs::TemporalError>)
    ensures
        r is Ok ==> temporal_calendar_id(cal@) is Some && accepted_date_time(y as int, m as int, d as int, *t)
            && temporal_accepts_duration(*dur),
        temporal_calendar_id(cal@) is Some && accepted_date_time(y as int, m as int, d as int, *t)
            && temporal_accepts_duration(*dur) ==> match r {
                Ok(v) => temporal_date_time_add(y, m, d, *t, cal@, *dur) == Some(v),
                Err(_) => temporal_date_time_add(y, m, d, *t, cal@, *dur) is None,
            },
        r matches Ok(v) ==> accepted_date_time(v.0 as int, v.1 as int, v.2 as int, v.3),
{
    let c = Calendar::try_from_utf8(cal.as_bytes())?;
    let p = TemporalPdt::try_new_iso(y, m, d, t.hour, t.minute, t.second, t.millisecond, t.microsecond, t.nanosecond)?
        .with_calendar(c).add(&to_temporal_duration(dur)?, Some(Overflow::Constrain))?;
    Ok((p.iso_year(), p.iso_month(), p.iso_day(), TimeOfDay { hour: p.hour(), minute: p.minute(),
        second: p.second(), millisecond: p.millisecond(), microsecond: p.microsecond(), nanosecond: p.nanosecond() }))
}

/// Subtracts a duration from a stored date-time.
///
/// Calls `temporal_rs::PlainDateTime::subtract` with `Overflow::Constrain`,
/// which adds the negated duration. Claimed as for `outside_date_time_add`,
/// with the duration negated.
#[verifier::external_body]
fn outside_date_time_subtract(y: i32, m: u8, d: u8, t: &TimeOfDay, cal: &str, dur: &Duration)
    -> (r: Result<(i32, u8, u8, TimeOfDay), temporal_rs::TemporalError>)
    ensures
        r is Ok ==> temporal_calendar_id(cal@) is Some && accepted_date_time(y as int, m as int, d as int, *t)
            && temporal_accepts_duration(negate(*dur)),
        temporal_calendar_id(cal@) is Some && accepted_date_time(y as int, m as int, d as int, *t)
            && temporal_accepts_duration(negate(*dur)) ==> match r {
                Ok(v) => temporal_date_time_add(y, m, d, *t, cal@, negate(*dur)) == Some(v),
                Err(_) => temporal_date_time_add(y, m, d, *t, cal@, negate(*dur)) is None,
            },
        r matches Ok(v) ==> accepted_date_time(v.0 as int, v.1 as int, v.2 as int, v.3),
{
    let c = Calendar::try_from_utf8(cal.as_bytes())?;
    let p = TemporalPdt::try_new_iso(y, m, d, t.hour, t.minute, t.second, t.millisecond, t.microsecond, t.nanosecond)?
        .with_calendar(c).subtract(&to_temporal_duration(dur)?, Some(Overflow::Constrain))?;
    Ok((p.iso_year(), p.iso_month(), p.iso_day(), TimeOfDay { hour: p.hour(), minute: p.minute(),
        second: p.second(), millisecond: p.millisecond(), microsecond: p.microsecond(), nanosecond: p.nanosecond() }))
}

/// The duration from one stored date-time to another.
///
/// Calls `temporal_rs::PlainDateTime::until` with the default settings.
/// Claimed: it can succeed only when both calendars load and both are
/// accepted; then the result is `temporal_date_time_until`.
#[verifier::external_body]
fn outside_date_time_until(a: (i32, u8, u8, TimeOfDay), b: (i32, u8, u8, TimeOfDay), cal_a: &str, cal_b: &str)
    -> (r: Result<Duration, temporal_rs::TemporalError>)
    ensures
        r is Ok ==> temporal_calendar_id(cal_a@) is Some && temporal_calendar_id(cal_b@) is Some
            && accepted_date_time(a.0 as int, a.1 as int, a.2 as int, a.3)
            && accepted_date_time(b.0 as int, b.1 as int, b.2 as int, b.3),
        temporal_calendar_id(cal_a@) is Some && temporal_calendar_id(cal_b@) is Some
            && accepted_date_time(a.0 as int, a.1 as int, a.2 as int, a.3)
            && accepted_date_time(b.0 as int, b.1 as int, b.2 as int, b.3) ==> match r {
                Ok(v) => temporal_date_time_until(a, b, cal_a@, cal_b@) == Some(v),
                Err(_) => temporal_date_time_until(a, b, cal_a@, cal_b@) is None,
            },
{
    let x = TemporalPdt::try_new_iso(a.0, a.1, a.2, a.3.hour, a.3.minute, a.3.second, a.3.millisecond,
        a.3.microsecond, a.3.nanosecond)?.with_calendar(Calendar::try_from_utf8(cal_a.as_bytes())?);
    let y = TemporalPdt::try_new_iso(b.0, b.1, b.2, b.3.hour, b.3.minute, b.3.second, b.3.millisecond,
        b.3.microsecond, b.3.nanosecond)?.with_calendar(Calendar::try_from_utf8(cal_b.as_bytes())?);
    Ok(from_temporal_duration(&x.until(&y, Default::default())?))
}

/// The duration elapsed from one stored date-time to another.
///
/// Calls `temporal_rs::PlainDateTime::since` with the default settings.
/// Claimed, from its source (`diff`, no rounding at nanosecond precision):
/// the `until` result, negated.
#[verifier::external_body]
fn outside_date_time_since(a: (i32, u8, u8, TimeOfDay), b: (i32, u8, u8, TimeOfDay), cal_a: &str, cal_b: &str)
    -> (r: Result<Duration, temporal_rs::TemporalError>)
    ensures
        r is Ok ==> temporal_calendar_id(cal_a@) is Some && temporal_calendar_id(cal_b@) is Some
            && accepted_date_time(a.0 as int, a.1 as int, a.2 as int, a.3)
            && accepted_date_time(b.0 as int, b.1 as int, b.2 as int, b.3),
        temporal_calendar_id(cal_a@) is Some && temporal_calendar_id(cal_b@) is Some
            && accepted_date_time(a.0 as int, a.1 as int, a.2 as int, a.3)
            && accepted_date_time(b.0 as int, b.1 as int, b.2 as int, b.3) ==> match r {
                Ok(v) => temporal_date_time_until(a, b, cal_a@, cal_b@) == Some(negate(v)),
                Err(_) => temporal_date_time_until(a, b, cal_a@, cal_b@) is None,
            },
{
    let x = TemporalPdt::try_new_iso(a.0, a.1, a.2, a.3.hour, a.3.minute, a.3.second, a.3.millisecond,
        a.3.microsecond, a.3.nanosecond)?.with_calendar(Calendar::try_from_utf8(cal_a.as_bytes())?);
    let y = TemporalPdt::try_new_iso(b.0, b.1, b.2, b.3.hour, b.3.minute, b.3.second, b.3.millisecond,
        b.3.microsecond, b.3.nanosecond)?.with_calendar(Calendar::try_from_utf8(cal_b.as_bytes())?);
    Ok(from_temporal_duration(&x.since(&y, Default::default())?))
}

// ---------------------------------------------------------------------------
// Construction, text and accessors
// ---------------------------------------------------------------------------

/// The first field given to `make_plaindatetime` that does not fit its
/// storage type, with the value given.
pub open spec fn first_bad_date_time_field(mo: i32, d: i32, h: i32, mi: i32, s: i32, ms: i32, us: i32, ns: i32)
    -> Option<(Field, i32)> {
    if !(0 <= mo <= 255) { Some((Field::Month, mo)) }
    else if !(0 <= d <= 255) { Some((Field::Day, d)) }
    else if !(0 <= h <= 255) { Some((Field::Hour, h)) }
    else if !(0 <= mi <= 255) { Some((Field::Minute, mi)) }
    else if !(0 <= s <= 255) { Some((Field::Second, s)) }
    else if !(0 <= ms <= 65535) { Some((Field::Millisecond, ms)) }
    else if !(0 <= us <= 65535) { Some((Field::Microsecond, us)) }
    else if !(0 <= ns <= 65535) { Some((Field::Nanosecond, ns)) }
    else { None }
}

/// Builds a plain date-time from ISO fields (sub-second fields usually 0)
/// and a calendar name (`iso8601` by default).
///
/// A field outside its storage type is refused with `InvalidField` (the
/// first such, in parameter order); then the fields must form a valid ISO
/// date-time within Temporal's limits; then the calendar must be known to
/// `temporal_rs` and have a stored index.
pub fn make_plaindatetime(year: i32, month: i32, day: i32, hour: i32, minute: i32, second: i32,
    millisecond: i32, microsecond: i32, nanosecond: i32, cal: &str) -> (r: Result<PlainDateTime, Error>)
    ensures
        first_bad_date_time_field(month, day, hour, minute, second, millisecond, microsecond, nanosecond)
            matches Some((f, v)) ==> r == Err::<PlainDateTime, Error>(Error::InvalidField(f, v)),
        first_bad_date_time_field(month, day, hour, minute, second, millisecond, microsecond, nanosecond) is None ==> {
            let t = TimeOfDay { hour: hour as u8, minute: minute as u8, second: second as u8,
                millisecond: millisecond as u16, microsecond: microsecond as u16, nanosecond: nanosecond as u16 };
            if !accepted_date_time(year as int, month as int, day as int, t) {
                r matches Err(e) && e is Temporal
            } else {
                match calendar_index_result(cal@) {
                    None => r matches Err(e) && e is Temporal,
                    Some(None) => r == Err::<PlainDateTime, Error>(Error::UnsupportedCalendar),
                    Some(Some(i)) => r == Ok::<PlainDateTime, Error>(pack_date_time(year, month as u8, day as u8, t, i)),
                }
            }
        },
{
    let mo = field_u8(month, Field::Month)?;
    let d = field_u8(day, Field::Day)?;
    let h = field_u8(hour, Field::Hour)?;
    let mi = field_u8(minute, Field::Minute)?;
    let s = field_u8(second, Field::Second)?;
    let ms = field_u16(millisecond, Field::Millisecond)?;
    let us = field_u16(microsecond, Field::Microsecond)?;
    let ns = field_u16(nanosecond, Field::Nanosecond)?;
    let t = TimeOfDay { hour: h, minute: mi, second: s, millisecond: ms, microsecond: us, nanosecond: ns };
    match outside_date_time_check(year, mo, d, &t) {
        Ok(()) => {},
        Err(e) => { return Err(from_temporal_error(e)); },
    }
    let cal_idx = calendar_index(cal)?;
    Ok(pack_date_time_exec(year, mo, d, &t, cal_idx))
}

/// The calendar fields of a stored date-time, when it loads.
pub open spec fn date_time_fields_result(p: PlainDateTime) -> Option<(i32, u8, u8)> {
    if date_time_loads(p) {
        Some(temporal_date_fields(p.year, p.month, p.day, stored_name(p.cal_idx)))
    } else {
        None
    }
}

fn date_time_fields(p: &PlainDateTime) -> (r: Result<(i32, u8, u8), Error>)
    ensures
        p.cal_idx >= CALENDAR_COUNT ==> r == Err::<(i32, u8, u8), Error>(Error::UnknownCalendarIndex(p.cal_idx)),
        r is Ok && (p.cal_idx == ISO8601_INDEX || temporal_calendar_id(stored_name(p.cal_idx)) == Some("iso8601"@))
            ==> r == Ok::<(i32, u8, u8), Error>((p.year, p.month, p.day)),
        match date_time_fields_result(*p) {
            Some(v) => r == Ok::<(i32, u8, u8), Error>(v),
            None => r is Err,
        },
{
    let name = stored_calendar(p.cal_idx)?;
    proof {
        reveal_strlit("iso8601");
        assert(calendar_names()[12] == "iso8601"@);
    }
    let t = time_of_date_time(p);
    match outside_date_time_fields(p.year, p.month, p.day, &t, name) {
        Ok(v) => Ok(v),
        Err(e) => Err(from_temporal_error(e)),
    }
}

/// The year in the date-time's calendar.
pub fn plain_datetime_year(p: PlainDateTime) -> (r: Result<i32, Error>)
    ensures
        p.cal_idx >= CALENDAR_COUNT ==> r == Err::<i32, Error>(Error::UnknownCalendarIndex(p.cal_idx)),
        r is Ok && (p.cal_idx == ISO8601_INDEX || temporal_calendar_id(stored_name(p.cal_idx)) == Some("iso8601"@)) ==> r == Ok::<i32, Error>(p.year as i32),
        match date_time_fields_result(p) {
            Some(v) => r == Ok::<i32, Error>(v.0),
            None => r is Err,
        },
{
    let v = date_time_fields(&p)?;
    Ok(v.0)
}

/// The month (1-based) in the date-time's calendar.
pub fn plain_datetime_month(p: PlainDateTime) -> (r: Result<i32, Error>)
    ensures
        p.cal_idx >= CALENDAR_COUNT ==> r == Err::<i32, Error>(Error::UnknownCalendarIndex(p.cal_idx)),
        r is Ok && (p.cal_idx == ISO8601_INDEX || temporal_calendar_id(stored_name(p.cal_idx)) == Some("iso8601"@)) ==> r == Ok::<i32, Error>(p.month as i32),
        match date_time_fields_result(p) {
            Some(v) => r == Ok::<i32, Error>(v.1 as i32),
            None => r is Err,
        },
{
    let v = date_time_fields(&p)?;
    Ok(v.1 as i32)
}

/// The day of the month in the date-time's calendar.
pub fn plain_datetime_day(p: PlainDateTime) -> (r: Result<i32, Error>)
    ensures
        p.cal_idx >= CALENDAR_COUNT ==> r == Err::<i32, Error>(Error::UnknownCalendarIndex(p.cal_idx)),
        r is Ok && (p.cal_idx == ISO8601_INDEX || temporal_calendar_id(stored_name(p.cal_idx)) == Some("iso8601"@)) ==> r == Ok::<i32, Error>(p.day as i32),
        match date_time_fields_result(p) {
            Some(v) => r == Ok::<i32, Error>(v.2 as i32),
            None => r is Err,
        },
{
    let v = date_time_fields(&p)?;
    Ok(v.2 as i32)
}

/// The hour (0–23).
pub fn plain_datetime_hour(p: PlainDateTime) -> (r: i32)
    ensures r == p.hour,
{
    p.hour as i32
}

/// The minute (0–59).
pub fn plain_datetime_minute(p: PlainDateTime) -> (r: i32)
    ensures r == p.minute,
{
    p.minute as i32
}

/// The second (0–59).
pub fn plain_datetime_second(p: PlainDateTime) -> (r: i32)
    ensures r == p.second,
{
    p.second as i32
}

/// The millisecond (0–999).
pub fn plain_datetime_millisecond(p: PlainDateTime) -> (r: i32)
    ensures r == p.subsecond_ns / 1_000_000,
{
    (p.subsecond_ns / 1_000_000) as i32
}

/// The microsecond within the millisecond (0–999).
pub fn plain_datetime_microsecond(p: PlainDateTime) -> (r: i32)
    ensures r == (p.subsecond_ns % 1_000_000) / 1_000,
{
    ((p.subsecond_ns % 1_000_000) / 1_000) as i32
}

/// The nanosecond within the microsecond (0–999).
pub fn plain_datetime_nanosecond(p: PlainDateTime) -> (r: i32)
    ensures r == p.subsecond_ns % 1_000,
{
    (p.subsecond_ns % 1_000) as i32
}

/// The identifier of the date-time's calendar.
pub fn plain_datetime_calendar(p: PlainDateTime) -> (r: Result<String, Error>)
    ensures
        p.cal_idx < CALENDAR_COUNT ==> (r matches Ok(s) && s@ == stored_name(p.cal_idx)),
        p.cal_idx >= CALENDAR_COUNT ==> r == Err::<String, Error>(Error::UnknownCalendarIndex(p.cal_idx)),
{
    calendar_name(p.cal_idx)
}

impl PlainDateTime {
    /// Reads a date-time from its text form (`2025-03-01T11:16:10.000000001`,
    /// `2025-03-01T11:16:10[u-ca=japanese]`, ...).
    pub fn parse(text: &str) -> (r: Result<PlainDateTime, Error>)
        ensures
            match temporal_date_time_from_text(text@) {
                None => r matches Err(e) && e is Temporal,
                Some(v) => match index_spec(v.4) {
                    None => r == Err::<PlainDateTime, Error>(Error::UnsupportedCalendar),
                    Some(i) => r == Ok::<PlainDateTime, Error>(pack_date_time(v.0, v.1, v.2, v.3, i)),
                },
            },
    {
        match outside_date_time_from_text(text) {
            Ok(v) => match index_of(v.4) {
                Some(i) => {
                    proof {
                        let k = choose|k: int| 0 <= k < CALENDAR_COUNT && calendar_names()[k] == v.4@;
                        lemma_calendar_names_distinct(k, i as int);
                    }
                    Ok(pack_date_time_exec(v.0, v.1, v.2, &v.3, i))
                },
                None => Err(Error::UnsupportedCalendar),
            },
            Err(e) => Err(from_temporal_error(e)),
        }
    }

    /// The text form of the date-time; the calendar is shown unless it is ISO 8601.
    pub fn to_text(&self) -> (r: Result<String, Error>)
        ensures
            self.cal_idx >= CALENDAR_COUNT ==> r == Err::<String, Error>(Error::UnknownCalendarIndex(self.cal_idx)),
            match date_time_text_of(*self) {
                Some(s) => r matches Ok(v) && v@ == s,
                None => r is Err,
            },
            r matches Ok(s) ==> date_time_reads_back(*self, s@),
    {
        proof {
            if self.cal_idx < CALENDAR_COUNT {
                lemma_index_spec_of_stored(self.cal_idx);
                assert(calendar_names()[self.cal_idx as int] == stored_name(self.cal_idx));
            }
            if valid_time(time_fields_of(*self)) {
                lemma_valid_subsecond(clock_of(*self));
                lemma_pack_unpack(clock_of(*self));
            }
        }
        let name = stored_calendar(self.cal_idx)?;
        let t = time_of_date_time(self);
        match outside_date_time_text(self.year, self.month, self.day, &t, name) {
            Ok(s) => Ok(s),
            Err(e) => Err(from_temporal_error(e)),
        }
    }
}

/// Whether the text `s` written for a stored date-time reads back, through
/// `PlainDateTime::parse`, as that date-time: `temporal_rs` reads its ISO
/// fields, time and calendar identifier, the identifier has the stored
/// index, and packing the fields gives the stored value.
pub open spec fn date_time_reads_back(p: PlainDateTime, s: Seq<char>) -> bool {
    &&& temporal_date_time_from_text(s) == Some((p.year, p.month, p.day, time_fields_of(p), stored_name(p.cal_idx)))
    &&& index_spec(stored_name(p.cal_idx)) == Some(p.cal_idx)
    &&& pack_date_time(p.year, p.month, p.day, time_fields_of(p), p.cal_idx) == p
}

/// The text of a stored date-time, when it loads and `temporal_rs` writes one.
pub open spec fn date_time_text_of(p: PlainDateTime) -> Option<Seq<char>> {
    if date_time_loads(p) {
        temporal_date_time_text(p.year, p.month, p.day, time_fields_of(p), stored_name(p.cal_idx))
    } else {
        None
    }
}

// ---------------------------------------------------------------------------
// Order
// ---------------------------------------------------------------------------

/// -1, 0 or 1 as `a` is before, equal to or after `b`: by ISO date, hour,
/// minute, second and sub-second, then calendar index.
pub open spec fn date_time_order(a: PlainDateTime, b: PlainDateTime) -> int {
    if a.year != b.year { if a.year < b.year { -1 } else { 1 } }
    else if a.month != b.month { if a.month < b.month { -1 } else { 1 } }
    else if a.day != b.day { if a.day < b.day { -1 } else { 1 } }
    else if a.hour != b.hour { if a.hour < b.hour { -1 } else { 1 } }
    else if a.minute != b.minute { if a.minute < b.minute { -1 } else { 1 } }
    else if a.second != b.second { if a.second < b.second { -1 } else { 1 } }
    else if a.subsecond_ns != b.subsecond_ns { if a.subsecond_ns < b.subsecond_ns { -1 } else { 1 } }
    else if a.cal_idx != b.cal_idx { if a.cal_idx < b.cal_idx { -1 } else { 1 } }
    else { 0 }
}

/// Compares two plain date-times (the order of the SQL operators and of
/// `ORDER BY`).
pub fn plain_datetime_compare(a: PlainDateTime, b: PlainDateTime) -> (r: i32)
    ensures r == date_time_order(a, b),
{
    if a.year != b.year { if a.year < b.year { -1 } else { 1 } }
    else if a.month != b.month { if a.month < b.month { -1 } else { 1 } }
    else if a.day != b.day { if a.day < b.day { -1 } else { 1 } }
    else if a.hour != b.hour { if a.hour < b.hour { -1 } else { 1 } }
    else if a.minute != b.minute { if a.minute < b.minute { -1 } else { 1 } }
    else if a.second != b.second { if a.second < b.second { -1 } else { 1 } }
    else if a.subsecond_ns != b.subsecond_ns { if a.subsecond_ns < b.subsecond_ns { -1 } else { 1 } }
    else if a.cal_idx != b.cal_idx { if a.cal_idx < b.cal_idx { -1 } else { 1 } }
    else { 0 }
}

/// The order of plain date-times is a total order: zero exactly on equal
/// values, flipped with its arguments, and transitive.
pub proof fn lemma_date_time_order(a: PlainDateTime, b: PlainDateTime, c: PlainDateTime)
    ensures
        date_time_order(a, b) == 0 <==> a == b,
        date_time_order(a, b) == -date_time_order(b, a),
        date_time_order(a, b) < 0 && date_time_order(b, c) < 0 ==> date_time_order(a, c) < 0,
{
}

/// Plain date-times are ordered as their ISO date-times fall in time: by
/// year, then month, day, hour, minute, second and sub-second; an earlier
/// field at the first place where they differ comes first; the calendar only
/// separates values with the same ISO date-time.
pub proof fn lemma_date_time_order_chronological(a: PlainDateTime, b: PlainDateTime)
    ensures
        a.year < b.year ==> date_time_order(a, b) < 0,
        a.year == b.year && a.month < b.month ==> date_time_order(a, b) < 0,
        a.year == b.year && a.month == b.month && a.day < b.day ==> date_time_order(a, b) < 0,
        a.year == b.year && a.month == b.month && a.day == b.day && a.hour < b.hour ==> date_time_order(a, b) < 0,
        a.year == b.year && a.month == b.month && a.day == b.day && a.hour == b.hour && a.minute < b.minute
            ==> date_time_order(a, b) < 0,
        a.year == b.year && a.month == b.month && a.day == b.day && a.hour == b.hour && a.minute == b.minute
            && a.second < b.second ==> date_time_order(a, b) < 0,
        a.year == b.year && a.month == b.month && a.day == b.day && a.hour == b.hour && a.minute == b.minute
            && a.second == b.second && a.subsecond_ns < b.subsecond_ns ==> date_time_order(a, b) < 0,
{
}

// ---------------------------------------------------------------------------
// Arithmetic
// ---------------------------------------------------------------------------

/// What adding `dur` to a stored date-time gives, if it succeeds.
pub open spec fn date_time_plus(p: PlainDateTime, dur: Duration) -> Option<PlainDateTime> {
    if date_time_loads(p) && temporal_accepts_duration(dur) {
        match (temporal_date_time_add(p.year, p.month, p.day, time_fields_of(p), stored_name(p.cal_idx), dur),
            reloaded_index(stored_name(p.cal_idx))) {
            (Some(v), Some(i)) => Some(pack_date_time(v.0, v.1, v.2, v.3, i)),
            _ => None,
        }
    } else {
        None
    }
}

/// Adds a duration to a plain date-time; the day of month is constrained to
/// the last valid day.
pub fn plain_datetime_add(p: PlainDateTime, dur: Duration) -> (r: Result<PlainDateTime, Error>)
    ensures
        p.cal_idx >= CALENDAR_COUNT ==> r == Err::<PlainDateTime, Error>(Error::UnknownCalendarIndex(p.cal_idx)),
        match date_time_plus(p, dur) {
            Some(v) => r == Ok::<PlainDateTime, Error>(v),
            None => r is Err,
        },
{
    let name = stored_calendar(p.cal_idx)?;
    let t = time_of_date_time(&p);
    match outside_date_time_add(p.year, p.month, p.day, &t, name, &dur) {
        Ok(v) => {
            let i = calendar_index(name)?;
            Ok(pack_date_time_exec(v.0, v.1, v.2, &v.3, i))
        },
        Err(e) => Err(from_temporal_error(e)),
    }
}

/// Subtracts a duration from a plain date-time, as adding its negation.
pub fn plain_datetime_subtract(p: PlainDateTime, dur: Duration) -> (r: Result<PlainDateTime, Error>)
    ensures
        p.cal_idx >= CALENDAR_COUNT ==> r == Err::<PlainDateTime, Error>(Error::UnknownCalendarIndex(p.cal_idx)),
        match date_time_plus(p, negate(dur)) {
            Some(v) => r == Ok::<PlainDateTime, Error>(v),
            None => r is Err,
        },
{
    let name = stored_calendar(p.cal_idx)?;
    let t = time_of_date_time(&p);
    match outside_date_time_subtract(p.year, p.month, p.day, &t, name, &dur) {
        Ok(v) => {
            let i = calendar_index(name)?;
            Ok(pack_date_time_exec(v.0, v.1, v.2, &v.3, i))
        },
        Err(e) => Err(from_temporal_error(e)),
    }
}

/// The duration from `p` to `other`, when both load.
pub open spec fn date_time_difference(p: PlainDateTime, other: PlainDateTime) -> Option<Duration> {
    if date_time_loads(p) && date_time_loads(other) {
        temporal_date_time_until((p.year, p.month, p.day, time_fields_of(p)),
            (other.year, other.month, other.day, time_fields_of(other)),
            stored_name(p.cal_idx), stored_name(other.cal_idx))
    } else {
        None
    }
}

/// The duration from `p` to `other`, with days as the largest unit.
pub fn plain_datetime_until(p: PlainDateTime, other: PlainDateTime) -> (r: Result<Duration, Error>)
    ensures
        p.cal_idx >= CALENDAR_COUNT ==> r == Err::<Duration, Error>(Error::UnknownCalendarIndex(p.cal_idx)),
        p.cal_idx < CALENDAR_COUNT && other.cal_idx >= CALENDAR_COUNT
            ==> r == Err::<Duration, Error>(Error::UnknownCalendarIndex(other.cal_idx)),
        match date_time_difference(p, other) {
            Some(d) => r == Ok::<Duration, Error>(d),
            None => r is Err,
        },
{
    let a = stored_calendar(p.cal_idx)?;
    let b = stored_calendar(other.cal_idx)?;
    let ta = time_of_date_time(&p);
    let tb = time_of_date_time(&other);
    match outside_date_time_until((p.year, p.month, p.day, ta), (other.year, other.month, other.day, tb), a, b) {
        Ok(d) => Ok(d),
        Err(e) => Err(from_temporal_error(e)),
    }
}

/// The duration elapsed from `other` to `p`: the negation of `p` until `other`.
pub fn plain_datetime_since(p: PlainDateTime, other: PlainDateTime) -> (r: Result<Duration, Error>)
    ensures
        p.cal_idx >= CALENDAR_COUNT ==> r == Err::<Duration, Error>(Error::UnknownCalendarIndex(p.cal_idx)),
        p.cal_idx < CALENDAR_COUNT && other.cal_idx >= CALENDAR_COUNT
            ==> r == Err::<Duration, Error>(Error::UnknownCalendarIndex(other.cal_idx)),
        match date_time_difference(p, other) {
            Some(d) => r matches Ok(v) && d == negate(v),
            None => r is Err,
        },
{
    let a = stored_calendar(p.cal_idx)?;
    let b = stored_calendar(other.cal_idx)?;
    let ta = time_of_date_time(&p);
    let tb = time_of_date_time(&other);
    match outside_date_time_since((p.year, p.month, p.day, ta), (other.year, other.month, other.day, tb), a, b) {
        Ok(d) => Ok(d),
        Err(e) => Err(from_temporal_error(e)),
    }
}

// ---------------------------------------------------------------------------
// PostgreSQL `timestamp`
// ---------------------------------------------------------------------------

/// The time of day of a `timestamp`'s hour, minute, whole second and its
/// microseconds within the minute (`second * 1_000_000 + µs`).
pub open spec fn timestamp_time(hour: u8, minute: u8, second: u8, total_us: u32) -> TimeOfDay {
    let sub_us = total_us % 1_000_000;
    TimeOfDay { hour, minute, second, millisecond: (sub_us / 1_000) as u16,
        microsecond: (sub_us % 1_000) as u16, nanosecond: 0 }
}

/// The plain date-time, in the ISO 8601 calendar, of a PostgreSQL `timestamp`
/// given by its fields (the second truncated to a whole number, and the
/// microseconds within the minute); its nanoseconds are 0.
pub fn timestamp_to_plaindatetime(year: i32, month: u8, day: u8, hour: u8, minute: u8, second: u8,
    total_us: u32) -> (r: Result<PlainDateTime, Error>)
    ensures
        accepted_date_time(year as int, month as int, day as int, timestamp_time(hour, minute, second, total_us))
            ==> r == Ok::<PlainDateTime, Error>(pack_date_time(year, month, day,
                timestamp_time(hour, minute, second, total_us), ISO8601_INDEX)),
        !accepted_date_time(year as int, month as int, day as int, timestamp_time(hour, minute, second, total_us))
            ==> (r matches Err(e) && e is Temporal),
{
    let sub_us = total_us % 1_000_000;
    let t = TimeOfDay { hour, minute, second, millisecond: (sub_us / 1_000) as u16,
        microsecond: (sub_us % 1_000) as u16, nanosecond: 0 };
    match outside_iso_date_time(year, month, day, &t) {
        Ok(id) => match index_of(id) {
            Some(i) => {
                proof {
                    reveal_strlit("iso8601");
                    assert(calendar_names()[12] == "iso8601"@);
                    lemma_calendar_names_distinct(i as int, 12);
                }
                Ok(pack_date_time_exec(year, month, day, &t, i))
            },
            None => {
                proof {
                    let k: int = 12;
                    assert(calendar_names()[k] == "iso8601"@);
                }
                Err(Error::UnsupportedCalendar)
            },
        },
        Err(e) => Err(from_temporal_error(e)),
    }
}

/// The fields of a plain date-time for a PostgreSQL `timestamp`: ISO date,
/// hour, minute, second and the microseconds within the second (the
/// nanoseconds below a microsecond are dropped).
pub fn plaindatetime_timestamp_fields(p: PlainDateTime) -> (r: (i32, u8, u8, u8, u8, u8, u32))
    ensures r == (p.year, p.month, p.day, p.hour, p.minute, p.second, p.subsecond_ns / 1_000),
{
    (p.year, p.month, p.day, p.hour, p.minute, p.second, p.subsecond_ns / 1_000)
}

/// Packing a date-time with valid sub-second fields and reading its fields
/// back gives them unchanged.
pub proof fn lemma_date_time_fields_round_trip(y: i32, m: u8, d: u8, t: TimeOfDay, cal_idx: u8)
    requires t.millisecond <= 999, t.microsecond <= 999, t.nanosecond <= 999,
    ensures ({
        let p = pack_date_time(y, m, d, t, cal_idx);
        &&& time_fields_of(p) == t
        &&& p.year == y && p.month == m && p.day == d && p.cal_idx == cal_idx
        &&& p.subsecond_ns < 1_000_000_000
    }),
{
    lemma_unpack_pack(t);
}

// ---------------------------------------------------------------------------
// The wall clock of a time zone
// ---------------------------------------------------------------------------

/// The ISO date fields and time of day that the wall clock of time zone
/// `tz` shows at `ns` nanoseconds after the Unix epoch, in the ISO 8601
/// calendar, when the zone is known and the instant valid.
pub uninterp spec fn temporal_wall_clock(ns: i128, tz: Seq<char>) -> Option<(i32, u8, u8, TimeOfDay)>;

/// Reads the wall clock of a time zone at an instant.
///
/// Calls `temporal_rs::TimeZone::try_from_str`, `ZonedDateTime::try_new`
/// (ISO 8601 calendar), `ZonedDateTime::to_plain_date_time` and the ISO and
/// time getters of the result. Claimed: the result is `temporal_wall_clock`;
/// the fields of a `temporal_rs` plain date-time are always accepted.
#[verifier::external_body]
fn outside_wall_clock(ns: i128, tz: &str) -> (r: Result<(i32, u8, u8, TimeOfDay), temporal_rs::TemporalError>)
    ensures
        match r {
            Ok(v) => temporal_wall_clock(ns, tz@) == Some(v) && accepted_date_time(v.0 as int, v.1 as int, v.2 as int, v.3),
            Err(_) => temporal_wall_clock(ns, tz@) is None,
        },
{
    let p = TemporalZdt::try_new(ns, TimeZone::try_from_str(tz)?, Calendar::default())?.to_plain_date_time();
    Ok((p.iso_year(), p.iso_month(), p.iso_day(), TimeOfDay { hour: p.hour(), minute: p.minute(),
        second: p.second(), millisecond: p.millisecond(), microsecond: p.microsecond(),
        nanosecond: p.nanosecond() }))
}

/// The plain date-time, in the ISO 8601 calendar, that the wall clock of
/// time zone `tz` shows at the instant `ns` nanoseconds after the Unix epoch.
pub fn plaindatetime_in_zone(ns: i128, tz: &str) -> (r: Result<PlainDateTime, Error>)
    ensures
        match temporal_wall_clock(ns, tz@) {
            Some(v) => r == Ok::<PlainDateTime, Error>(pack_date_time(v.0, v.1, v.2, v.3, ISO8601_INDEX)),
            None => r matches Err(e) && e is Temporal,
        },
{
    match outside_wall_clock(ns, tz) {
        Ok(v) => Ok(pack_date_time_exec(v.0, v.1, v.2, &v.3, ISO8601_INDEX)),
        Err(e) => Err(from_temporal_error(e)),
    }
}

} // verus!
