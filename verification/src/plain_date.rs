//! `PlainDate`: a calendar date with no time or time zone, stored as its ISO
//! 8601 fields and a calendar index.
use vstd::prelude::*;
use temporal_rs::{Calendar, PlainDate as TemporalPd};
use temporal_rs::options::{DisplayCalendar, Overflow};
use crate::calendar::{CALENDAR_COUNT, lemma_index_spec_of_stored, ISO8601_INDEX, calendar_names, calendar_index, calendar_index_result,
    calendar_name, index_of, index_spec, lemma_calendar_names_distinct, name_of, temporal_calendar_id};
use crate::duration::{Duration, from_temporal_duration, negate, temporal_accepts_duration, to_temporal_duration};
use crate::error::{Error, Field, from_temporal_error};
use crate::iso_date::{accepted_date, accepted_date_time, midnight};

verus! {

/// A plain date as stored: ISO year, month and day, and the calendar index.
#[derive(Clone, Copy, Debug, PartialEq, Eq, Structural)]
pub struct PlainDate {
    pub year: i32,
    pub month: u8,
    pub day: u8,
    pub cal_idx: u8,
}

/// The calendar identifier stored at index `idx` (meaningful below `CALENDAR_COUNT`).
pub open spec fn stored_name(idx: u8) -> Seq<char> {
    calendar_names()[idx as int]
}

/// Whether a stored calendar index names a calendar that `temporal_rs` loads.
pub open spec fn calendar_loads(idx: u8) -> bool {
    idx < CALENDAR_COUNT && temporal_calendar_id(stored_name(idx)) is Some
}

/// Whether a stored date can be rebuilt as a `temporal_rs` date.
pub open spec fn date_loads(p: PlainDate) -> bool {
    calendar_loads(p.cal_idx) && accepted_date(p.year as int, p.month as int, p.day as int)
}

// ---------------------------------------------------------------------------
// Calls into temporal_rs
// ---------------------------------------------------------------------------

/// The calendar year, month and day of an ISO date in the named calendar.
pub uninterp spec fn temporal_date_fields(y: i32, m: u8, d: u8, cal: Seq<char>) -> (i32, u8, u8);

/// The ISO fields and calendar identifier of the date `temporal_rs` reads
/// from text, if it reads one whose midnight is a valid date-time.
pub uninterp spec fn temporal_date_from_text(text: Seq<char>) -> Option<(i32, u8, u8, Seq<char>)>;

/// The text `temporal_rs` writes for an ISO date in the named calendar.
pub uninterp spec fn temporal_date_text(y: i32, m: u8, d: u8, cal: Seq<char>) -> Seq<char>;

/// The ISO fields of the sum of an ISO date in the named calendar and a
/// duration (day of month constrained), if the sum and its midnight are valid.
pub uninterp spec fn temporal_date_add(y: i32, m: u8, d: u8, cal: Seq<char>, dur: Duration) -> Option<(i32, u8, u8)>;

/// The duration from one ISO date to another, each in its named calendar,
/// with days as the largest unit, if `temporal_rs` computes one.
pub uninterp spec fn temporal_date_until(a: (i32, u8, u8), b: (i32, u8, u8), cal_a: Seq<char>, cal_b: Seq<char>) -> Option<Duration>;

/// Checks ISO date fields.
///
/// Calls `temporal_rs::PlainDate::try_new_iso`. Claimed, from its source
/// (`IsoDate::new_with_overflow` with `Reject`): it succeeds exactly when the
/// fields form an ISO date within Temporal's limits. The calendar given to
/// `try_new` plays no part in this check.
#[verifier::external_body]
fn outside_date_check(y: i32, m: u8, d: u8) -> (r: Result<(), temporal_rs::TemporalError>)
    ensures r is Ok == accepted_date(y as int, m as int, d as int),
{
    TemporalPd::try_new_iso(y, m, d)?;
    Ok(())
}

/// The ISO date as `temporal_rs` stores a date it built: checked, then read
/// back through its midnight date-time, with the identifier of its calendar.
///
/// Calls `temporal_rs::PlainDate::try_new_iso`, `to_plain_date_time` and
/// `Calendar::identifier`. Claimed: it succeeds exactly when the date and its
/// midnight are valid; the fields come back unchanged and the calendar is ISO 8601.
#[verifier::external_body]
fn outside_iso_date(y: i32, m: u8, d: u8) -> (r: Result<(i32, u8, u8, &'static str), temporal_rs::TemporalError>)
    ensures
        r is Ok == accepted_date_time(y as int, m as int, d as int, midnight()),
        r matches Ok(v) ==> v.0 == y && v.1 == m && v.2 == d && v.3@ == "iso8601"@,
{
    let p = TemporalPd::try_new_iso(y, m, d)?;
    let t = p.to_plain_date_time(None)?;
    Ok((t.iso_year(), t.iso_month(), t.iso_day(), p.calendar().identifier()))
}

/// The calendar fields of a stored date.
///
/// Calls `temporal_rs::Calendar::try_from_utf8`, `PlainDate::try_new` and the
/// `year`, `month` and `day` getters. Claimed: it succeeds exactly when the
/// calendar loads and the date is valid; the result is `temporal_date_fields`;
/// in the ISO 8601 calendar these are the ISO fields themselves.
#[verifier::external_body]
fn outside_date_fields(y: i32, m: u8, d: u8, cal: &str) -> (r: Result<(i32, u8, u8), temporal_rs::TemporalError>)
    ensures
        r is Ok == (temporal_calendar_id(cal@) is Some && accepted_date(y as int, m as int, d as int)),
        r matches Ok(v) ==> v == temporal_date_fields(y, m, d, cal@),
        r is Ok && (cal@ == "iso8601"@ || temporal_calendar_id(cal@) == Some("iso8601"@)) ==> temporal_date_fields(y, m, d, cal@) == (y, m, d),
{
    let p = TemporalPd::try_new(y, m, d, Calendar::try_from_utf8(cal.as_bytes())?)?;
    Ok((p.year(), p.month(), p.day()))
}

/// Reads a date from text.
///
/// Calls `temporal_rs::PlainDate::from_utf8`, `to_plain_date_time` and
/// `Calendar::identifier`. Claimed: the result is `temporal_date_from_text`,
/// and its fields form a date whose midnight is valid.
#[verifier::external_body]
fn outside_date_from_text(text: &str) -> (r: Result<(i32, u8, u8, &'static str), temporal_rs::TemporalError>)
    ensures
        match r {
            Ok(v) => temporal_date_from_text(text@) == Some((v.0, v.1, v.2, v.3@))
                && accepted_date_time(v.0 as int, v.1 as int, v.2 as int, midnight()),
            Err(_) => temporal_date_from_text(text@) is None,
        },
{
    let p = TemporalPd::from_utf8(text.as_bytes())?;
    let t = p.to_plain_date_time(None)?;
    Ok((t.iso_year(), t.iso_month(), t.iso_day(), p.calendar().identifier()))
}

/// Writes a stored date as text.
///
/// Calls `temporal_rs::PlainDate::to_ixdtf_string` with the calendar shown
/// only when it is not ISO 8601 (`DisplayCalendar::Auto`). Claimed: it
/// succeeds exactly when the calendar loads and the date is valid; the text
/// is `temporal_date_text`; and, for a calendar named as in the stored table
/// (each name there is the identifier `temporal_rs` gives its calendar),
/// the text reads back (`PlainDate::from_utf8`, whose midnight must then be
/// valid) as the same ISO date and calendar identifier.
#[verifier::external_body]
fn outside_date_text(y: i32, m: u8, d: u8, cal: &str) -> (r: Result<String, temporal_rs::TemporalError>)
    ensures
        r is Ok == (temporal_calendar_id(cal@) is Some && accepted_date(y as int, m as int, d as int)),
        r matches Ok(s) ==> s@ == temporal_date_text(y, m, d, cal@),
        r is Ok && calendar_names().contains(cal@) && accepted_date_time(y as int, m as int, d as int, midnight())
            ==> temporal_date_from_text(temporal_date_text(y, m, d, cal@)) == Some((y, m, d, cal@)),
{
    let p = TemporalPd::try_new(y, m, d, Calendar::try_from_utf8(cal.as_bytes())?)?;
    Ok(p.to_ixdtf_string(DisplayCalendar::default()))
}

/// Adds a duration to a stored date.
///
/// Calls `temporal_rs::PlainDate::add` with `Overflow::Constrain`, then
/// `to_plain_date_time`. Claimed: it can succeed only when the calendar
/// loads, the date is valid and the duration accepted; then the result is
/// `temporal_date_add`.
#[verifier::external_body]
fn outside_date_add(y: i32, m: u8, d: u8, cal: &str, dur: &Duration) -> (r: Result<(i32, u8, u8), temporal_rs::TemporalError>)
    ensures
        r is Ok ==> temporal_calendar_id(cal@) is Some && accepted_date(y as int, m as int, d as int)
            && temporal_accepts_duration(*dur),
        temporal_calendar_id(cal@) is Some && accepted_date(y as int, m as int, d as int)
            && temporal_accepts_duration(*dur) ==> match r {
                Ok(v) => temporal_date_add(y, m, d, cal@, *dur) == Some(v),
                Err(_) => temporal_date_add(y, m, d, cal@, *dur) is None,
            },
{
    let p = TemporalPd::try_new(y, m, d, Calendar::try_from_utf8(cal.as_bytes())?)?
        .add(&to_temporal_duration(dur)?, Some(Overflow::Constrain))?;
    let t = p.to_plain_date_time(None)?;
    Ok((t.iso_year(), t.iso_month(), t.iso_day()))
}

/// Subtracts a duration from a stored date.
///
/// Calls `temporal_rs::PlainDate::subtract` with `Overflow::Constrain`,
/// which adds the negated duration. Claimed as for `outside_date_add`, with
/// the duration negated.
#[verifier::external_body]
fn outside_date_subtract(y: i32, m: u8, d: u8, cal: &str, dur: &Duration) -> (r: Result<(i32, u8, u8), temporal_rs::TemporalError>)
    ensures
        r is Ok ==> temporal_calendar_id(cal@) is Some && accepted_date(y as int, m as int, d as int)
            && temporal_accepts_duration(negate(*dur)),
        temporal_calendar_id(cal@) is Some && accepted_date(y as int, m as int, d as int)
            && temporal_accepts_duration(negate(*dur)) ==> match r {
                Ok(v) => temporal_date_add(y, m, d, cal@, negate(*dur)) == Some(v),
                Err(_) => temporal_date_add(y, m, d, cal@, negate(*dur)) is None,
            },
{
    let p = TemporalPd::try_new(y, m, d, Calendar::try_from_utf8(cal.as_bytes())?)?
        .subtract(&to_temporal_duration(dur)?, Some(Overflow::Constrain))?;
    let t = p.to_plain_date_time(None)?;
    Ok((t.iso_year(), t.iso_month(), t.iso_day()))
}

/// The duration from one stored date to another.
///
/// Calls `temporal_rs::PlainDate::until` with the default settings. Claimed,
/// from its source (`diff_date`): it can succeed only when both calendars
/// load and both dates are valid, and then the result is `temporal_date_until`,
/// a count of days only (an error when the calendars differ).
#[verifier::external_body]
fn outside_date_until(a: (i32, u8, u8), b: (i32, u8, u8), cal_a: &str, cal_b: &str) -> (r: Result<Duration, temporal_rs::TemporalError>)
    ensures
        r is Ok ==> temporal_calendar_id(cal_a@) is Some && temporal_calendar_id(cal_b@) is Some
            && accepted_date(a.0 as int, a.1 as int, a.2 as int) && accepted_date(b.0 as int, b.1 as int, b.2 as int),
        temporal_calendar_id(cal_a@) is Some && temporal_calendar_id(cal_b@) is Some
            && accepted_date(a.0 as int, a.1 as int, a.2 as int) && accepted_date(b.0 as int, b.1 as int, b.2 as int)
            ==> match r {
                Ok(v) => temporal_date_until(a, b, cal_a@, cal_b@) == Some(v),
                Err(_) => temporal_date_until(a, b, cal_a@, cal_b@) is None,
            },
        r matches Ok(v) ==> v.years == 0 && v.months == 0 && v.weeks == 0 && v.hours == 0 && v.minutes == 0
            && v.seconds == 0 && v.milliseconds == 0 && v.microseconds == 0 && v.nanoseconds == 0,
{
    let x = TemporalPd::try_new(a.0, a.1, a.2, Calendar::try_from_utf8(cal_a.as_bytes())?)?;
    let y = TemporalPd::try_new(b.0, b.1, b.2, Calendar::try_from_utf8(cal_b.as_bytes())?)?;
    Ok(from_temporal_duration(&x.until(&y, Default::default())?))
}

/// The duration elapsed from one stored date to another.
///
/// Calls `temporal_rs::PlainDate::since` with the default settings. Claimed,
/// from its source: the same difference as `until`, negated.
#[verifier::external_body]
fn outside_date_since(a: (i32, u8, u8), b: (i32, u8, u8), cal_a: &str, cal_b: &str) -> (r: Result<Duration, temporal_rs::TemporalError>)
    ensures
        r is Ok ==> temporal_calendar_id(cal_a@) is Some && temporal_calendar_id(cal_b@) is Some
            && accepted_date(a.0 as int, a.1 as int, a.2 as int) && accepted_date(b.0 as int, b.1 as int, b.2 as int),
        temporal_calendar_id(cal_a@) is Some && temporal_calendar_id(cal_b@) is Some
            && accepted_date(a.0 as int, a.1 as int, a.2 as int) && accepted_date(b.0 as int, b.1 as int, b.2 as int)
            ==> match r {
                Ok(v) => temporal_date_until(a, b, cal_a@, cal_b@) == Some(negate(v)),
                Err(_) => temporal_date_until(a, b, cal_a@, cal_b@) is None,
            },
{
    let x = TemporalPd::try_new(a.0, a.1, a.2, Calendar::try_from_utf8(cal_a.as_bytes())?)?;
    let y = TemporalPd::try_new(b.0, b.1, b.2, Calendar::try_from_utf8(cal_b.as_bytes())?)?;
    Ok(from_temporal_duration(&x.since(&y, Default::default())?))
}

// ---------------------------------------------------------------------------
// Shared steps
// ---------------------------------------------------------------------------

/// The identifier of a stored calendar index; an index outside the table is an error.
pub fn stored_calendar(idx: u8) -> (r: Result<&'static str, Error>)
    ensures
        idx < CALENDAR_COUNT ==> (r matches Ok(s) && s@ == stored_name(idx)),
        idx >= CALENDAR_COUNT ==> r == Err::<&'static str, Error>(Error::UnknownCalendarIndex(idx)),
{
    match name_of(idx) {
        Some(s) => Ok(s),
        None => Err(Error::UnknownCalendarIndex(idx)),
    }
}

/// A field given to a constructor as `i32`, as a `u8`.
pub fn field_u8(v: i32, f: Field) -> (r: Result<u8, Error>)
    ensures
        0 <= v <= 255 ==> r == Ok::<u8, Error>(v as u8),
        !(0 <= v <= 255) ==> r == Err::<u8, Error>(Error::InvalidField(f, v)),
{
    if 0 <= v && v <= 255 { Ok(v as u8) } else { Err(Error::InvalidField(f, v)) }
}

/// A field given to a constructor as `i32`, as a `u16`.
pub fn field_u16(v: i32, f: Field) -> (r: Result<u16, Error>)
    ensures
        0 <= v <= 65535 ==> r == Ok::<u16, Error>(v as u16),
        !(0 <= v <= 65535) ==> r == Err::<u16, Error>(Error::InvalidField(f, v)),
{
    if 0 <= v && v <= 65535 { Ok(v as u16) } else { Err(Error::InvalidField(f, v)) }
}

/// The stored calendar index of the calendar a value was rebuilt with: the
/// index of the identifier of the calendar loaded from `name`.
pub open spec fn reloaded_index(name: Seq<char>) -> Option<u8> {
    match calendar_index_result(name) {
        Some(Some(i)) => Some(i),
        _ => None,
    }
}

// ---------------------------------------------------------------------------
// Construction, text and accessors
// ---------------------------------------------------------------------------

/// Builds a plain date from ISO fields and a calendar name (`iso8601` by default).
///
/// A month or day outside `u8` is refused with `InvalidField`; then the
/// calendar must be known to `temporal_rs` and have a stored index; then the
/// fields must form a valid ISO date.
pub fn make_plaindate(year: i32, month: i32, day: i32, cal: &str) -> (r: Result<PlainDate, Error>)
    ensures
        !(0 <= month <= 255) ==> r == Err::<PlainDate, Error>(Error::InvalidField(Field::Month, month)),
        0 <= month <= 255 && !(0 <= day <= 255) ==> r == Err::<PlainDate, Error>(Error::InvalidField(Field::Day, day)),
        0 <= month <= 255 && 0 <= day <= 255 ==> match calendar_index_result(cal@) {
            None => r matches Err(e) && e is Temporal,
            Some(None) => r == Err::<PlainDate, Error>(Error::UnsupportedCalendar),
            Some(Some(i)) => if accepted_date(year as int, month as int, day as int) {
                r == Ok::<PlainDate, Error>(PlainDate { year, month: month as u8, day: day as u8, cal_idx: i })
            } else {
                r matches Err(e) && e is Temporal
            },
        },
{
    let m = field_u8(month, Field::Month)?;
    let d = field_u8(day, Field::Day)?;
    let cal_idx = calendar_index(cal)?;
    match outside_date_check(year, m, d) {
        Ok(()) => Ok(PlainDate { year, month: m, day: d, cal_idx }),
        Err(e) => Err(from_temporal_error(e)),
    }
}

/// What each calendar accessor of a stored date gives: an error for an index
/// outside the table, the calendar fields when the date loads.
pub open spec fn date_fields_result(pd: PlainDate) -> Option<(i32, u8, u8)> {
    if date_loads(pd) {
        Some(temporal_date_fields(pd.year, pd.month, pd.day, stored_name(pd.cal_idx)))
    } else {
        None
    }
}

fn date_fields(pd: &PlainDate) -> (r: Result<(i32, u8, u8), Error>)
    ensures
        pd.cal_idx >= CALENDAR_COUNT ==> r == Err::<(i32, u8, u8), Error>(Error::UnknownCalendarIndex(pd.cal_idx)),
        r is Ok && (pd.cal_idx == ISO8601_INDEX || temporal_calendar_id(stored_name(pd.cal_idx)) == Some("iso8601"@))
            ==> r == Ok::<(i32, u8, u8), Error>((pd.year, pd.month, pd.day)),
        match date_fields_result(*pd) {
            Some(v) => r == Ok::<(i32, u8, u8), Error>(v),
            None => r is Err,
        },
{
    let name = stored_calendar(pd.cal_idx)?;
    proof {
        reveal_strlit("iso8601");
        assert(calendar_names()[12] == "iso8601"@);
    }
    match outside_date_fields(pd.year, pd.month, pd.day, name) {
        Ok(v) => Ok(v),
        Err(e) => Err(from_temporal_error(e)),
    }
}

/// The year in the date's calendar (e.g. 1403 for a Persian date in ISO 2025).
pub fn plain_date_year(pd: PlainDate) -> (r: Result<i32, Error>)
    ensures
        pd.cal_idx >= CALENDAR_COUNT ==> r == Err::<i32, Error>(Error::UnknownCalendarIndex(pd.cal_idx)),
        r is Ok && (pd.cal_idx == ISO8601_INDEX || temporal_calendar_id(stored_name(pd.cal_idx)) == Some("iso8601"@)) ==> r == Ok::<i32, Error>(pd.year as i32),
        match date_fields_result(pd) {
            Some(v) => r == Ok::<i32, Error>(v.0),
            None => r is Err,
        },
{
    let v = date_fields(&pd)?;
    Ok(v.0)
}

/// The month (1-based) in the date's calendar.
pub fn plain_date_month(pd: PlainDate) -> (r: Result<i32, Error>)
    ensures
        pd.cal_idx >= CALENDAR_COUNT ==> r == Err::<i32, Error>(Error::UnknownCalendarIndex(pd.cal_idx)),
        r is Ok && (pd.cal_idx == ISO8601_INDEX || temporal_calendar_id(stored_name(pd.cal_idx)) == Some("iso8601"@)) ==> r == Ok::<i32, Error>(pd.month as i32),
        match date_fields_result(pd) {
            Some(v) => r == Ok::<i32, Error>(v.1 as i32),
            None => r is Err,
        },
{
    let v = date_fields(&pd)?;
    Ok(v.1 as i32)
}

/// The day of the month in the date's calendar.
pub fn plain_date_day(pd: PlainDate) -> (r: Result<i32, Error>)
    ensures
        pd.cal_idx >= CALENDAR_COUNT ==> r == Err::<i32, Error>(Error::UnknownCalendarIndex(pd.cal_idx)),
        r is Ok && (pd.cal_idx == ISO8601_INDEX || temporal_calendar_id(stored_name(pd.cal_idx)) == Some("iso8601"@)) ==> r == Ok::<i32, Error>(pd.day as i32),
        match date_fields_result(pd) {
            Some(v) => r == Ok::<i32, Error>(v.2 as i32),
            None => r is Err,
        },
{
    let v = date_fields(&pd)?;
    Ok(v.2 as i32)
}

/// The identifier of the date's calendar.
pub fn plain_date_calendar(pd: PlainDate) -> (r: Result<String, Error>)
    ensures
        pd.cal_idx < CALENDAR_COUNT ==> (r matches Ok(s) && s@ == stored_name(pd.cal_idx)),
        pd.cal_idx >= CALENDAR_COUNT ==> r == Err::<String, Error>(Error::UnknownCalendarIndex(pd.cal_idx)),
{
    calendar_name(pd.cal_idx)
}

/// Whether the text written for a stored date reads back, through
/// `PlainDate::parse`, as that date: `temporal_rs` reads its ISO fields and
/// calendar identifier, and the identifier has the date's index.
pub open spec fn date_reads_back(p: PlainDate) -> bool {
    &&& temporal_date_from_text(temporal_date_text(p.year, p.month, p.day, stored_name(p.cal_idx)))
        == Some((p.year, p.month, p.day, stored_name(p.cal_idx)))
    &&& index_spec(stored_name(p.cal_idx)) == Some(p.cal_idx)
}

impl PlainDate {
    /// Reads a date from its text form (`2025-03-01`, `2025-03-01[u-ca=persian]`, ...).
    pub fn parse(text: &str) -> (r: Result<PlainDate, Error>)
        ensures
            match temporal_date_from_text(text@) {
                None => r matches Err(e) && e is Temporal,
                Some(v) => match index_spec(v.3) {
                    None => r == Err::<PlainDate, Error>(Error::UnsupportedCalendar),
                    Some(i) => r == Ok::<PlainDate, Error>(PlainDate { year: v.0, month: v.1, day: v.2, cal_idx: i }),
                },
            },
            r matches Ok(p) ==> date_loads(p) || !calendar_loads(p.cal_idx),
    {
        match outside_date_from_text(text) {
            Ok(v) => match index_of(v.3) {
                Some(i) => {
                    proof {
                        let k = choose|k: int| 0 <= k < CALENDAR_COUNT && calendar_names()[k] == v.3@;
                        lemma_calendar_names_distinct(k, i as int);
                    }
                    Ok(PlainDate { year: v.0, month: v.1, day: v.2, cal_idx: i })
                },
                None => Err(Error::UnsupportedCalendar),
            },
            Err(e) => Err(from_temporal_error(e)),
        }
    }

    /// The text form of the date; the calendar is shown unless it is ISO 8601.
    pub fn to_text(&self) -> (r: Result<String, Error>)
        ensures
            self.cal_idx >= CALENDAR_COUNT ==> r == Err::<String, Error>(Error::UnknownCalendarIndex(self.cal_idx)),
            r is Ok <==> date_loads(*self),
            r matches Ok(s) ==> s@ == temporal_date_text(self.year, self.month, self.day, stored_name(self.cal_idx)),
            r is Ok && accepted_date_time(self.year as int, self.month as int, self.day as int, midnight())
                ==> date_reads_back(*self),
    {
        proof {
            if self.cal_idx < CALENDAR_COUNT {
                lemma_index_spec_of_stored(self.cal_idx);
                assert(calendar_names()[self.cal_idx as int] == stored_name(self.cal_idx));
            }
        }
        let name = stored_calendar(self.cal_idx)?;
        match outside_date_text(self.year, self.month, self.day, name) {
            Ok(s) => Ok(s),
            Err(e) => Err(from_temporal_error(e)),
        }
    }
}

// ---------------------------------------------------------------------------
// Order
// ---------------------------------------------------------------------------

/// -1, 0 or 1 as `a` is before, equal to or after `b`: by ISO year, month,
/// day, then calendar index.
pub open spec fn date_order(a: PlainDate, b: PlainDate) -> int {
    if a.year != b.year { if a.year < b.year { -1 } else { 1 } }
    else if a.month != b.month { if a.month < b.month { -1 } else { 1 } }
    else if a.day != b.day { if a.day < b.day { -1 } else { 1 } }
    else if a.cal_idx != b.cal_idx { if a.cal_idx < b.cal_idx { -1 } else { 1 } }
    else { 0 }
}

/// Compares two plain dates.
pub fn plain_date_compare(a: PlainDate, b: PlainDate) -> (r: i32)
    ensures r == date_order(a, b),
{
    if a.year != b.year { if a.year < b.year { -1 } else { 1 } }
    else if a.month != b.month { if a.month < b.month { -1 } else { 1 } }
    else if a.day != b.day { if a.day < b.day { -1 } else { 1 } }
    else if a.cal_idx != b.cal_idx { if a.cal_idx < b.cal_idx { -1 } else { 1 } }
    else { 0 }
}

/// `a < b`.
pub fn plain_date_lt(a: PlainDate, b: PlainDate) -> (r: bool)
    ensures r == (date_order(a, b) < 0),
{
    plain_date_compare(a, b) < 0
}

/// `a <= b`.
pub fn plain_date_le(a: PlainDate, b: PlainDate) -> (r: bool)
    ensures r == (date_order(a, b) <= 0),
{
    plain_date_compare(a, b) <= 0
}

/// `a = b`.
pub fn plain_date_eq(a: PlainDate, b: PlainDate) -> (r: bool)
    ensures r == (date_order(a, b) == 0),
{
    plain_date_compare(a, b) == 0
}

/// `a <> b`.
pub fn plain_date_ne(a: PlainDate, b: PlainDate) -> (r: bool)
    ensures r == (date_order(a, b) != 0),
{
    plain_date_compare(a, b) != 0
}

/// `a >= b`.
pub fn plain_date_ge(a: PlainDate, b: PlainDate) -> (r: bool)
    ensures r == (date_order(a, b) >= 0),
{
    plain_date_compare(a, b) >= 0
}

/// `a > b`.
pub fn plain_date_gt(a: PlainDate, b: PlainDate) -> (r: bool)
    ensures r == (date_order(a, b) > 0),
{
    plain_date_compare(a, b) > 0
}

/// The order of plain dates is a total order: it is zero exactly on equal
/// values, flips with its arguments, and is transitive.
pub proof fn lemma_date_order(a: PlainDate, b: PlainDate, c: PlainDate)
    ensures
        date_order(a, b) == 0 <==> a == b,
        date_order(a, b) == -date_order(b, a),
        date_order(a, b) < 0 && date_order(b, c) < 0 ==> date_order(a, c) < 0,
{
}

/// Plain dates are ordered as their ISO dates fall in time: a date with an
/// earlier year, or the same year and an earlier month, or the same year and
/// month and an earlier day, comes first (and the later one after); the
/// calendar only separates values with the same ISO date.
pub proof fn lemma_date_order_chronological(a: PlainDate, b: PlainDate)
    ensures
        a.year < b.year || (a.year == b.year && a.month < b.month)
            || (a.year == b.year && a.month == b.month && a.day < b.day)
            ==> date_order(a, b) < 0 && date_order(b, a) > 0,
        date_order(a, b) < 0 && (a.year != b.year || a.month != b.month || a.day != b.day)
            ==> a.year < b.year || (a.year == b.year && a.month < b.month)
                || (a.year == b.year && a.month == b.month && a.day < b.day),
{
}

// ---------------------------------------------------------------------------
// Arithmetic
// ---------------------------------------------------------------------------

/// What adding `dur` to a stored date gives, if it succeeds: the ISO fields
/// of the sum, with the index of the calendar it was rebuilt with.
pub open spec fn date_plus(pd: PlainDate, dur: Duration) -> Option<PlainDate> {
    if date_loads(pd) && temporal_accepts_duration(dur) {
        match (temporal_date_add(pd.year, pd.month, pd.day, stored_name(pd.cal_idx), dur),
            reloaded_index(stored_name(pd.cal_idx))) {
            (Some(v), Some(i)) => Some(PlainDate { year: v.0, month: v.1, day: v.2, cal_idx: i }),
            _ => None,
        }
    } else {
        None
    }
}

fn rebuilt_index(name: &str) -> (r: Result<u8, Error>)
    requires temporal_calendar_id(name@) is Some,
    ensures
        match reloaded_index(name@) {
            Some(i) => r == Ok::<u8, Error>(i),
            None => r is Err,
        },
{
    calendar_index(name)
}

/// Adds a duration to a plain date; the day of month is constrained to the
/// last valid day (Jan 31 + P1M is the end of February).
pub fn plain_date_add(pd: PlainDate, dur: Duration) -> (r: Result<PlainDate, Error>)
    ensures
        pd.cal_idx >= CALENDAR_COUNT ==> r == Err::<PlainDate, Error>(Error::UnknownCalendarIndex(pd.cal_idx)),
        match date_plus(pd, dur) {
            Some(p) => r == Ok::<PlainDate, Error>(p),
            None => r is Err,
        },
{
    let name = stored_calendar(pd.cal_idx)?;
    match outside_date_add(pd.year, pd.month, pd.day, name, &dur) {
        Ok(v) => {
            let i = rebuilt_index(name)?;
            Ok(PlainDate { year: v.0, month: v.1, day: v.2, cal_idx: i })
        },
        Err(e) => Err(from_temporal_error(e)),
    }
}

/// Subtracts a duration from a plain date, as adding its negation.
pub fn plain_date_subtract(pd: PlainDate, dur: Duration) -> (r: Result<PlainDate, Error>)
    ensures
        pd.cal_idx >= CALENDAR_COUNT ==> r == Err::<PlainDate, Error>(Error::UnknownCalendarIndex(pd.cal_idx)),
        match date_plus(pd, negate(dur)) {
            Some(p) => r == Ok::<PlainDate, Error>(p),
            None => r is Err,
        },
{
    let name = stored_calendar(pd.cal_idx)?;
    match outside_date_subtract(pd.year, pd.month, pd.day, name, &dur) {
        Ok(v) => {
            let i = rebuilt_index(name)?;
            Ok(PlainDate { year: v.0, month: v.1, day: v.2, cal_idx: i })
        },
        Err(e) => Err(from_temporal_error(e)),
    }
}

/// The duration from `pd` to `other` in days, when both dates load.
pub open spec fn date_difference(pd: PlainDate, other: PlainDate) -> Option<Duration> {
    if date_loads(pd) && date_loads(other) {
        temporal_date_until((pd.year, pd.month, pd.day), (other.year, other.month, other.day),
            stored_name(pd.cal_idx), stored_name(other.cal_idx))
    } else {
        None
    }
}

/// The duration from `pd` to `other`, in days.
pub fn plain_date_until(pd: PlainDate, other: PlainDate) -> (r: Result<Duration, Error>)
    ensures
        pd.cal_idx >= CALENDAR_COUNT ==> r == Err::<Duration, Error>(Error::UnknownCalendarIndex(pd.cal_idx)),
        pd.cal_idx < CALENDAR_COUNT && other.cal_idx >= CALENDAR_COUNT
            ==> r == Err::<Duration, Error>(Error::UnknownCalendarIndex(other.cal_idx)),
        match date_difference(pd, other) {
            Some(d) => r == Ok::<Duration, Error>(d),
            None => r is Err,
        },
{
    let a = stored_calendar(pd.cal_idx)?;
    let b = stored_calendar(other.cal_idx)?;
    match outside_date_until((pd.year, pd.month, pd.day), (other.year, other.month, other.day), a, b) {
        Ok(d) => Ok(d),
        Err(e) => Err(from_temporal_error(e)),
    }
}

/// The duration elapsed from `other` to `pd`, in days: the negation of
/// `pd` until `other`.
pub fn plain_date_since(pd: PlainDate, other: PlainDate) -> (r: Result<Duration, Error>)
    ensures
        pd.cal_idx >= CALENDAR_COUNT ==> r == Err::<Duration, Error>(Error::UnknownCalendarIndex(pd.cal_idx)),
        pd.cal_idx < CALENDAR_COUNT && other.cal_idx >= CALENDAR_COUNT
            ==> r == Err::<Duration, Error>(Error::UnknownCalendarIndex(other.cal_idx)),
        match date_difference(pd, other) {
            Some(d) => r matches Ok(v) && d == negate(v),
            None => r is Err,
        },
{
    let a = stored_calendar(pd.cal_idx)?;
    let b = stored_calendar(other.cal_idx)?;
    match outside_date_since((pd.year, pd.month, pd.day), (other.year, other.month, other.day), a, b) {
        Ok(d) => Ok(d),
        Err(e) => Err(from_temporal_error(e)),
    }
}

// ---------------------------------------------------------------------------
// PostgreSQL `date`
// ---------------------------------------------------------------------------

/// The plain date, in the ISO 8601 calendar, of a PostgreSQL `date` given by
/// its year, month and day; it must be a valid date whose midnight is in range.
pub fn date_to_plaindate(year: i32, month: u8, day: u8) -> (r: Result<PlainDate, Error>)
    ensures
        accepted_date_time(year as int, month as int, day as int, midnight())
            ==> r == Ok::<PlainDate, Error>(PlainDate { year, month, day, cal_idx: ISO8601_INDEX }),
        !accepted_date_time(year as int, month as int, day as int, midnight()) ==> (r matches Err(e) && e is Temporal),
{
    match outside_iso_date(year, month, day) {
        Ok(v) => match index_of(v.3) {
            Some(i) => {
                proof {
                    reveal_strlit("iso8601");
                    assert(calendar_names()[12] == "iso8601"@);
                    lemma_calendar_names_distinct(i as int, 12);
                }
                Ok(PlainDate { year: v.0, month: v.1, day: v.2, cal_idx: i })
            },
            None => {
                proof {
                    let k: int = 12;
                    assert(calendar_names()[k] == "iso8601"@);
                }
                Err(Error::UnsupportedCalendar)
            },
        },
        Err(e) => Err(from_temporal_error(e)),
    }
}

/// The ISO year, month and day of a plain date, for a PostgreSQL `date`; the
/// calendar is dropped.
pub fn plaindate_to_date(pd: PlainDate) -> (r: (i32, u8, u8))
    ensures r == (pd.year, pd.month, pd.day),
{
    (pd.year, pd.month, pd.day)
}

} // verus!
