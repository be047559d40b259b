//! `PlainMonthDay`: a month and day with no year (a birthday, a holiday),
//! stored as ISO fields with a reference ISO year and a calendar index.
use vstd::prelude::*;
use temporal_rs::{Calendar, PlainMonthDay as TemporalPmd};
use temporal_rs::options::{DisplayCalendar, Overflow};
use crate::calendar::{CALENDAR_COUNT, ISO8601_INDEX, lemma_index_spec_of_stored, calendar_names, calendar_index, calendar_index_result, calendar_name,
    index_of, index_spec, lemma_calendar_names_distinct, temporal_calendar_id};
use crate::error::{Error, Field, from_temporal_error};
use crate::iso_date::accepted_date;
use crate::plain_date::{PlainDate, calendar_loads, date_fields_result, field_u8, plain_date_day, plain_date_month,
    stored_calendar, stored_name};

verus! {

/// A plain month-day as stored: the reference ISO year, ISO month and day,
/// and the calendar index.
#[derive(Clone, Copy, Debug, PartialEq, Eq, Structural)]
pub struct PlainMonthDay {
    pub iso_year: i32,
    pub month: u8,
    pub day: u8,
    pub cal_idx: u8,
}

/// The reference year used when none is given: 1972, the first leap year
/// after the epoch, so that February 29 exists.
pub const REFERENCE_YEAR: i32 = 1972;

/// Whether a stored month-day can be rebuilt as a `temporal_rs` month-day.
pub open spec fn month_day_loads(p: PlainMonthDay) -> bool {
    calendar_loads(p.cal_idx) && accepted_date(p.iso_year as int, p.month as int, p.day as int)
}

/// The reference year given, or 1972.
pub open spec fn year_or_reference(y: Option<i32>) -> i32 {
    match y { Some(v) => v, None => REFERENCE_YEAR }
}

// ---------------------------------------------------------------------------
// Calls into temporal_rs
// ---------------------------------------------------------------------------

/// The ISO fields and calendar identifier of the month-day `temporal_rs`
/// reads from text, if it reads one.
pub uninterp spec fn temporal_month_day_from_text(text: Seq<char>) -> Option<(i32, u8, u8, Seq<char>)>;

/// The text `temporal_rs` writes for a stored month-day in the named calendar.
pub uninterp spec fn temporal_month_day_text(y: i32, m: u8, d: u8, cal: Seq<char>) -> Seq<char>;

/// Builds a month-day from its month and day.
///
/// Calls `temporal_rs::PlainMonthDay::new_with_overflow` with `Reject` and
/// reads its ISO fields. Claimed, from its source: the reference year is the
/// one given, 1972 by default; it succeeds exactly when the reference year,
/// month and day form an accepted ISO date, which is then the result. The
/// calendar plays no part in this check.
#[verifier::external_body]
fn outside_month_day_new(m: u8, d: u8, ref_year: Option<i32>) -> (r: Result<(i32, u8, u8), temporal_rs::TemporalError>)
    ensures
        r is Ok == accepted_date(year_or_reference(ref_year) as int, m as int, d as int),
        r matches Ok(v) ==> v == (year_or_reference(ref_year), m, d),
{
    let p = TemporalPmd::new_with_overflow(m, d, Calendar::default(), Overflow::Reject, ref_year)?;
    Ok((p.iso.year, p.iso.month, p.iso.day))
}

/// Reads a month-day from text.
///
/// Calls `temporal_rs::PlainMonthDay::from_utf8`, reads its ISO fields and
/// `Calendar::identifier`. Claimed: the result is `temporal_month_day_from_text`.
#[verifier::external_body]
fn outside_month_day_from_text(text: &str) -> (r: Result<(i32, u8, u8, &'static str), temporal_rs::TemporalError>)
    ensures
        match r {
            Ok(v) => temporal_month_day_from_text(text@) == Some((v.0, v.1, v.2, v.3@)),
            Err(_) => temporal_month_day_from_text(text@) is None,
        },
{
    let p = TemporalPmd::from_utf8(text.as_bytes())?;
    Ok((p.iso.year, p.iso.month, p.iso.day, p.calendar().identifier()))
}

/// Writes a stored month-day as text.
///
/// Calls `temporal_rs::Calendar::try_from_utf8`,
/// `PlainMonthDay::new_with_overflow` (`Reject`, the stored reference year)
/// and `to_ixdtf_string` with `DisplayCalendar::Auto`. Claimed: it succeeds
/// exactly when the calendar loads and the ISO fields are accepted; the text
/// is `temporal_month_day_text`; and in the ISO 8601 calendar, where the text
/// is `MM-DD` and reading it takes 1972 as the reference year, the text of a
/// month-day of 1972 reads back as the same month-day.
#[verifier::external_body]
fn outside_month_day_text(y: i32, m: u8, d: u8, cal: &str) -> (r: Result<String, temporal_rs::TemporalError>)
    ensures
        r is Ok == (temporal_calendar_id(cal@) is Some && accepted_date(y as int, m as int, d as int)),
        r matches Ok(s) ==> s@ == temporal_month_day_text(y, m, d, cal@),
        r matches Ok(s) ==> (cal@ == "iso8601"@ && y == 1972
            ==> temporal_month_day_from_text(s@) == Some((y, m, d, cal@))),
{
    let c = Calendar::try_from_utf8(cal.as_bytes())?;
    let p = TemporalPmd::new_with_overflow(m, d, c, Overflow::Reject, Some(y))?;
    Ok(p.to_ixdtf_string(DisplayCalendar::default()))
}

// ---------------------------------------------------------------------------
// Construction, text and accessors
// ---------------------------------------------------------------------------

/// Builds a plain month-day from a month, a day and a calendar name
/// (`iso8601` by default); the reference year is 1972.
///
/// A month or day outside `u8` is refused with `InvalidField`; then the
/// calendar must be known and have a stored index; then the day must exist
/// in that month of 1972 (February 29 does).
pub fn make_plainmonthday(month: i32, day: i32, cal: &str) -> (r: Result<PlainMonthDay, Error>)
    ensures
        !(0 <= month <= 255) ==> r == Err::<PlainMonthDay, Error>(Error::InvalidField(Field::Month, month)),
        0 <= month <= 255 && !(0 <= day <= 255) ==> r == Err::<PlainMonthDay, Error>(Error::InvalidField(Field::Day, day)),
        0 <= month <= 255 && 0 <= day <= 255 ==> match calendar_index_result(cal@) {
            None => r matches Err(e) && e is Temporal,
            Some(None) => r == Err::<PlainMonthDay, Error>(Error::UnsupportedCalendar),
            Some(Some(i)) => if accepted_date(REFERENCE_YEAR as int, month as int, day as int) {
                r == Ok::<PlainMonthDay, Error>(PlainMonthDay { iso_year: REFERENCE_YEAR, month: month as u8,
                    day: day as u8, cal_idx: i })
            } else {
                r matches Err(e) && e is Temporal
            },
        },
{
    let m = field_u8(month, Field::Month)?;
    let d = field_u8(day, Field::Day)?;
    let cal_idx = calendar_index(cal)?;
    match outside_month_day_new(m, d, None) {
        Ok(v) => Ok(PlainMonthDay { iso_year: v.0, month: v.1, day: v.2, cal_idx }),
        Err(e) => Err(from_temporal_error(e)),
    }
}

/// The date of a month-day's reference year, month and day, in its calendar.
pub open spec fn reference_date(p: PlainMonthDay) -> PlainDate {
    PlainDate { year: p.iso_year, month: p.month, day: p.day, cal_idx: p.cal_idx }
}

/// The calendar fields of a month-day's reference date, when it loads.
pub open spec fn month_day_fields_result(p: PlainMonthDay) -> Option<(i32, u8, u8)> {
    date_fields_result(reference_date(p))
}

/// The month (1-based) in the month-day's calendar: Farvardin 1 (ISO
/// 03-21) in the Persian calendar is month 1.
pub fn plain_month_day_month(p: PlainMonthDay) -> (r: Result<i32, Error>)
    ensures
        p.cal_idx >= CALENDAR_COUNT ==> r == Err::<i32, Error>(Error::UnknownCalendarIndex(p.cal_idx)),
        match month_day_fields_result(p) {
            Some(v) => r == Ok::<i32, Error>(v.1 as i32),
            None => r is Err,
        },
        r is Ok && (p.cal_idx == ISO8601_INDEX || temporal_calendar_id(stored_name(p.cal_idx)) == Some("iso8601"@)) ==> r == Ok::<i32, Error>(p.month as i32),
{
    plain_date_month(PlainDate { year: p.iso_year, month: p.month, day: p.day, cal_idx: p.cal_idx })
}

/// The day of the month in the month-day's calendar.
pub fn plain_month_day_day(p: PlainMonthDay) -> (r: Result<i32, Error>)
    ensures
        p.cal_idx >= CALENDAR_COUNT ==> r == Err::<i32, Error>(Error::UnknownCalendarIndex(p.cal_idx)),
        match month_day_fields_result(p) {
            Some(v) => r == Ok::<i32, Error>(v.2 as i32),
            None => r is Err,
        },
        r is Ok && (p.cal_idx == ISO8601_INDEX || temporal_calendar_id(stored_name(p.cal_idx)) == Some("iso8601"@)) ==> r == Ok::<i32, Error>(p.day as i32),
{
    plain_date_day(PlainDate { year: p.iso_year, month: p.month, day: p.day, cal_idx: p.cal_idx })
}

/// The identifier of the month-day's calendar.
pub fn plain_month_day_calendar(p: PlainMonthDay) -> (r: Result<String, Error>)
    ensures
        p.cal_idx < CALENDAR_COUNT ==> (r matches Ok(s) && s@ == stored_name(p.cal_idx)),
        p.cal_idx >= CALENDAR_COUNT ==> r == Err::<String, Error>(Error::UnknownCalendarIndex(p.cal_idx)),
{
    calendar_name(p.cal_idx)
}

/// Whether the text `s` written for a stored month-day reads back, through
/// `PlainMonthDay::parse`, as that month-day.
pub open spec fn month_day_reads_back(p: PlainMonthDay, s: Seq<char>) -> bool {
    &&& temporal_month_day_from_text(s) == Some((p.iso_year, p.month, p.day, stored_name(p.cal_idx)))
    &&& index_spec(stored_name(p.cal_idx)) == Some(p.cal_idx)
}

impl PlainMonthDay {
    /// Reads a month-day from its text form (`03-01`, `--03-01`, ...).
    pub fn parse(text: &str) -> (r: Result<PlainMonthDay, Error>)
        ensures
            match temporal_month_day_from_text(text@) {
                None => r matches Err(e) && e is Temporal,
                Some(v) => match index_spec(v.3) {
                    None => r == Err::<PlainMonthDay, Error>(Error::UnsupportedCalendar),
                    Some(i) => r == Ok::<PlainMonthDay, Error>(PlainMonthDay { iso_year: v.0, month: v.1,
                        day: v.2, cal_idx: i }),
                },
            },
    {
        match outside_month_day_from_text(text) {
            Ok(v) => match index_of(v.3) {
                Some(i) => {
                    proof {
                        let k = choose|k: int| 0 <= k < CALENDAR_COUNT && calendar_names()[k] == v.3@;
                        lemma_calendar_names_distinct(k, i as int);
                    }
                    Ok(PlainMonthDay { iso_year: v.0, month: v.1, day: v.2, cal_idx: i })
                },
                None => Err(Error::UnsupportedCalendar),
            },
            Err(e) => Err(from_temporal_error(e)),
        }
    }

    /// The text form of the month-day; the calendar is shown unless it is
    /// ISO 8601. The text of an ISO 8601 month-day with the reference year
    /// 1972 (as every one read or made is) reads back as the same month-day.
    pub fn to_text(&self) -> (r: Result<String, Error>)
        ensures
            self.cal_idx >= CALENDAR_COUNT ==> r == Err::<String, Error>(Error::UnknownCalendarIndex(self.cal_idx)),
            r is Ok <==> month_day_loads(*self),
            r matches Ok(s) ==> s@ == temporal_month_day_text(self.iso_year, self.month, self.day,
                stored_name(self.cal_idx)),
            r matches Ok(s) ==> (self.cal_idx == ISO8601_INDEX && self.iso_year == REFERENCE_YEAR
                ==> month_day_reads_back(*self, s@)),
    {
        proof {
            reveal_strlit("iso8601");
            assert(calendar_names()[12] == "iso8601"@);
            lemma_index_spec_of_stored(ISO8601_INDEX);
        }
        let name = stored_calendar(self.cal_idx)?;
        match outside_month_day_text(self.iso_year, self.month, self.day, name) {
            Ok(s) => Ok(s),
            Err(e) => Err(from_temporal_error(e)),
        }
    }
}

// ---------------------------------------------------------------------------
// Order
// ---------------------------------------------------------------------------

/// -1, 0 or 1 as `a` is before, equal to or after `b`: by ISO month, day,
/// calendar index, then ISO reference year.
pub open spec fn month_day_order(a: PlainMonthDay, b: PlainMonthDay) -> int {
    if a.month != b.month { if a.month < b.month { -1 } else { 1 } }
    else if a.day != b.day { if a.day < b.day { -1 } else { 1 } }
    else if a.cal_idx != b.cal_idx { if a.cal_idx < b.cal_idx { -1 } else { 1 } }
    else if a.iso_year != b.iso_year { if a.iso_year < b.iso_year { -1 } else { 1 } }
    else { 0 }
}

/// Compares two plain month-days.
pub fn plain_month_day_compare(a: PlainMonthDay, b: PlainMonthDay) -> (r: i32)
    ensures r == month_day_order(a, b),
{
    if a.month != b.month { if a.month < b.month { -1 } else { 1 } }
    else if a.day != b.day { if a.day < b.day { -1 } else { 1 } }
    else if a.cal_idx != b.cal_idx { if a.cal_idx < b.cal_idx { -1 } else { 1 } }
    else if a.iso_year != b.iso_year { if a.iso_year < b.iso_year { -1 } else { 1 } }
    else { 0 }
}

/// `a < b`.
pub fn plain_month_day_lt(a: PlainMonthDay, b: PlainMonthDay) -> (r: bool)
    ensures r == (month_day_order(a, b) < 0),
{
    plain_month_day_compare(a, b) < 0
}

/// `a <= b`.
pub fn plain_month_day_le(a: PlainMonthDay, b: PlainMonthDay) -> (r: bool)
    ensures r == (month_day_order(a, b) <= 0),
{
    plain_month_day_compare(a, b) <= 0
}

/// `a = b`.
pub fn plain_month_day_eq(a: PlainMonthDay, b: PlainMonthDay) -> (r: bool)
    ensures r == (month_day_order(a, b) == 0),
{
    plain_month_day_compare(a, b) == 0
}

/// `a <> b`.
pub fn plain_month_day_ne(a: PlainMonthDay, b: PlainMonthDay) -> (r: bool)
    ensures r == (month_day_order(a, b) != 0),
{
    plain_month_day_compare(a, b) != 0
}

/// `a >= b`.
pub fn plain_month_day_ge(a: PlainMonthDay, b: PlainMonthDay) -> (r: bool)
    ensures r == (month_day_order(a, b) >= 0),
{
    plain_month_day_compare(a, b) >= 0
}

/// `a > b`.
pub fn plain_month_day_gt(a: PlainMonthDay, b: PlainMonthDay) -> (r: bool)
    ensures r == (month_day_order(a, b) > 0),
{
    plain_month_day_compare(a, b) > 0
}

/// The order of plain month-days is a total order: zero exactly when
/// reference year, month, day and calendar all agree, flipped with its
/// arguments, and transitive.
pub proof fn lemma_month_day_order(a: PlainMonthDay, b: PlainMonthDay, c: PlainMonthDay)
    ensures
        month_day_order(a, b) == 0 <==> a == b,
        month_day_order(a, b) == -month_day_order(b, a),
        month_day_order(a, b) < 0 && month_day_order(b, c) < 0 ==> month_day_order(a, c) < 0,
{
}

/// Plain month-days are ordered as they fall in the ISO year: an earlier
/// month, or the same month and an earlier day, comes first.
pub proof fn lemma_month_day_order_in_year(a: PlainMonthDay, b: PlainMonthDay)
    ensures
        a.month < b.month || (a.month == b.month && a.day < b.day) ==> month_day_order(a, b) < 0,
{
}

} // verus!
