//! Plain month-days: reading and writing, fields, order and construction.
use vstd::prelude::*;
use crate::calendar::{ISO8601_INDEX, calendar_index_result, index_spec, lemma_index_spec, temporal_calendar_id};
use crate::error::Error;
use crate::iso_date::accepted_date;
use crate::plain_date::stored_name;
use crate::plain_month_day::{PlainMonthDay, REFERENCE_YEAR, make_plainmonthday, month_day_loads, month_day_order,
    plain_month_day_calendar, plain_month_day_compare, plain_month_day_day, plain_month_day_eq, plain_month_day_lt,
    plain_month_day_month, month_day_fields_result, temporal_month_day_from_text, temporal_month_day_text};
use crate::sorting::is_total_preorder;
use crate::usage::outcome::{gives, gives_text, list_in_order, lists_in_order, then, then2};

verus! {

/// The plain month-day read from text, as stored.
pub open spec fn stored_month_day_of(t: Seq<char>) -> Option<PlainMonthDay> {
    then(temporal_month_day_from_text(t), |v: (i32, u8, u8, Seq<char>)|
        then(index_spec(v.3), |i: u8| Some(PlainMonthDay { iso_year: v.0, month: v.1, day: v.2, cal_idx: i })))
}

/// The text of a stored month-day, when it loads.
pub open spec fn month_day_text_of(p: PlainMonthDay) -> Option<Seq<char>> {
    if month_day_loads(p) {
        Some(temporal_month_day_text(p.iso_year, p.month, p.day, stored_name(p.cal_idx)))
    } else {
        None
    }
}

/// The month-day read from text, written back.
pub open spec fn month_day_text_again(t: Seq<char>) -> Option<Seq<char>> {
    then(stored_month_day_of(t), |p: PlainMonthDay| month_day_text_of(p))
}

/// The order of the month-days read from `a` and `b`.
pub open spec fn month_day_order_of(a: Seq<char>, b: Seq<char>) -> Option<i32> {
    then2(stored_month_day_of(a), stored_month_day_of(b),
        |x: PlainMonthDay, y: PlainMonthDay| Some(month_day_order(x, y) as i32))
}

/// The month-day `make_plainmonthday` builds from a month and day in `u8`.
pub open spec fn made_month_day(month: u8, day: u8, cal: Seq<char>) -> Option<PlainMonthDay> {
    match calendar_index_result(cal) {
        Some(Some(i)) => if accepted_date(REFERENCE_YEAR as int, month as int, day as int) {
            Some(PlainMonthDay { iso_year: REFERENCE_YEAR, month, day, cal_idx: i })
        } else {
            None
        },
        _ => None,
    }
}

fn read(text: &str) -> (r: Result<PlainMonthDay, Error>)
    ensures gives(r, stored_month_day_of(text@)),
{
    let p = PlainMonthDay::parse(text)?;
    proof {
        let v = temporal_month_day_from_text(text@)->0;
        lemma_index_spec(v.3);
    }
    Ok(p)
}

fn write(p: PlainMonthDay) -> (r: Result<String, Error>)
    ensures gives_text(r, month_day_text_of(p)),
{
    p.to_text()
}

fn make(month: i32, day: i32, cal: &str) -> (r: Result<PlainMonthDay, Error>)
    requires 0 <= month <= 255, 0 <= day <= 255,
    ensures gives(r, made_month_day(month as u8, day as u8, cal@)),
{
    let p = make_plainmonthday(month, day, cal)?;
    proof { lemma_index_spec(temporal_calendar_id(cal@)->0); }
    Ok(p)
}

/// `'06-15'::plainmonthday::text` is `06-15`.
pub fn pmd_roundtrip_basic() -> (r: Result<String, Error>)
    ensures gives_text(r, month_day_text_again("06-15"@)),
{
    write(read("06-15")?)
}

/// The RFC 3339 form `--06-15` is read too, and written as `06-15`.
pub fn pmd_roundtrip_rfc3339_format() -> (r: Result<String, Error>)
    ensures gives_text(r, month_day_text_again("--06-15"@)),
{
    write(read("--06-15")?)
}

/// February 29 is a month-day: `02-29`.
pub fn pmd_roundtrip_feb29() -> (r: Result<String, Error>)
    ensures gives_text(r, month_day_text_again("02-29"@)),
{
    write(read("02-29")?)
}

/// `12-25` reads and writes back unchanged.
pub fn pmd_roundtrip_christmas() -> (r: Result<String, Error>)
    ensures gives_text(r, month_day_text_again("12-25"@)),
{
    write(read("12-25")?)
}

/// The month of `06-15` is 6.
pub fn pmd_accessor_month() -> (r: Result<i32, Error>)
    ensures gives(r, then(stored_month_day_of("06-15"@), |p: PlainMonthDay|
        then(month_day_fields_result(p), |f: (i32, u8, u8)| Some(f.1 as i32)))),
{
    plain_month_day_month(read("06-15")?)
}

/// The day of `06-15` is 15.
pub fn pmd_accessor_day() -> (r: Result<i32, Error>)
    ensures gives(r, then(stored_month_day_of("06-15"@), |p: PlainMonthDay|
        then(month_day_fields_result(p), |f: (i32, u8, u8)| Some(f.2 as i32)))),
{
    plain_month_day_day(read("06-15")?)
}

/// The month of Farvardin 1 (ISO `03-21`) in the Persian calendar is 1.
pub fn pmd_accessor_month_persian() -> (r: Result<i32, Error>)
    ensures gives(r, then(stored_month_day_of("1972-03-21[u-ca=persian]"@), |p: PlainMonthDay|
        then(month_day_fields_result(p), |f: (i32, u8, u8)| Some(f.1 as i32)))),
{
    plain_month_day_month(read("1972-03-21[u-ca=persian]")?)
}

/// A month-day read without a calendar is in the ISO 8601 calendar.
pub fn pmd_accessor_calendar_defaults_to_iso8601() -> (r: Result<String, Error>)
    ensures gives_text(r, then(stored_month_day_of("06-15"@), |p: PlainMonthDay| Some(stored_name(p.cal_idx)))),
{
    plain_month_day_calendar(read("06-15")?)
}

/// Garbage is no month-day.
pub fn pmd_reject_input_garbage() -> (r: Result<PlainMonthDay, Error>)
    ensures gives(r, stored_month_day_of("not a month-day"@)),
{
    read("not a month-day")
}

/// February has no 30th.
pub fn pmd_reject_invalid_date() -> (r: Result<PlainMonthDay, Error>)
    ensures gives(r, stored_month_day_of("02-30"@)),
{
    read("02-30")
}

/// A month-day compares equal to itself.
pub fn pmd_compare_same_is_zero() -> (r: Result<i32, Error>)
    ensures gives(r, month_day_order_of("06-15"@, "06-15"@)),
{
    Ok(plain_month_day_compare(read("06-15")?, read("06-15")?))
}

/// `01-01` compares less than `06-15`.
pub fn pmd_compare_less() -> (r: Result<i32, Error>)
    ensures gives(r, month_day_order_of("01-01"@, "06-15"@)),
{
    Ok(plain_month_day_compare(read("01-01")?, read("06-15")?))
}

/// `'01-01' < '12-25'`.
pub fn pmd_operator_lt() -> (r: Result<bool, Error>)
    ensures gives(r, then(month_day_order_of("01-01"@, "12-25"@), |v: i32| Some(v < 0))),
{
    Ok(plain_month_day_lt(read("01-01")?, read("12-25")?))
}

/// `'12-25' = '12-25'`.
pub fn pmd_operator_eq_true() -> (r: Result<bool, Error>)
    ensures gives(r, then(month_day_order_of("12-25"@, "12-25"@), |v: i32| Some(v == 0))),
{
    Ok(plain_month_day_eq(read("12-25")?, read("12-25")?))
}

/// `make_plainmonthday(6, 15)::text` is `06-15`.
pub fn pmd_make_basic_roundtrip() -> (r: Result<String, Error>)
    ensures gives_text(r, then(made_month_day(6, 15, "iso8601"@), |p: PlainMonthDay| month_day_text_of(p))),
{
    write(make(6, 15, "iso8601")?)
}

/// A month-day made in the ISO 8601 calendar stores that calendar.
pub fn pmd_make_calendar_stored() -> (r: Result<String, Error>)
    ensures gives_text(r, then(made_month_day(6, 15, "iso8601"@), |p: PlainMonthDay| Some(stored_name(p.cal_idx)))),
{
    plain_month_day_calendar(make(6, 15, "iso8601")?)
}

/// `make_plainmonthday(2, 29)` is valid: 1972, the reference year, is a leap year.
pub fn pmd_make_feb29_valid() -> (r: Result<String, Error>)
    ensures gives_text(r, then(made_month_day(2, 29, "iso8601"@), |p: PlainMonthDay| month_day_text_of(p))),
{
    write(make(2, 29, "iso8601")?)
}

/// `make_plainmonthday(2, 30)` is refused.
pub fn pmd_make_invalid_day_errors() -> (r: Result<PlainMonthDay, Error>)
    ensures
        match calendar_index_result("iso8601"@) {
            Some(None) => r matches Err(Error::UnsupportedCalendar),
            _ => r matches Err(e) && e is Temporal,
        },
{
    make_plainmonthday(2, 30, "iso8601")
}

/// The order of month-days, as a function.
pub open spec fn month_day_ord() -> spec_fn(PlainMonthDay, PlainMonthDay) -> int {
    |a: PlainMonthDay, b: PlainMonthDay| month_day_order(a, b)
}

/// The text of a month-day, as a function.
pub open spec fn month_day_text() -> spec_fn(PlainMonthDay) -> Option<Seq<char>> {
    |p: PlainMonthDay| month_day_text_of(p)
}

proof fn lemma_month_day_ord_total()
    ensures is_total_preorder(month_day_ord()),
{
}

/// `ORDER BY` lists `12-25`, `01-01` and `07-04` as `01-01,07-04,12-25`.
pub fn pmd_order_by() -> (r: Result<String, Error>)
    ensures
        match (stored_month_day_of("12-25"@), stored_month_day_of("01-01"@), stored_month_day_of("07-04"@)) {
            (Some(a), Some(b), Some(c)) => lists_in_order(r, seq![a, b, c], month_day_ord(), month_day_text()),
            _ => r is Err,
        },
{
    let a = read("12-25")?;
    let b = read("01-01")?;
    let c = read("07-04")?;
    let v = vec![a, b, c];
    proof { lemma_month_day_ord_total(); }
    let by_order = |x: PlainMonthDay, y: PlainMonthDay| -> (o: i32)
        ensures o == month_day_order(x, y),
    {
        plain_month_day_compare(x, y)
    };
    let as_text = |p: PlainMonthDay| -> (t: Result<String, Error>)
        ensures gives_text(t, month_day_text_of(p)),
    {
        write(p)
    };
    list_in_order(v, by_order, Ghost(month_day_ord()), as_text, Ghost(month_day_text()))
}

/// `p::text::plainmonthday` is `p` for every ISO 8601 month-day that loads
/// with the reference year 1972 (every one read or made).
pub fn pmd_text_round_trip(p: PlainMonthDay) -> (r: Result<PlainMonthDay, Error>)
    ensures
        month_day_loads(p) && p.cal_idx == ISO8601_INDEX && p.iso_year == REFERENCE_YEAR
            ==> r == Ok::<PlainMonthDay, Error>(p),
        !month_day_loads(p) ==> r is Err,
{
    let s = p.to_text()?;
    PlainMonthDay::parse(s.as_str())
}

} // verus!
