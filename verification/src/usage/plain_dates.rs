//! Plain dates: reading and writing, calendar fields, order, arithmetic,
//! construction and PostgreSQL `date`.
use vstd::prelude::*;
use crate::calendar::{ISO8601_INDEX, calendar_index_result, calendar_names, index_spec, lemma_index_spec};
use crate::duration::{Duration, negate, temporal_duration_from_text, temporal_duration_text};
use crate::error::Error;
use crate::iso_date::{accepted_date, accepted_date_time, midnight};
use crate::plain_date::{PlainDate, date_difference, date_fields_result, date_loads, date_order, date_plus,
    date_to_plaindate, make_plaindate, plain_date_add, plain_date_calendar, plain_date_compare, plain_date_day,
    plain_date_month, plain_date_since, plain_date_subtract, plain_date_until, plain_date_year,
    plaindate_to_date, stored_name, temporal_date_from_text, temporal_date_text};
use crate::sorting::is_total_preorder;
use crate::usage::outcome::{gives, gives_text, list_in_order, lists_in_order, then, then2};

verus! {

/// The plain date read from text, as stored.
pub open spec fn stored_date_of(t: Seq<char>) -> Option<PlainDate> {
    then(temporal_date_from_text(t), |v: (i32, u8, u8, Seq<char>)|
        then(index_spec(v.3), |i: u8| Some(PlainDate { year: v.0, month: v.1, day: v.2, cal_idx: i })))
}

/// The text of a stored date, when it loads.
pub open spec fn date_text_of(p: PlainDate) -> Option<Seq<char>> {
    if date_loads(p) { Some(temporal_date_text(p.year, p.month, p.day, stored_name(p.cal_idx))) } else { None }
}

/// The date read from text, written back.
pub open spec fn date_text_again(t: Seq<char>) -> Option<Seq<char>> {
    then(stored_date_of(t), |p: PlainDate| date_text_of(p))
}

/// The order of the dates read from `a` and `b`.
pub open spec fn date_order_of(a: Seq<char>, b: Seq<char>) -> Option<i32> {
    then2(stored_date_of(a), stored_date_of(b), |x: PlainDate, y: PlainDate| Some(date_order(x, y) as i32))
}

/// The date `make_plaindate` builds from fields that fit their types.
pub open spec fn made_date(year: i32, month: i32, day: i32, cal: Seq<char>) -> Option<PlainDate> {
    match calendar_index_result(cal) {
        Some(Some(i)) => if 0 <= month <= 255 && 0 <= day <= 255 && accepted_date(year as int, month as int, day as int) {
            Some(PlainDate { year, month: month as u8, day: day as u8, cal_idx: i })
        } else {
            None
        },
        _ => None,
    }
}

/// The ISO 8601 plain date of a PostgreSQL `date`.
pub open spec fn iso_date(year: i32, month: u8, day: u8) -> PlainDate {
    PlainDate { year, month, day, cal_idx: ISO8601_INDEX }
}

fn read(text: &str) -> (r: Result<PlainDate, Error>)
    ensures gives(r, stored_date_of(text@)),
{
    let p = PlainDate::parse(text)?;
    proof {
        let v = temporal_date_from_text(text@)->0;
        lemma_index_spec(v.3);
    }
    Ok(p)
}

fn write(p: PlainDate) -> (r: Result<String, Error>)
    ensures gives_text(r, date_text_of(p)),
{
    p.to_text()
}

/// `'2025-03-01'::plaindate::text` is `2025-03-01`.
pub fn pd_roundtrip_basic() -> (r: Result<String, Error>)
    ensures gives_text(r, date_text_again("2025-03-01"@)),
{
    write(read("2025-03-01")?)
}

/// The ISO calendar annotation is not written back.
pub fn pd_roundtrip_explicit_calendar_annotation() -> (r: Result<String, Error>)
    ensures gives_text(r, date_text_again("2025-03-01[u-ca=iso8601]"@)),
{
    write(read("2025-03-01[u-ca=iso8601]")?)
}

/// The year of `2025-03-01` is 2025.
pub fn pd_accessor_year() -> (r: Result<i32, Error>)
    ensures gives(r, then(stored_date_of("2025-03-01"@), |p: PlainDate| then(date_fields_result(p), |f: (i32, u8, u8)| Some(f.0)))),
{
    plain_date_year(read("2025-03-01")?)
}

/// The month of `2025-03-01` is 3.
pub fn pd_accessor_month() -> (r: Result<i32, Error>)
    ensures gives(r, then(stored_date_of("2025-03-01"@), |p: PlainDate| then(date_fields_result(p), |f: (i32, u8, u8)| Some(f.1 as i32)))),
{
    plain_date_month(read("2025-03-01")?)
}

/// The day of `2025-03-01` is 1.
pub fn pd_accessor_day() -> (r: Result<i32, Error>)
    ensures gives(r, then(stored_date_of("2025-03-01"@), |p: PlainDate| then(date_fields_result(p), |f: (i32, u8, u8)| Some(f.2 as i32)))),
{
    plain_date_day(read("2025-03-01")?)
}

/// A date read without a calendar is in the ISO 8601 calendar.
pub fn pd_accessor_calendar_defaults_to_iso8601() -> (r: Result<String, Error>)
    ensures gives_text(r, then(stored_date_of("2025-03-01"@), |p: PlainDate| Some(stored_name(p.cal_idx)))),
{
    plain_date_calendar(read("2025-03-01")?)
}

/// Garbage is no date.
pub fn pd_reject_input_garbage() -> (r: Result<PlainDate, Error>)
    ensures gives(r, stored_date_of("not a date"@)),
{
    read("not a date")
}

/// A date compares equal to itself.
pub fn pd_compare_same_is_zero() -> (r: Result<i32, Error>)
    ensures gives(r, date_order_of("2025-03-01"@, "2025-03-01"@)),
{
    Ok(plain_date_compare(read("2025-03-01")?, read("2025-03-01")?))
}

/// A day compares less than the next.
pub fn pd_compare_less() -> (r: Result<i32, Error>)
    ensures gives(r, date_order_of("2025-03-01"@, "2025-03-02"@)),
{
    Ok(plain_date_compare(read("2025-03-01")?, read("2025-03-02")?))
}

/// `'2025-03-01' < '2025-03-02'`.
pub fn pd_operator_lt() -> (r: Result<bool, Error>)
    ensures gives(r, then(date_order_of("2025-03-01"@, "2025-03-02"@), |v: i32| Some(v < 0))),
{
    Ok(crate::plain_date::plain_date_lt(read("2025-03-01")?, read("2025-03-02")?))
}

/// `'2025-03-01' = '2025-03-01'`.
pub fn pd_operator_eq_true() -> (r: Result<bool, Error>)
    ensures gives(r, then(date_order_of("2025-03-01"@, "2025-03-01"@), |v: i32| Some(v == 0))),
{
    Ok(crate::plain_date::plain_date_eq(read("2025-03-01")?, read("2025-03-01")?))
}

/// The text of the date read from `t` moved by the duration read from `d`
/// (or back, with `minus`).
pub open spec fn moved_date_text(t: Seq<char>, d: Seq<char>, minus: bool) -> Option<Seq<char>> {
    then2(stored_date_of(t), temporal_duration_from_text(d), |p: PlainDate, dur: Duration|
        then(date_plus(p, if minus { negate(dur) } else { dur }), |q: PlainDate| date_text_of(q)))
}

/// `2025-03-01` plus a day is `2025-03-02`.
pub fn pd_add_one_day() -> (r: Result<String, Error>)
    ensures gives_text(r, moved_date_text("2025-03-01"@, "P1D"@, false)),
{
    let p = read("2025-03-01")?;
    let d = Duration::parse("P1D")?;
    write(plain_date_add(p, d)?)
}

/// `2025-03-02` less a day is `2025-03-01`.
pub fn pd_subtract_one_day() -> (r: Result<String, Error>)
    ensures gives_text(r, moved_date_text("2025-03-02"@, "P1D"@, true)),
{
    let p = read("2025-03-02")?;
    let d = Duration::parse("P1D")?;
    write(plain_date_subtract(p, d)?)
}

/// From `2025-03-01` to `2025-03-02` is `P1D`.
pub fn pd_until_one_day() -> (r: Result<String, Error>)
    ensures gives_text(r, then2(stored_date_of("2025-03-01"@), stored_date_of("2025-03-02"@),
        |a: PlainDate, b: PlainDate| then(date_difference(a, b), |d: Duration| temporal_duration_text(d)))),
{
    plain_date_until(read("2025-03-01")?, read("2025-03-02")?)?.to_text()
}

/// Since `2025-03-01`, on `2025-03-02`, is `P1D`.
pub fn pd_since_one_day() -> (r: Result<String, Error>)
    ensures gives_text(r, then2(stored_date_of("2025-03-02"@), stored_date_of("2025-03-01"@),
        |a: PlainDate, b: PlainDate| then(date_difference(a, b), |d: Duration| temporal_duration_text(negate(d))))),
{
    let d = plain_date_since(read("2025-03-02")?, read("2025-03-01")?)?;
    proof { crate::duration::lemma_negate_involution(d); }
    d.to_text()
}

/// A Japanese-calendar date keeps its ISO date and its calendar annotation.
pub fn pd_roundtrip_japanese_calendar() -> (r: Result<String, Error>)
    ensures gives_text(r, date_text_again("2025-03-01[u-ca=japanese]"@)),
{
    write(read("2025-03-01[u-ca=japanese]")?)
}

/// The calendar of a Japanese-calendar date is `japanese`.
pub fn pd_multi_calendar_accessor_returns_correct_name() -> (r: Result<String, Error>)
    ensures gives_text(r, then(stored_date_of("2025-03-01[u-ca=japanese]"@), |p: PlainDate| Some(stored_name(p.cal_idx)))),
{
    plain_date_calendar(read("2025-03-01[u-ca=japanese]")?)
}

/// The year of ISO 2025-03-01 in the Persian calendar is the Persian year
/// (1403).
pub fn pd_year_accessor_returns_calendar_year_for_persian() -> (r: Result<i32, Error>)
    ensures gives(r, then(stored_date_of("2025-03-01[u-ca=persian]"@), |p: PlainDate|
        then(date_fields_result(p), |f: (i32, u8, u8)| Some(f.0)))),
{
    plain_date_year(read("2025-03-01[u-ca=persian]")?)
}

/// `make_plaindate(2025, 6, 15)::text` is `2025-06-15`.
pub fn pd_make_basic_roundtrip() -> (r: Result<String, Error>)
    ensures gives_text(r, then(made_date(2025, 6, 15, "iso8601"@), |p: PlainDate| date_text_of(p))),
{
    write(make_plaindate(2025, 6, 15, "iso8601")?)
}

/// A date made in the ISO 8601 calendar stores that calendar.
pub fn pd_make_calendar_stored() -> (r: Result<String, Error>)
    ensures gives_text(r, then(made_date(2025, 6, 15, "iso8601"@), |p: PlainDate| Some(stored_name(p.cal_idx)))),
{
    let p = make_plaindate(2025, 6, 15, "iso8601")?;
    proof { lemma_index_spec(crate::calendar::temporal_calendar_id("iso8601"@)->0); }
    plain_date_calendar(p)
}

/// `make_plaindate(2025, 2, 30)` is refused: February has no 30th.
pub fn pd_make_invalid_date_errors() -> (r: Result<PlainDate, Error>)
    ensures
        match calendar_index_result("iso8601"@) {
            Some(None) => r matches Err(Error::UnsupportedCalendar),
            _ => r matches Err(e) && e is Temporal,
        },
{
    make_plaindate(2025, 2, 30, "iso8601")
}

/// `'2025-03-01'::date::plaindate::text` is `2025-03-01`.
pub fn pg_cast_date_to_plaindate_basic() -> (r: Result<String, Error>)
    ensures gives_text(r, date_text_of(iso_date(2025, 3, 1))),
{
    write(date_to_plaindate(2025, 3, 1)?)
}

/// A date from a PostgreSQL `date` is in the ISO 8601 calendar.
pub fn pg_cast_date_to_plaindate_calendar_iso8601() -> (r: Result<String, Error>)
    ensures r matches Ok(s) && s@ == "iso8601"@,
{
    proof { assert(calendar_names()[12] == "iso8601"@); }
    plain_date_calendar(date_to_plaindate(2025, 3, 1)?)
}

/// `'2025-03-01'::plaindate::date` is the date 2025-03-01.
pub fn pg_cast_plaindate_to_date_basic() -> (r: Result<bool, Error>)
    ensures gives(r, then(stored_date_of("2025-03-01"@), |p: PlainDate| Some((p.year, p.month, p.day) == (2025i32, 3u8, 1u8)))),
{
    let p = read("2025-03-01")?;
    let (y, m, d) = plaindate_to_date(p);
    Ok(y == 2025 && m == 3 && d == 1)
}

/// A PostgreSQL `date` cast to a plain date and back is unchanged.
pub fn pg_cast_date_roundtrip() -> (r: Result<bool, Error>)
    ensures r == Ok::<bool, Error>(true),
{
    let (y, m, d) = plaindate_to_date(date_to_plaindate(2025, 3, 1)?);
    Ok(y == 2025 && m == 3 && d == 1)
}

/// A date before 1970 casts: `1960-06-15`.
pub fn pg_cast_date_to_plaindate_pre_epoch() -> (r: Result<String, Error>)
    ensures gives_text(r, date_text_of(iso_date(1960, 6, 15))),
{
    write(date_to_plaindate(1960, 6, 15)?)
}

/// The last day of a month casts: `2025-01-31`.
pub fn pg_cast_date_to_plaindate_end_of_month() -> (r: Result<String, Error>)
    ensures gives_text(r, date_text_of(iso_date(2025, 1, 31))),
{
    write(date_to_plaindate(2025, 1, 31)?)
}

/// February 28 of a common year casts: `2023-02-28`.
pub fn pg_cast_date_to_plaindate_feb28_non_leap() -> (r: Result<String, Error>)
    ensures gives_text(r, date_text_of(iso_date(2023, 2, 28))),
{
    write(date_to_plaindate(2023, 2, 28)?)
}

/// February 29 of a leap year casts: `2024-02-29`.
pub fn pg_cast_date_to_plaindate_feb29_leap() -> (r: Result<String, Error>)
    ensures gives_text(r, date_text_of(iso_date(2024, 2, 29))),
{
    write(date_to_plaindate(2024, 2, 29)?)
}

/// The order of plain dates, as a function.
pub open spec fn date_ord() -> spec_fn(PlainDate, PlainDate) -> int {
    |a: PlainDate, b: PlainDate| date_order(a, b)
}

/// The text of a plain date, as a function.
pub open spec fn date_text() -> spec_fn(PlainDate) -> Option<Seq<char>> {
    |p: PlainDate| date_text_of(p)
}

proof fn lemma_date_ord_total()
    ensures is_total_preorder(date_ord()),
{
}

/// `ORDER BY` lists `2025-03-03`, `2025-03-01` and `2025-03-02` as
/// `2025-03-01,2025-03-02,2025-03-03`.
pub fn pd_order_by() -> (r: Result<String, Error>)
    ensures
        match (stored_date_of("2025-03-03"@), stored_date_of("2025-03-01"@), stored_date_of("2025-03-02"@)) {
            (Some(a), Some(b), Some(c)) => lists_in_order(r, seq![a, b, c], date_ord(), date_text()),
            _ => r is Err,
        },
{
    let a = read("2025-03-03")?;
    let b = read("2025-03-01")?;
    let c = read("2025-03-02")?;
    let v = vec![a, b, c];
    proof { lemma_date_ord_total(); }
    let by_order = |x: PlainDate, y: PlainDate| -> (o: i32)
        ensures o == date_order(x, y),
    {
        plain_date_compare(x, y)
    };
    let as_text = |p: PlainDate| -> (t: Result<String, Error>)
        ensures gives_text(t, date_text_of(p)),
    {
        write(p)
    };
    list_in_order(v, by_order, Ghost(date_ord()), as_text, Ghost(date_text()))
}

/// `d::text::plaindate` is `d` for every stored date that loads, but those
/// of the first day of the range (-271821-04-19), whose midnight is before
/// the first instant and which are written but not read.
pub fn pd_text_round_trip(d: PlainDate) -> (r: Result<PlainDate, Error>)
    ensures
        date_loads(d) && accepted_date_time(d.year as int, d.month as int, d.day as int, midnight()) ==> r == Ok::<PlainDate, Error>(d),
        !date_loads(d) ==> r is Err,
{
    let s = d.to_text()?;
    PlainDate::parse(s.as_str())
}

} // verus!
