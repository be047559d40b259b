//! Plain year-months: reading and writing, fields, order, arithmetic and
//! construction.
use vstd::prelude::*;
use crate::calendar::{ISO8601_INDEX, calendar_index_result, lemma_index_spec, temporal_calendar_id};
use crate::duration::{Duration, negate, temporal_duration_from_text, temporal_duration_text};
use crate::error::Error;
use crate::plain_date::stored_name;
use crate::plain_year_month::{PlainYearMonth, accepted_year_month, make_plainyearmonth, plain_year_month_add,
    plain_year_month_calendar, plain_year_month_compare, plain_year_month_month, plain_year_month_since,
    plain_year_month_subtract, plain_year_month_until, plain_year_month_year, stored_year_month,
    temporal_year_month_from_text, temporal_year_month_text, year_month_difference, year_month_fields_result,
    year_month_loads, year_month_order, year_month_plus};
use crate::sorting::is_total_preorder;
use crate::usage::outcome::{gives, gives_text, list_in_order, lists_in_order, then, then2};

verus! {

/// The plain year-month read from text, as stored.
pub open spec fn stored_year_month_of(t: Seq<char>) -> Option<PlainYearMonth> {
    match temporal_year_month_from_text(t) {
        Some(v) => match stored_year_month(v.0, v.1) {
            Ok(p) => Some(p),
            Err(_) => None,
        },
        None => None,
    }
}

/// The text of a stored year-month, when it loads.
pub open spec fn year_month_text_of(p: PlainYearMonth) -> Option<Seq<char>> {
    if year_month_loads(p) { Some(temporal_year_month_text(p.year, p.month, stored_name(p.cal_idx))) } else { None }
}

/// The year-month read from text, written back.
pub open spec fn year_month_text_again(t: Seq<char>) -> Option<Seq<char>> {
    then(stored_year_month_of(t), |p: PlainYearMonth| year_month_text_of(p))
}

/// The order of the year-months read from `a` and `b`.
pub open spec fn year_month_order_of(a: Seq<char>, b: Seq<char>) -> Option<i32> {
    then2(stored_year_month_of(a), stored_year_month_of(b),
        |x: PlainYearMonth, y: PlainYearMonth| Some(year_month_order(x, y) as i32))
}

/// The text of the year-month read from `t` moved by the duration read from
/// `d` (or back, with `minus`).
pub open spec fn moved_year_month_text(t: Seq<char>, d: Seq<char>, minus: bool) -> Option<Seq<char>> {
    then2(stored_year_month_of(t), temporal_duration_from_text(d), |p: PlainYearMonth, dur: Duration|
        match year_month_plus(p, if minus { negate(dur) } else { dur }) {
            Some(Ok(q)) => year_month_text_of(q),
            _ => None,
        })
}

/// The year-month `make_plainyearmonth` builds from a year and a month in `u8`.
pub open spec fn made_year_month(year: i32, month: u8, cal: Seq<char>) -> Option<PlainYearMonth> {
    match calendar_index_result(cal) {
        Some(Some(i)) => if accepted_year_month(year as int, month as int) {
            Some(PlainYearMonth { year, month, cal_idx: i })
        } else {
            None
        },
        _ => None,
    }
}

fn read(text: &str) -> (r: Result<PlainYearMonth, Error>)
    ensures gives(r, stored_year_month_of(text@)),
{
    PlainYearMonth::parse(text)
}

fn write(p: PlainYearMonth) -> (r: Result<String, Error>)
    ensures gives_text(r, year_month_text_of(p)),
{
    p.to_text()
}

fn make(year: i32, month: i32, cal: &str) -> (r: Result<PlainYearMonth, Error>)
    requires 0 <= month <= 255,
    ensures gives(r, made_year_month(year, month as u8, cal@)),
{
    let p = make_plainyearmonth(year, month, cal)?;
    proof { lemma_index_spec(temporal_calendar_id(cal@)->0); }
    Ok(p)
}

/// `'2025-03'::plainyearmonth::text` is `2025-03`.
pub fn pym_roundtrip_basic() -> (r: Result<String, Error>)
    ensures gives_text(r, year_month_text_again("2025-03"@)),
{
    write(read("2025-03")?)
}

/// The ISO calendar annotation is not written back.
pub fn pym_roundtrip_explicit_calendar_annotation() -> (r: Result<String, Error>)
    ensures gives_text(r, year_month_text_again("2025-03[u-ca=iso8601]"@)),
{
    write(read("2025-03[u-ca=iso8601]")?)
}

/// The year of `2025-03` is 2025.
pub fn pym_accessor_year() -> (r: Result<i32, Error>)
    ensures gives(r, then(stored_year_month_of("2025-03"@), |p: PlainYearMonth|
        then(year_month_fields_result(p), |f: (i32, u8)| Some(f.0)))),
{
    plain_year_month_year(read("2025-03")?)
}

/// The month of `2025-03` is 3.
pub fn pym_accessor_month() -> (r: Result<i32, Error>)
    ensures gives(r, then(stored_year_month_of("2025-03"@), |p: PlainYearMonth|
        then(year_month_fields_result(p), |f: (i32, u8)| Some(f.1 as i32)))),
{
    plain_year_month_month(read("2025-03")?)
}

/// A year-month read without a calendar is in the ISO 8601 calendar.
pub fn pym_accessor_calendar_defaults_to_iso8601() -> (r: Result<String, Error>)
    ensures gives_text(r, then(stored_year_month_of("2025-03"@), |p: PlainYearMonth| Some(stored_name(p.cal_idx)))),
{
    plain_year_month_calendar(read("2025-03")?)
}

/// Garbage is no year-month.
pub fn pym_reject_input_garbage() -> (r: Result<PlainYearMonth, Error>)
    ensures gives(r, stored_year_month_of("not-a-year-month"@)),
{
    read("not-a-year-month")
}

/// A year-month compares equal to itself.
pub fn pym_compare_same_is_zero() -> (r: Result<i32, Error>)
    ensures gives(r, year_month_order_of("2025-03"@, "2025-03"@)),
{
    Ok(plain_year_month_compare(read("2025-03")?, read("2025-03")?))
}

/// `2025-01` compares less than `2025-03`.
pub fn pym_compare_less() -> (r: Result<i32, Error>)
    ensures gives(r, year_month_order_of("2025-01"@, "2025-03"@)),
{
    Ok(plain_year_month_compare(read("2025-01")?, read("2025-03")?))
}

/// `2025-03` plus a month is `2025-04`.
pub fn pym_add_one_month() -> (r: Result<String, Error>)
    ensures gives_text(r, moved_year_month_text("2025-03"@, "P1M"@, false)),
{
    let p = read("2025-03")?;
    let d = Duration::parse("P1M")?;
    write(plain_year_month_add(p, d)?)
}

/// `2025-12` plus a month is `2026-01`.
pub fn pym_add_month_rolls_year() -> (r: Result<String, Error>)
    ensures gives_text(r, moved_year_month_text("2025-12"@, "P1M"@, false)),
{
    let p = read("2025-12")?;
    let d = Duration::parse("P1M")?;
    write(plain_year_month_add(p, d)?)
}

/// `2025-03` less a month is `2025-02`.
pub fn pym_subtract_one_month() -> (r: Result<String, Error>)
    ensures gives_text(r, moved_year_month_text("2025-03"@, "P1M"@, true)),
{
    let p = read("2025-03")?;
    let d = Duration::parse("P1M")?;
    write(plain_year_month_subtract(p, d)?)
}

/// From `2025-01` to `2025-04` is `P3M`.
pub fn pym_until_three_months() -> (r: Result<String, Error>)
    ensures gives_text(r, then2(stored_year_month_of("2025-01"@), stored_year_month_of("2025-04"@),
        |a: PlainYearMonth, b: PlainYearMonth| then(year_month_difference(a, b), |d: Duration| temporal_duration_text(d)))),
{
    plain_year_month_until(read("2025-01")?, read("2025-04")?)?.to_text()
}

/// Since `2025-01`, at `2025-04`, is `P3M`.
pub fn pym_since_three_months() -> (r: Result<String, Error>)
    ensures gives_text(r, then2(stored_year_month_of("2025-04"@), stored_year_month_of("2025-01"@),
        |a: PlainYearMonth, b: PlainYearMonth| then(year_month_difference(a, b), |d: Duration| temporal_duration_text(negate(d))))),
{
    let d = plain_year_month_since(read("2025-04")?, read("2025-01")?)?;
    proof { crate::duration::lemma_negate_involution(d); }
    d.to_text()
}

/// `make_plainyearmonth(2025, 6)::text` is `2025-06`.
pub fn pym_make_basic_roundtrip() -> (r: Result<String, Error>)
    ensures gives_text(r, then(made_year_month(2025, 6, "iso8601"@), |p: PlainYearMonth| year_month_text_of(p))),
{
    write(make(2025, 6, "iso8601")?)
}

/// A year-month made in the ISO 8601 calendar stores that calendar.
pub fn pym_make_calendar_stored() -> (r: Result<String, Error>)
    ensures gives_text(r, then(made_year_month(2025, 6, "iso8601"@), |p: PlainYearMonth| Some(stored_name(p.cal_idx)))),
{
    plain_year_month_calendar(make(2025, 6, "iso8601")?)
}

/// `make_plainyearmonth(2025, 13)` is refused.
pub fn pym_make_invalid_month_errors() -> (r: Result<PlainYearMonth, Error>)
    ensures
        match calendar_index_result("iso8601"@) {
            Some(None) => r matches Err(Error::UnsupportedCalendar),
            _ => r matches Err(e) && e is Temporal,
        },
{
    make_plainyearmonth(2025, 13, "iso8601")
}

/// The order of plain year-months, as a function.
pub open spec fn year_month_ord() -> spec_fn(PlainYearMonth, PlainYearMonth) -> int {
    |a: PlainYearMonth, b: PlainYearMonth| year_month_order(a, b)
}

/// The text of a plain year-month, as a function.
pub open spec fn year_month_text() -> spec_fn(PlainYearMonth) -> Option<Seq<char>> {
    |p: PlainYearMonth| year_month_text_of(p)
}

proof fn lemma_year_month_ord_total()
    ensures is_total_preorder(year_month_ord()),
{
}

/// `ORDER BY` lists `2025-03`, `2025-01` and `2025-02` as
/// `2025-01,2025-02,2025-03`.
pub fn pym_order_by() -> (r: Result<String, Error>)
    ensures
        match (stored_year_month_of("2025-03"@), stored_year_month_of("2025-01"@), stored_year_month_of("2025-02"@)) {
            (Some(a), Some(b), Some(c)) => lists_in_order(r, seq![a, b, c], year_month_ord(), year_month_text()),
            _ => r is Err,
        },
{
    let a = read("2025-03")?;
    let b = read("2025-01")?;
    let c = read("2025-02")?;
    let v = vec![a, b, c];
    proof { lemma_year_month_ord_total(); }
    let by_order = |x: PlainYearMonth, y: PlainYearMonth| -> (o: i32)
        ensures o == year_month_order(x, y),
    {
        plain_year_month_compare(x, y)
    };
    let as_text = |p: PlainYearMonth| -> (t: Result<String, Error>)
        ensures gives_text(t, year_month_text_of(p)),
    {
        write(p)
    };
    list_in_order(v, by_order, Ghost(year_month_ord()), as_text, Ghost(year_month_text()))
}

/// `p::text::plainyearmonth` is `p` for every ISO 8601 year-month that
/// loads.
pub fn pym_text_round_trip(p: PlainYearMonth) -> (r: Result<PlainYearMonth, Error>)
    ensures
        year_month_loads(p) && p.cal_idx == ISO8601_INDEX ==> r == Ok::<PlainYearMonth, Error>(p),
        !year_month_loads(p) ==> r is Err,
{
    let s = p.to_text()?;
    PlainYearMonth::parse(s.as_str())
}

} // verus!
