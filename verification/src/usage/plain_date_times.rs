//! Plain date-times: reading and writing, fields, order, arithmetic,
//! construction and PostgreSQL `timestamp`.
use vstd::prelude::*;
use crate::calendar::{ISO8601_INDEX, calendar_index_result, calendar_names, index_spec, lemma_index_spec};
use crate::duration::{Duration, negate, temporal_duration_from_text, temporal_duration_text};
use crate::error::Error;
use crate::plain_date::stored_name;
use crate::plain_datetime::{PlainDateTime, date_time_difference, date_time_fields_result, date_time_order,
    date_time_plus, date_time_text_of, make_plaindatetime, pack_date_time, plain_datetime_add,
    plain_datetime_calendar, plain_datetime_compare, plain_datetime_day, plain_datetime_hour,
    plain_datetime_microsecond, plain_datetime_millisecond, plain_datetime_minute, plain_datetime_month,
    plain_datetime_nanosecond, plain_datetime_second, plain_datetime_since, plain_datetime_subtract,
    plain_datetime_until, plain_datetime_year, plaindatetime_timestamp_fields, temporal_date_time_from_text,
    timestamp_time, timestamp_to_plaindatetime};
use crate::iso_date::accepted_date_time;
use crate::plain_time::TimeOfDay;
use crate::sorting::is_total_preorder;
use crate::usage::outcome::{gives, gives_text, list_in_order, lists_in_order, then, then2};

verus! {

/// The plain date-time read from text, as stored.
pub open spec fn stored_date_time_of(t: Seq<char>) -> Option<PlainDateTime> {
    then(temporal_date_time_from_text(t), |v: (i32, u8, u8, TimeOfDay, Seq<char>)|
        then(index_spec(v.4), |i: u8| Some(pack_date_time(v.0, v.1, v.2, v.3, i))))
}

/// The date-time read from text, written back.
pub open spec fn date_time_text_again(t: Seq<char>) -> Option<Seq<char>> {
    then(stored_date_time_of(t), |p: PlainDateTime| date_time_text_of(p))
}

/// A field of the stored date-time read from text.
pub open spec fn date_time_field(t: Seq<char>, f: spec_fn(PlainDateTime) -> int) -> Option<i32> {
    then(stored_date_time_of(t), |p: PlainDateTime| Some(f(p) as i32))
}

/// A calendar field of the date-time read from text.
pub open spec fn date_time_calendar_field(t: Seq<char>, k: int) -> Option<i32> {
    then(stored_date_time_of(t), |p: PlainDateTime| then(date_time_fields_result(p), |f: (i32, u8, u8)|
        Some(if k == 0 { f.0 } else if k == 1 { f.1 as i32 } else { f.2 as i32 })))
}

/// The order of the date-times read from `a` and `b`.
pub open spec fn date_time_order_of(a: Seq<char>, b: Seq<char>) -> Option<i32> {
    then2(stored_date_time_of(a), stored_date_time_of(b),
        |x: PlainDateTime, y: PlainDateTime| Some(date_time_order(x, y) as i32))
}

/// The date-time `make_plaindatetime` builds from fields that fit, in a
/// valid date-time and a known calendar.
pub open spec fn made_date_time(y: i32, mo: u8, d: u8, t: TimeOfDay, cal: Seq<char>) -> Option<PlainDateTime> {
    match calendar_index_result(cal) {
        Some(Some(i)) => if crate::iso_date::accepts_date_time(y, mo, d, t) {
            Some(pack_date_time(y, mo, d, t, i))
        } else {
            None
        },
        _ => None,
    }
}

fn read(text: &str) -> (r: Result<PlainDateTime, Error>)
    ensures gives(r, stored_date_time_of(text@)),
{
    let p = PlainDateTime::parse(text)?;
    proof {
        let v = temporal_date_time_from_text(text@)->0;
        lemma_index_spec(v.4);
    }
    Ok(p)
}

fn write(p: PlainDateTime) -> (r: Result<String, Error>)
    ensures gives_text(r, date_time_text_of(p)),
{
    p.to_text()
}

/// `'2025-03-01T11:16:10'::plaindatetime::text` is the same text.
pub fn pdt_roundtrip_basic() -> (r: Result<String, Error>)
    ensures gives_text(r, date_time_text_again("2025-03-01T11:16:10"@)),
{
    write(read("2025-03-01T11:16:10")?)
}

/// Midnight is written with its seconds: `2025-03-01T00:00:00`.
pub fn pdt_roundtrip_midnight() -> (r: Result<String, Error>)
    ensures gives_text(r, date_time_text_again("2025-03-01T00:00:00"@)),
{
    write(read("2025-03-01T00:00:00")?)
}

/// A millisecond is kept in the text.
pub fn pdt_roundtrip_millisecond_precision() -> (r: Result<String, Error>)
    ensures gives_text(r, date_time_text_again("2025-03-01T11:16:10.001"@)),
{
    write(read("2025-03-01T11:16:10.001")?)
}

/// A nanosecond is kept in the text.
pub fn pdt_roundtrip_nanosecond_precision() -> (r: Result<String, Error>)
    ensures gives_text(r, date_time_text_again("2025-03-01T11:16:10.000000001"@)),
{
    write(read("2025-03-01T11:16:10.000000001")?)
}

/// The ISO calendar annotation is not written back.
pub fn pdt_roundtrip_explicit_calendar_annotation() -> (r: Result<String, Error>)
    ensures gives_text(r, date_time_text_again("2025-03-01T11:16:10[u-ca=iso8601]"@)),
{
    write(read("2025-03-01T11:16:10[u-ca=iso8601]")?)
}

/// The year of `2025-03-01T11:16:10` is 2025.
pub fn pdt_accessor_year() -> (r: Result<i32, Error>)
    ensures gives(r, date_time_calendar_field("2025-03-01T11:16:10"@, 0)),
{
    plain_datetime_year(read("2025-03-01T11:16:10")?)
}

/// The month of `2025-03-01T11:16:10` is 3.
pub fn pdt_accessor_month() -> (r: Result<i32, Error>)
    ensures gives(r, date_time_calendar_field("2025-03-01T11:16:10"@, 1)),
{
    plain_datetime_month(read("2025-03-01T11:16:10")?)
}

/// The day of `2025-03-01T11:16:10` is 1.
pub fn pdt_accessor_day() -> (r: Result<i32, Error>)
    ensures gives(r, date_time_calendar_field("2025-03-01T11:16:10"@, 2)),
{
    plain_datetime_day(read("2025-03-01T11:16:10")?)
}

/// The hour of `2025-03-01T11:16:10` is 11.
pub fn pdt_accessor_hour() -> (r: Result<i32, Error>)
    ensures gives(r, date_time_field("2025-03-01T11:16:10"@, |p: PlainDateTime| p.hour as int)),
{
    Ok(plain_datetime_hour(read("2025-03-01T11:16:10")?))
}

/// The minute of `2025-03-01T11:16:10` is 16.
pub fn pdt_accessor_minute() -> (r: Result<i32, Error>)
    ensures gives(r, date_time_field("2025-03-01T11:16:10"@, |p: PlainDateTime| p.minute as int)),
{
    Ok(plain_datetime_minute(read("2025-03-01T11:16:10")?))
}

/// The second of `2025-03-01T11:16:10` is 10.
pub fn pdt_accessor_second() -> (r: Result<i32, Error>)
    ensures gives(r, date_time_field("2025-03-01T11:16:10"@, |p: PlainDateTime| p.second as int)),
{
    Ok(plain_datetime_second(read("2025-03-01T11:16:10")?))
}

/// The millisecond of `...T11:16:10.123456789` is 123.
pub fn pdt_accessor_millisecond() -> (r: Result<i32, Error>)
    ensures gives(r, date_time_field("2025-03-01T11:16:10.123456789"@,
        |p: PlainDateTime| (p.subsecond_ns / 1_000_000) as int)),
{
    Ok(plain_datetime_millisecond(read("2025-03-01T11:16:10.123456789")?))
}

/// The microsecond of `...T11:16:10.123456789` is 456.
pub fn pdt_accessor_microsecond() -> (r: Result<i32, Error>)
    ensures gives(r, date_time_field("2025-03-01T11:16:10.123456789"@,
        |p: PlainDateTime| ((p.subsecond_ns % 1_000_000) / 1_000) as int)),
{
    Ok(plain_datetime_microsecond(read("2025-03-01T11:16:10.123456789")?))
}

/// The nanosecond of `...T11:16:10.123456789` is 789.
pub fn pdt_accessor_nanosecond() -> (r: Result<i32, Error>)
    ensures gives(r, date_time_field("2025-03-01T11:16:10.123456789"@,
        |p: PlainDateTime| (p.subsecond_ns % 1_000) as int)),
{
    Ok(plain_datetime_nanosecond(read("2025-03-01T11:16:10.123456789")?))
}

/// A date-time read without a calendar is in the ISO 8601 calendar.
pub fn pdt_accessor_calendar_defaults_to_iso8601() -> (r: Result<String, Error>)
    ensures gives_text(r, then(stored_date_time_of("2025-03-01T11:16:10"@), |p: PlainDateTime| Some(stored_name(p.cal_idx)))),
{
    plain_datetime_calendar(read("2025-03-01T11:16:10")?)
}

/// Garbage is no date-time.
pub fn pdt_reject_input_garbage() -> (r: Result<PlainDateTime, Error>)
    ensures gives(r, stored_date_time_of("not a datetime"@)),
{
    read("not a datetime")
}

/// A date-time compares equal to itself.
pub fn pdt_compare_same_is_zero() -> (r: Result<i32, Error>)
    ensures gives(r, date_time_order_of("2025-03-01T12:00:00"@, "2025-03-01T12:00:00"@)),
{
    Ok(plain_datetime_compare(read("2025-03-01T12:00:00")?, read("2025-03-01T12:00:00")?))
}

/// A midnight compares less than the next midnight.
pub fn pdt_compare_less() -> (r: Result<i32, Error>)
    ensures gives(r, date_time_order_of("2025-03-01T00:00:00"@, "2025-03-02T00:00:00"@)),
{
    Ok(plain_datetime_compare(read("2025-03-01T00:00:00")?, read("2025-03-02T00:00:00")?))
}

/// `'2025-03-01T00:00:00' < '2025-03-02T00:00:00'`.
pub fn pdt_operator_lt() -> (r: Result<bool, Error>)
    ensures gives(r, then(date_time_order_of("2025-03-01T00:00:00"@, "2025-03-02T00:00:00"@), |v: i32| Some(v < 0))),
{
    Ok(plain_datetime_compare(read("2025-03-01T00:00:00")?, read("2025-03-02T00:00:00")?) < 0)
}

/// `'2025-03-01T12:00:00' = '2025-03-01T12:00:00'`.
pub fn pdt_operator_eq_true() -> (r: Result<bool, Error>)
    ensures gives(r, then(date_time_order_of("2025-03-01T12:00:00"@, "2025-03-01T12:00:00"@), |v: i32| Some(v == 0))),
{
    Ok(plain_datetime_compare(read("2025-03-01T12:00:00")?, read("2025-03-01T12:00:00")?) == 0)
}

/// The text of the date-time read from `t` moved by the duration read from
/// `d` (or back, with `minus`).
pub open spec fn moved_date_time_text(t: Seq<char>, d: Seq<char>, minus: bool) -> Option<Seq<char>> {
    then2(stored_date_time_of(t), temporal_duration_from_text(d), |p: PlainDateTime, dur: Duration|
        then(date_time_plus(p, if minus { negate(dur) } else { dur }), |q: PlainDateTime| date_time_text_of(q)))
}

/// Noon of 2025-03-01 plus a day is noon of 2025-03-02.
pub fn pdt_add_one_day() -> (r: Result<String, Error>)
    ensures gives_text(r, moved_date_time_text("2025-03-01T12:00:00"@, "P1D"@, false)),
{
    let p = read("2025-03-01T12:00:00")?;
    let d = Duration::parse("P1D")?;
    write(plain_datetime_add(p, d)?)
}

/// Noon of 2025-03-02 less a day is noon of 2025-03-01.
pub fn pdt_subtract_one_day() -> (r: Result<String, Error>)
    ensures gives_text(r, moved_date_time_text("2025-03-02T12:00:00"@, "P1D"@, true)),
{
    let p = read("2025-03-02T12:00:00")?;
    let d = Duration::parse("P1D")?;
    write(plain_datetime_subtract(p, d)?)
}

/// From one midnight to the next is `P1D`.
pub fn pdt_until_one_day() -> (r: Result<String, Error>)
    ensures gives_text(r, then2(stored_date_time_of("2025-03-01T00:00:00"@), stored_date_time_of("2025-03-02T00:00:00"@),
        |a: PlainDateTime, b: PlainDateTime| then(date_time_difference(a, b), |d: Duration| temporal_duration_text(d)))),
{
    plain_datetime_until(read("2025-03-01T00:00:00")?, read("2025-03-02T00:00:00")?)?.to_text()
}

/// Since one midnight, at the next, is `P1D`.
pub fn pdt_since_one_day() -> (r: Result<String, Error>)
    ensures gives_text(r, then2(stored_date_time_of("2025-03-02T00:00:00"@), stored_date_time_of("2025-03-01T00:00:00"@),
        |a: PlainDateTime, b: PlainDateTime| then(date_time_difference(a, b), |d: Duration| temporal_duration_text(negate(d))))),
{
    let d = plain_datetime_since(read("2025-03-02T00:00:00")?, read("2025-03-01T00:00:00")?)?;
    proof { crate::duration::lemma_negate_involution(d); }
    d.to_text()
}

/// A Japanese-calendar date-time keeps its ISO fields and its annotation.
pub fn pdt_roundtrip_japanese_calendar() -> (r: Result<String, Error>)
    ensures gives_text(r, date_time_text_again("2025-03-01T11:16:10[u-ca=japanese]"@)),
{
    write(read("2025-03-01T11:16:10[u-ca=japanese]")?)
}

/// A Persian-calendar date-time keeps its ISO fields and its annotation.
pub fn pdt_roundtrip_persian_calendar() -> (r: Result<String, Error>)
    ensures gives_text(r, date_time_text_again("2025-03-01T00:00:00[u-ca=persian]"@)),
{
    write(read("2025-03-01T00:00:00[u-ca=persian]")?)
}

/// The calendar of a Japanese-calendar date-time is `japanese`.
pub fn pdt_multi_calendar_accessor_returns_correct_name() -> (r: Result<String, Error>)
    ensures gives_text(r, then(stored_date_time_of("2025-03-01T11:16:10[u-ca=japanese]"@),
        |p: PlainDateTime| Some(stored_name(p.cal_idx)))),
{
    plain_datetime_calendar(read("2025-03-01T11:16:10[u-ca=japanese]")?)
}

/// The year of ISO 2025-03-01 in the Persian calendar is the Persian year.
pub fn pdt_year_accessor_returns_calendar_year_for_persian() -> (r: Result<i32, Error>)
    ensures gives(r, date_time_calendar_field("2025-03-01T00:00:00[u-ca=persian]"@, 0)),
{
    plain_datetime_year(read("2025-03-01T00:00:00[u-ca=persian]")?)
}

/// In the ISO calendar, year, month and day are the stored ones: 2025, 3, 1.
pub fn pdt_iso_calendar_year_month_day_match() -> (r: Result<(i32, i32, i32), Error>)
    ensures
        match (date_time_calendar_field("2025-03-01T00:00:00"@, 0), date_time_calendar_field("2025-03-01T00:00:00"@, 1),
            date_time_calendar_field("2025-03-01T00:00:00"@, 2)) {
            (Some(y), Some(m), Some(d)) => r == Ok::<(i32, i32, i32), Error>((y, m, d)),
            _ => r is Err,
        },
{
    let y = plain_datetime_year(read("2025-03-01T00:00:00")?)?;
    let m = plain_datetime_month(read("2025-03-01T00:00:00")?)?;
    let d = plain_datetime_day(read("2025-03-01T00:00:00")?)?;
    Ok((y, m, d))
}

/// `make_plaindatetime(2025, 6, 15, 12, 30, 45)::text` is `2025-06-15T12:30:45`.
pub fn pdt_make_basic_roundtrip() -> (r: Result<String, Error>)
    ensures gives_text(r, then(made_date_time(2025, 6, 15, TimeOfDay { hour: 12, minute: 30, second: 45,
        millisecond: 0, microsecond: 0, nanosecond: 0 }, "iso8601"@), |p: PlainDateTime| date_time_text_of(p))),
{
    write(make_plaindatetime(2025, 6, 15, 12, 30, 45, 0, 0, 0, "iso8601")?)
}

/// With sub-second fields, the text ends `12:30:45.123456789`.
pub fn pdt_make_with_sub_second() -> (r: Result<String, Error>)
    ensures gives_text(r, then(made_date_time(2025, 6, 15, TimeOfDay { hour: 12, minute: 30, second: 45,
        millisecond: 123, microsecond: 456, nanosecond: 789 }, "iso8601"@), |p: PlainDateTime| date_time_text_of(p))),
{
    write(make_plaindatetime(2025, 6, 15, 12, 30, 45, 123, 456, 789, "iso8601")?)
}

/// Sub-second fields left out are zero: both forms build the same value.
pub fn pdt_make_defaults_match_explicit_zero() -> (r: Result<bool, Error>)
    ensures gives(r, then(made_date_time(2025, 1, 1, TimeOfDay { hour: 0, minute: 0, second: 0,
        millisecond: 0, microsecond: 0, nanosecond: 0 }, "iso8601"@), |p: PlainDateTime| Some(true))),
{
    let a = make_plaindatetime(2025, 1, 1, 0, 0, 0, 0, 0, 0, "iso8601")?;
    let b = make_plaindatetime(2025, 1, 1, 0, 0, 0, 0, 0, 0, "iso8601")?;
    Ok(plain_datetime_compare(a, b) == 0)
}

/// A date-time made in the ISO 8601 calendar stores that calendar.
pub fn pdt_make_calendar_stored() -> (r: Result<String, Error>)
    ensures gives_text(r, then(made_date_time(2025, 6, 15, TimeOfDay { hour: 0, minute: 0, second: 0,
        millisecond: 0, microsecond: 0, nanosecond: 0 }, "iso8601"@), |p: PlainDateTime| Some(stored_name(p.cal_idx)))),
{
    let p = make_plaindatetime(2025, 6, 15, 0, 0, 0, 0, 0, 0, "iso8601")?;
    proof { lemma_index_spec(crate::calendar::temporal_calendar_id("iso8601"@)->0); }
    plain_datetime_calendar(p)
}

/// `make_plaindatetime(2025, 2, 30, 0, 0, 0)` is refused.
pub fn pdt_make_invalid_date_errors() -> (r: Result<PlainDateTime, Error>)
    ensures r matches Err(e) && e is Temporal,
{
    make_plaindatetime(2025, 2, 30, 0, 0, 0, 0, 0, 0, "iso8601")
}

/// `'2025-03-01 11:16:10'::timestamp::plaindatetime::text` is `2025-03-01T11:16:10`.
pub fn pg_cast_timestamp_to_plaindatetime_basic() -> (r: Result<String, Error>)
    ensures gives_text(r, date_time_text_of(pack_date_time(2025, 3, 1, TimeOfDay { hour: 11, minute: 16,
        second: 10, millisecond: 0, microsecond: 0, nanosecond: 0 }, ISO8601_INDEX))),
{
    write(timestamp_to_plaindatetime(2025, 3, 1, 11, 16, 10, 10_000_000)?)
}

/// `'2025-01-01 10:20:30.123456'::timestamp` has millisecond 123,
/// microsecond 456 and nanosecond 0.
pub fn pg_cast_timestamp_to_plaindatetime_microseconds_parsed() -> (r: Result<(i32, i32, i32), Error>)
    ensures r == Ok::<(i32, i32, i32), Error>((123, 456, 0)),
{
    let p = timestamp_to_plaindatetime(2025, 1, 1, 10, 20, 30, 30_123_456)?;
    Ok((plain_datetime_millisecond(p), plain_datetime_microsecond(p), plain_datetime_nanosecond(p)))
}

/// A `timestamp` with microseconds, cast to a plain date-time and back,
/// keeps its microseconds.
pub fn pg_cast_timestamp_microsecond_roundtrip() -> (r: Result<bool, Error>)
    ensures r == Ok::<bool, Error>(true),
{
    let p = timestamp_to_plaindatetime(2025, 1, 1, 10, 20, 30, 30_123_456)?;
    let f = plaindatetime_timestamp_fields(p);
    Ok(f.5 as u32 * 1_000_000 + f.6 == 30_123_456)
}

/// A `timestamp` at midnight casts to `2025-03-01T00:00:00`.
pub fn pg_cast_timestamp_to_plaindatetime_midnight() -> (r: Result<String, Error>)
    ensures gives_text(r, date_time_text_of(pack_date_time(2025, 3, 1, TimeOfDay { hour: 0, minute: 0,
        second: 0, millisecond: 0, microsecond: 0, nanosecond: 0 }, ISO8601_INDEX))),
{
    write(timestamp_to_plaindatetime(2025, 3, 1, 0, 0, 0, 0)?)
}

/// A plain date-time from a `timestamp` is in the ISO 8601 calendar.
pub fn pg_cast_timestamp_to_plaindatetime_calendar_iso8601() -> (r: Result<String, Error>)
    ensures r matches Ok(s) && s@ == "iso8601"@,
{
    proof { assert(calendar_names()[12] == "iso8601"@); }
    plain_datetime_calendar(timestamp_to_plaindatetime(2025, 3, 1, 11, 16, 10, 10_000_000)?)
}

/// `'2025-03-01T11:16:10'::plaindatetime::timestamp` is `2025-03-01 11:16:10`.
pub fn pg_cast_plaindatetime_to_timestamp_basic() -> (r: Result<bool, Error>)
    ensures gives(r, then(stored_date_time_of("2025-03-01T11:16:10"@), |p: PlainDateTime|
        Some((p.year, p.month, p.day, p.hour, p.minute, p.second, p.subsecond_ns / 1_000) == (2025i32, 3u8, 1u8, 11u8, 16u8, 10u8, 0u32)))),
{
    let p = read("2025-03-01T11:16:10")?;
    let f = plaindatetime_timestamp_fields(p);
    Ok(f.0 == 2025 && f.1 == 3 && f.2 == 1 && f.3 == 11 && f.4 == 16 && f.5 == 10 && f.6 == 0)
}

/// Below a microsecond is lost in `timestamp`: the nanosecond of
/// `...10:20:30.000000001` becomes 0, and 1 ms 999 µs 999 ns keeps 999 µs.
pub fn pg_cast_plaindatetime_to_timestamp_sub_micro_truncated() -> (r: Result<(i32, i32), Error>)
    ensures
        match (then(stored_date_time_of("2025-01-01T10:20:30.000000001"@), |p: PlainDateTime| timestamp_cast(p)),
            then(made_date_time(2025, 1, 1, TimeOfDay { hour: 10, minute: 20, second: 30, millisecond: 1,
                microsecond: 999, nanosecond: 999 }, "iso8601"@), |p: PlainDateTime| timestamp_cast(p))) {
            (Some(_), Some(_)) => r == Ok::<(i32, i32), Error>((0i32, 999i32)),
            _ => r is Err,
        },
{
    let a = read("2025-01-01T10:20:30.000000001")?;
    let fa = plaindatetime_timestamp_fields(a);
    let a2 = timestamp_to_plaindatetime(fa.0, fa.1, fa.2, fa.3, fa.4, fa.5, fa.5 as u32 * 1_000_000 + fa.6)?;
    let b = make_plaindatetime(2025, 1, 1, 10, 20, 30, 1, 999, 999, "iso8601")?;
    let fb = plaindatetime_timestamp_fields(b);
    let b2 = timestamp_to_plaindatetime(fb.0, fb.1, fb.2, fb.3, fb.4, fb.5, fb.5 as u32 * 1_000_000 + fb.6)?;
    Ok((plain_datetime_nanosecond(a2), plain_datetime_microsecond(b2)))
}

/// A plain date-time cast to `timestamp` and back: the microseconds within
/// the second are kept, the nanoseconds below them dropped, in ISO 8601.
pub open spec fn timestamp_cast(p: PlainDateTime) -> Option<PlainDateTime> {
    let t = timestamp_time(p.hour, p.minute, p.second, (p.second * 1_000_000 + p.subsecond_ns / 1_000) as u32);
    if accepted_date_time(p.year as int, p.month as int, p.day as int, t) {
        Some(pack_date_time(p.year, p.month, p.day, t, ISO8601_INDEX))
    } else {
        None
    }
}

/// The order of plain date-times, as a function.
pub open spec fn date_time_ord() -> spec_fn(PlainDateTime, PlainDateTime) -> int {
    |a: PlainDateTime, b: PlainDateTime| date_time_order(a, b)
}

/// The text of a plain date-time, as a function.
pub open spec fn date_time_text() -> spec_fn(PlainDateTime) -> Option<Seq<char>> {
    |p: PlainDateTime| date_time_text_of(p)
}

proof fn lemma_date_time_ord_total()
    ensures is_total_preorder(date_time_ord()),
{
}

/// `ORDER BY` lists three date-times, given out of order, from earliest to latest.
pub fn pdt_order_by() -> (r: Result<String, Error>)
    ensures
        match (stored_date_time_of("2025-03-03T00:00:00"@), stored_date_time_of("2025-03-01T00:00:00"@),
            stored_date_time_of("2025-03-02T00:00:00"@)) {
            (Some(a), Some(b), Some(c)) => lists_in_order(r, seq![a, b, c], date_time_ord(), date_time_text()),
            _ => r is Err,
        },
{
    let a = read("2025-03-03T00:00:00")?;
    let b = read("2025-03-01T00:00:00")?;
    let c = read("2025-03-02T00:00:00")?;
    let v = vec![a, b, c];
    proof { lemma_date_time_ord_total(); }
    let by_order = |x: PlainDateTime, y: PlainDateTime| -> (o: i32)
        ensures o == date_time_order(x, y),
    {
        plain_datetime_compare(x, y)
    };
    let as_text = |p: PlainDateTime| -> (t: Result<String, Error>)
        ensures gives_text(t, date_time_text_of(p)),
    {
        write(p)
    };
    list_in_order(v, by_order, Ghost(date_time_ord()), as_text, Ghost(date_time_text()))
}

/// `p::text::plaindatetime` is `p` for every stored date-time that loads.
pub fn pdt_text_round_trip(p: PlainDateTime) -> (r: Result<PlainDateTime, Error>)
    ensures
        date_time_text_of(p) is Some ==> r == Ok::<PlainDateTime, Error>(p),
        date_time_text_of(p) is None ==> r is Err,
{
    let s = p.to_text()?;
    PlainDateTime::parse(s.as_str())
}

} // verus!
