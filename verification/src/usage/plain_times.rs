//! Plain times: reading and writing, fields, order, arithmetic and
//! construction.
use vstd::prelude::*;
use crate::duration::{Duration, balance_time, negate, temporal_accepts_duration, temporal_duration_from_text,
    temporal_duration_text, time_ns};
use crate::error::Error;
use crate::plain_time::{PlainTime, TimeOfDay, lemma_unpack_pack, make_plaintime, pack_time, plaintime_add,
    plaintime_compare, plaintime_hour, plaintime_microsecond, plaintime_millisecond, plaintime_minute,
    plaintime_nanosecond, plaintime_second, plaintime_since, plaintime_subtract, plaintime_until,
    temporal_time_from_text, temporal_time_text, time_after_midnight, time_of_day_ns, time_order, unpack_time,
    valid_time};
use crate::sorting::is_total_preorder;
use crate::usage::outcome::{gives, gives_text, list_in_order, lists_in_order, then, then2};

verus! {

/// The time read from text, written back.
pub open spec fn time_text_again(t: Seq<char>) -> Option<Seq<char>> {
    then(temporal_time_from_text(t), |x: TimeOfDay| temporal_time_text(x))
}

/// A field of the stored time read from text.
pub open spec fn time_field(t: Seq<char>, f: spec_fn(PlainTime) -> int) -> Option<i32> {
    then(temporal_time_from_text(t), |x: TimeOfDay| Some(f(pack_time(x)) as i32))
}

/// The text of the time read from `t` moved by the duration read from `d`
/// (or back, with `minus`), around the clock.
pub open spec fn moved_time_text(t: Seq<char>, d: Seq<char>, minus: bool) -> Option<Seq<char>> {
    then2(temporal_time_from_text(t), temporal_duration_from_text(d), |x: TimeOfDay, dur: Duration|
        temporal_time_text(unpack_time(time_after_midnight(
            if minus { time_of_day_ns(x) - time_ns(dur) } else { time_of_day_ns(x) + time_ns(dur) }))))
}

/// The order of the times read from `a` and `b`.
pub open spec fn time_order_of(a: Seq<char>, b: Seq<char>) -> Option<i32> {
    then2(temporal_time_from_text(a), temporal_time_from_text(b),
        |x: TimeOfDay, y: TimeOfDay| Some(time_order(pack_time(x), pack_time(y)) as i32))
}

fn read(text: &str) -> (r: Result<PlainTime, Error>)
    ensures
        gives(r, then(temporal_time_from_text(text@), |x: TimeOfDay| Some(pack_time(x)))),
        r matches Ok(p) ==> valid_time(unpack_time(p)) && temporal_time_from_text(text@) == Some(unpack_time(p)),
{
    let p = PlainTime::parse(text)?;
    proof {
        let x = temporal_time_from_text(text@)->0;
        lemma_unpack_pack(x);
    }
    Ok(p)
}

fn read_and_write(text: &str) -> (r: Result<String, Error>)
    ensures gives_text(r, time_text_again(text@)),
{
    read(text)?.to_text()
}

/// `'11:16:10'::plaintime::text` is `11:16:10`.
pub fn pt_roundtrip_basic() -> (r: Result<String, Error>)
    ensures gives_text(r, time_text_again("11:16:10"@)),
{
    read_and_write("11:16:10")
}

/// `'00:00:00'::plaintime::text` is `00:00:00`.
pub fn pt_roundtrip_midnight() -> (r: Result<String, Error>)
    ensures gives_text(r, time_text_again("00:00:00"@)),
{
    read_and_write("00:00:00")
}

/// A millisecond is kept in the text.
pub fn pt_roundtrip_millisecond_precision() -> (r: Result<String, Error>)
    ensures gives_text(r, time_text_again("11:16:10.001"@)),
{
    read_and_write("11:16:10.001")
}

/// A nanosecond is kept in the text.
pub fn pt_roundtrip_nanosecond_precision() -> (r: Result<String, Error>)
    ensures gives_text(r, time_text_again("11:16:10.000000001"@)),
{
    read_and_write("11:16:10.000000001")
}

/// The hour of `11:16:10` is 11.
pub fn pt_accessor_hour() -> (r: Result<i32, Error>)
    ensures gives(r, time_field("11:16:10"@, |p: PlainTime| p.hour as int)),
{
    Ok(plaintime_hour(read("11:16:10")?))
}

/// The minute of `11:16:10` is 16.
pub fn pt_accessor_minute() -> (r: Result<i32, Error>)
    ensures gives(r, time_field("11:16:10"@, |p: PlainTime| p.minute as int)),
{
    Ok(plaintime_minute(read("11:16:10")?))
}

/// The second of `11:16:10` is 10.
pub fn pt_accessor_second() -> (r: Result<i32, Error>)
    ensures gives(r, time_field("11:16:10"@, |p: PlainTime| p.second as int)),
{
    Ok(plaintime_second(read("11:16:10")?))
}

/// The millisecond of `11:16:10.123456789` is 123.
pub fn pt_accessor_millisecond() -> (r: Result<i32, Error>)
    ensures gives(r, time_field("11:16:10.123456789"@, |p: PlainTime| (p.subsecond_ns / 1_000_000) as int)),
{
    Ok(plaintime_millisecond(read("11:16:10.123456789")?))
}

/// The microsecond of `11:16:10.123456789` is 456.
pub fn pt_accessor_microsecond() -> (r: Result<i32, Error>)
    ensures gives(r, time_field("11:16:10.123456789"@, |p: PlainTime| ((p.subsecond_ns % 1_000_000) / 1_000) as int)),
{
    Ok(plaintime_microsecond(read("11:16:10.123456789")?))
}

/// The nanosecond of `11:16:10.123456789` is 789.
pub fn pt_accessor_nanosecond() -> (r: Result<i32, Error>)
    ensures gives(r, time_field("11:16:10.123456789"@, |p: PlainTime| (p.subsecond_ns % 1_000) as int)),
{
    Ok(plaintime_nanosecond(read("11:16:10.123456789")?))
}

/// Garbage is no time.
pub fn pt_reject_input_garbage() -> (r: Result<PlainTime, Error>)
    ensures gives(r, then(temporal_time_from_text("not a time"@), |x: TimeOfDay| Some(pack_time(x)))),
{
    read("not a time")
}

/// A time compares equal to itself.
pub fn pt_compare_same_is_zero() -> (r: Result<i32, Error>)
    ensures gives(r, time_order_of("12:00:00"@, "12:00:00"@)),
{
    Ok(plaintime_compare(read("12:00:00")?, read("12:00:00")?))
}

/// Midnight compares less than one o'clock.
pub fn pt_compare_less() -> (r: Result<i32, Error>)
    ensures gives(r, time_order_of("00:00:00"@, "01:00:00"@)),
{
    Ok(plaintime_compare(read("00:00:00")?, read("01:00:00")?))
}

/// `'08:00:00' < '09:00:00'`.
pub fn pt_operator_lt() -> (r: Result<bool, Error>)
    ensures gives(r, then(time_order_of("08:00:00"@, "09:00:00"@), |v: i32| Some(v < 0))),
{
    Ok(plaintime_compare(read("08:00:00")?, read("09:00:00")?) < 0)
}

/// `'12:30:00' = '12:30:00'`.
pub fn pt_operator_eq_true() -> (r: Result<bool, Error>)
    ensures gives(r, then(time_order_of("12:30:00"@, "12:30:00"@), |v: i32| Some(v == 0))),
{
    Ok(plaintime_compare(read("12:30:00")?, read("12:30:00")?) == 0)
}

fn moved(text: &str, dur: &str, minus: bool) -> (r: Result<String, Error>)
    ensures gives_text(r, moved_time_text(text@, dur@, minus)),
{
    let t = read(text)?;
    let d = Duration::parse(dur)?;
    let p = if minus { plaintime_subtract(t, d)? } else { plaintime_add(t, d)? };
    proof {
        let n = if minus { time_of_day_ns(unpack_time(t)) - time_ns(d) } else { time_of_day_ns(unpack_time(t)) + time_ns(d) };
        crate::plain_time::lemma_time_of_day_at(n % (crate::plain_time::NS_PER_DAY as int));
        lemma_unpack_pack(crate::plain_time::time_of_day_at(n % (crate::plain_time::NS_PER_DAY as int)));
    }
    p.to_text()
}

/// Noon plus an hour is `13:00:00`.
pub fn pt_add_one_hour() -> (r: Result<String, Error>)
    ensures gives_text(r, moved_time_text("12:00:00"@, "PT1H"@, false)),
{
    moved("12:00:00", "PT1H", false)
}

/// One o'clock less an hour is noon.
pub fn pt_subtract_one_hour() -> (r: Result<String, Error>)
    ensures gives_text(r, moved_time_text("13:00:00"@, "PT1H"@, true)),
{
    moved("13:00:00", "PT1H", true)
}

/// Eleven at night plus two hours wraps to `01:00:00`.
pub fn pt_add_wraps_midnight() -> (r: Result<String, Error>)
    ensures gives_text(r, moved_time_text("23:00:00"@, "PT2H"@, false)),
{
    moved("23:00:00", "PT2H", false)
}

/// From ten to twelve is `PT2H`.
pub fn pt_until_two_hours() -> (r: Result<String, Error>)
    ensures gives_text(r, then2(temporal_time_from_text("10:00:00"@), temporal_time_from_text("12:00:00"@),
        |a: TimeOfDay, b: TimeOfDay| temporal_duration_text(balance_time(time_of_day_ns(b) - time_of_day_ns(a), 5)))),
{
    let a = read("10:00:00")?;
    let b = read("12:00:00")?;
    plaintime_until(a, b)?.to_text()
}

/// Since ten, at twelve, is `PT2H`.
pub fn pt_since_two_hours() -> (r: Result<String, Error>)
    ensures gives_text(r, then2(temporal_time_from_text("12:00:00"@), temporal_time_from_text("10:00:00"@),
        |a: TimeOfDay, b: TimeOfDay| temporal_duration_text(negate(balance_time(time_of_day_ns(b) - time_of_day_ns(a), 5))))),
{
    let a = read("12:00:00")?;
    let b = read("10:00:00")?;
    plaintime_since(a, b)?.to_text()
}

/// `make_plaintime(12, 30, 45)::text` is `12:30:45`.
pub fn pt_make_basic_roundtrip() -> (r: Result<String, Error>)
    ensures gives_text(r, temporal_time_text(TimeOfDay { hour: 12, minute: 30, second: 45, millisecond: 0,
        microsecond: 0, nanosecond: 0 })),
{
    let p = make_plaintime(12, 30, 45, 0, 0, 0)?;
    proof { lemma_unpack_pack(TimeOfDay { hour: 12, minute: 30, second: 45, millisecond: 0, microsecond: 0, nanosecond: 0 }); }
    p.to_text()
}

/// `make_plaintime(12, 30, 45, 123, 456, 789)::text` is `12:30:45.123456789`.
pub fn pt_make_with_sub_second() -> (r: Result<String, Error>)
    ensures gives_text(r, temporal_time_text(TimeOfDay { hour: 12, minute: 30, second: 45, millisecond: 123,
        microsecond: 456, nanosecond: 789 })),
{
    let p = make_plaintime(12, 30, 45, 123, 456, 789)?;
    proof { lemma_unpack_pack(TimeOfDay { hour: 12, minute: 30, second: 45, millisecond: 123, microsecond: 456, nanosecond: 789 }); }
    p.to_text()
}

/// `make_plaintime(25, 0, 0)` is refused: there is no hour 25.
pub fn pt_make_invalid_hour_errors() -> (r: Result<PlainTime, Error>)
    ensures r matches Err(e) && e is Temporal,
{
    make_plaintime(25, 0, 0, 0, 0, 0)
}

/// The order of plain times, as a function.
pub open spec fn time_ord() -> spec_fn(PlainTime, PlainTime) -> int {
    |a: PlainTime, b: PlainTime| time_order(a, b)
}

/// The text of a plain time, as a function.
pub open spec fn time_text() -> spec_fn(PlainTime) -> Option<Seq<char>> {
    |p: PlainTime| temporal_time_text(unpack_time(p))
}

proof fn lemma_time_ord_total()
    ensures is_total_preorder(time_ord()),
{
}

/// `ORDER BY` lists `14:00:00`, `08:00:00` and `12:00:00` as
/// `08:00:00,12:00:00,14:00:00`.
pub fn pt_order_by() -> (r: Result<String, Error>)
    ensures
        match (temporal_time_from_text("14:00:00"@), temporal_time_from_text("08:00:00"@),
            temporal_time_from_text("12:00:00"@)) {
            (Some(a), Some(b), Some(c)) => lists_in_order(r, seq![pack_time(a), pack_time(b), pack_time(c)],
                time_ord(), time_text()),
            _ => r is Err,
        },
{
    let a = read("14:00:00")?;
    let b = read("08:00:00")?;
    let c = read("12:00:00")?;
    let v = vec![a, b, c];
    proof { lemma_time_ord_total(); }
    let by_order = |x: PlainTime, y: PlainTime| -> (o: i32)
        ensures o == time_order(x, y),
    {
        plaintime_compare(x, y)
    };
    let as_text = |p: PlainTime| -> (t: Result<String, Error>)
        ensures gives_text(t, temporal_time_text(unpack_time(p))),
    {
        p.to_text()
    };
    list_in_order(v, by_order, Ghost(time_ord()), as_text, Ghost(time_text()))
}

/// `t::text::plaintime` is `t` for every valid stored time.
pub fn pt_text_round_trip(t: PlainTime) -> (r: Result<PlainTime, Error>)
    ensures
        r is Ok <==> valid_time(unpack_time(t)),
        r matches Ok(u) ==> u == t,
{
    let s = t.to_text()?;
    PlainTime::parse(s.as_str())
}

} // verus!
