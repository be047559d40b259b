//! Instants: reading and writing, epoch nanoseconds, order, arithmetic and
//! PostgreSQL `timestamptz`.
use vstd::prelude::*;
use crate::duration::{Duration, balance_time, negate, temporal_accepts_duration, temporal_duration_from_text,
    temporal_duration_text, time_ns};
use crate::error::Error;
use crate::instant::{Instant, instant_at, lemma_instant_at, PG_EPOCH_UNIX_NS, div_toward_zero, instant_add, instant_compare, instant_eq,
    instant_epoch_ns, instant_in_range, instant_lt, instant_plus, instant_since, instant_subtract,
    instant_to_timestamptz, instant_until, make_instant, order_of, temporal_instant_from_text,
    temporal_instant_text, timestamptz_to_instant};
use crate::text::{decimal_of_int, parse_i128_spec, trim_spec};
use crate::sorting::is_total_preorder;
use crate::usage::outcome::{gives, gives_text, list_in_order, lists_in_order, then, then2};

verus! {

/// The instant read from text, written back.
pub open spec fn instant_text_again(t: Seq<char>) -> Option<Seq<char>> {
    then(temporal_instant_from_text(t), |ns: i128| temporal_instant_text(ns))
}

/// The epoch nanoseconds of the instant read from text, in decimal.
pub open spec fn epoch_text_of(t: Seq<char>) -> Option<Seq<char>> {
    then(temporal_instant_from_text(t), |ns: i128| Some(decimal_of_int(ns as int)))
}

fn read(text: &str) -> (r: Result<Instant, Error>)
    ensures
        match temporal_instant_from_text(text@) {
            Some(ns) => r matches Ok(i) && i@ == ns,
            None => r is Err,
        },
{
    Instant::parse(text)
}

fn read_and_write(text: &str) -> (r: Result<String, Error>)
    ensures gives_text(r, instant_text_again(text@)),
{
    read(text)?.to_text()
}

fn epoch_text(text: &str) -> (r: Result<String, Error>)
    ensures gives_text(r, epoch_text_of(text@)),
{
    Ok(instant_epoch_ns(read(text)?))
}

/// `'1970-01-01T00:00:00Z'::instant::text` is `1970-01-01T00:00:00Z`.
pub fn instant_roundtrip_utc_zero() -> (r: Result<String, Error>)
    ensures gives_text(r, instant_text_again("1970-01-01T00:00:00Z"@)),
{
    read_and_write("1970-01-01T00:00:00Z")
}

/// `'2025-03-01T02:16:10Z'::instant::text` is the same text.
pub fn instant_roundtrip_utc_arbitrary() -> (r: Result<String, Error>)
    ensures gives_text(r, instant_text_again("2025-03-01T02:16:10Z"@)),
{
    read_and_write("2025-03-01T02:16:10Z")
}

/// `'2025-03-01T11:16:10+09:00'::instant::text` is written in UTC,
/// `2025-03-01T02:16:10Z`.
pub fn instant_offset_normalised_to_utc() -> (r: Result<String, Error>)
    ensures gives_text(r, instant_text_again("2025-03-01T11:16:10+09:00"@)),
{
    read_and_write("2025-03-01T11:16:10+09:00")
}

/// A millisecond after the epoch keeps its millisecond in the text.
pub fn instant_roundtrip_millisecond_precision() -> (r: Result<String, Error>)
    ensures gives_text(r, instant_text_again("1970-01-01T00:00:00.001Z"@)),
{
    read_and_write("1970-01-01T00:00:00.001Z")
}

/// A nanosecond after the epoch keeps its nanosecond in the text.
pub fn instant_roundtrip_nanosecond_precision() -> (r: Result<String, Error>)
    ensures gives_text(r, instant_text_again("1970-01-01T00:00:00.000000001Z"@)),
{
    read_and_write("1970-01-01T00:00:00.000000001Z")
}

/// `instant_epoch_ns('1970-01-01T00:00:00Z')` is `0`.
pub fn instant_epoch_ns_unix_epoch_is_zero() -> (r: Result<String, Error>)
    ensures gives_text(r, epoch_text_of("1970-01-01T00:00:00Z"@)),
{
    epoch_text("1970-01-01T00:00:00Z")
}

/// `instant_epoch_ns('2025-03-01T00:00:00Z')` is `1740787200000000000`.
pub fn instant_epoch_ns_known_value() -> (r: Result<String, Error>)
    ensures gives_text(r, epoch_text_of("2025-03-01T00:00:00Z"@)),
{
    epoch_text("2025-03-01T00:00:00Z")
}

/// One instant written with two offsets has one epoch count.
pub fn instant_epoch_ns_same_instant_different_offsets() -> (r: Result<(String, String), Error>)
    ensures
        r matches Ok(v) ==> epoch_text_of("2025-03-01T02:16:10Z"@) == Some(v.0@)
            && epoch_text_of("2025-03-01T11:16:10+09:00"@) == Some(v.1@),
        epoch_text_of("2025-03-01T02:16:10Z"@) is Some && epoch_text_of("2025-03-01T11:16:10+09:00"@) is Some
            ==> r is Ok,
{
    let a = epoch_text("2025-03-01T02:16:10Z")?;
    let b = epoch_text("2025-03-01T11:16:10+09:00")?;
    Ok((a, b))
}

/// Text without an offset is no instant.
pub fn instant_reject_input_missing_offset() -> (r: Result<Instant, Error>)
    ensures
        match temporal_instant_from_text("2025-03-01T11:16:10"@) {
            Some(ns) => r matches Ok(i) && i@ == ns,
            None => r is Err,
        },
{
    read("2025-03-01T11:16:10")
}

/// Garbage is no instant.
pub fn instant_reject_input_garbage() -> (r: Result<Instant, Error>)
    ensures
        match temporal_instant_from_text("not an instant"@) {
            Some(ns) => r matches Ok(i) && i@ == ns,
            None => r is Err,
        },
{
    read("not an instant")
}

/// Comparing an instant with itself gives 0.
pub fn instant_compare_same_is_zero() -> (r: Result<i32, Error>)
    ensures
        gives(r, then(temporal_instant_from_text("1970-01-01T00:00:00Z"@), |ns: i128| Some(0i32))),
{
    let a = read("1970-01-01T00:00:00Z")?;
    let b = read("1970-01-01T00:00:00Z")?;
    Ok(instant_compare(a, b))
}

/// The epoch compares less than an hour later.
pub fn instant_compare_less() -> (r: Result<i32, Error>)
    ensures
        gives(r, then2(temporal_instant_from_text("1970-01-01T00:00:00Z"@),
            temporal_instant_from_text("1970-01-01T01:00:00Z"@), |a: i128, b: i128| Some(order_of(a as int, b as int) as i32))),
{
    let a = read("1970-01-01T00:00:00Z")?;
    let b = read("1970-01-01T01:00:00Z")?;
    Ok(instant_compare(a, b))
}

/// `'1970-01-01T00:00:00Z' < '1970-01-01T01:00:00Z'`.
pub fn instant_operator_lt() -> (r: Result<bool, Error>)
    ensures
        gives(r, then2(temporal_instant_from_text("1970-01-01T00:00:00Z"@),
            temporal_instant_from_text("1970-01-01T01:00:00Z"@), |a: i128, b: i128| Some(a < b))),
{
    let a = read("1970-01-01T00:00:00Z")?;
    let b = read("1970-01-01T01:00:00Z")?;
    Ok(instant_lt(a, b))
}

/// An instant equals itself.
pub fn instant_operator_eq_true() -> (r: Result<bool, Error>)
    ensures gives(r, then(temporal_instant_from_text("2025-03-01T00:00:00Z"@), |ns: i128| Some(true))),
{
    let a = read("2025-03-01T00:00:00Z")?;
    let b = read("2025-03-01T00:00:00Z")?;
    Ok(instant_eq(a, b))
}

/// The text of the instant `t` moved by the duration `d` (or back, with `minus`).
pub open spec fn moved_text(t: Seq<char>, d: Seq<char>, minus: bool) -> Option<Seq<char>> {
    then2(temporal_instant_from_text(t), temporal_duration_from_text(d), |ns: i128, dur: Duration|
        then(instant_plus(ns as int, dur, if minus { -time_ns(dur) } else { time_ns(dur) }),
            |v: i128| temporal_instant_text(v)))
}

/// The epoch plus an hour is `1970-01-01T01:00:00Z`.
pub fn instant_add_one_hour() -> (r: Result<String, Error>)
    ensures gives_text(r, moved_text("1970-01-01T00:00:00Z"@, "PT1H"@, false)),
{
    let i = read("1970-01-01T00:00:00Z")?;
    let d = Duration::parse("PT1H")?;
    instant_add(i, d)?.to_text()
}

/// An hour after the epoch, less an hour, is the epoch.
pub fn instant_subtract_one_hour() -> (r: Result<String, Error>)
    ensures gives_text(r, moved_text("1970-01-01T01:00:00Z"@, "PT1H"@, true)),
{
    let i = read("1970-01-01T01:00:00Z")?;
    let d = Duration::parse("PT1H")?;
    instant_subtract(i, d)?.to_text()
}

/// Two hours apart, in seconds: `PT7200S`.
pub fn instant_until_two_hours() -> (r: Result<String, Error>)
    ensures
        gives_text(r, then2(temporal_instant_from_text("2025-03-01T00:00:00Z"@),
            temporal_instant_from_text("2025-03-01T02:00:00Z"@),
            |a: i128, b: i128| temporal_duration_text(balance_time(b - a, 3)))),
{
    let a = read("2025-03-01T00:00:00Z")?;
    let b = read("2025-03-01T02:00:00Z")?;
    instant_until(a, b).to_text()
}

/// Two hours elapsed, in seconds: `PT7200S`.
pub fn instant_since_two_hours() -> (r: Result<String, Error>)
    ensures
        gives_text(r, then2(temporal_instant_from_text("2025-03-01T02:00:00Z"@),
            temporal_instant_from_text("2025-03-01T00:00:00Z"@),
            |a: i128, b: i128| temporal_duration_text(negate(balance_time(b - a, 3))))),
{
    let a = read("2025-03-01T02:00:00Z")?;
    let b = read("2025-03-01T00:00:00Z")?;
    instant_since(a, b).to_text()
}

// ---------------------------------------------------------------------------
// timestamptz
// ---------------------------------------------------------------------------

/// `'1970-01-01 00:00:00+00'::timestamptz` (microseconds since 2000-01-01)
/// as an instant has epoch nanoseconds `0`.
pub fn pg_cast_timestamptz_to_instant_unix_epoch() -> (r: Result<String, Error>)
    ensures r matches Ok(s) && s@ == decimal_of_int(0),
{
    Ok(instant_epoch_ns(timestamptz_to_instant(-946_684_800_000_000)?))
}

/// `'2000-01-01 00:00:00+00'::timestamptz` as an instant has epoch
/// nanoseconds `946684800000000000`.
pub fn pg_cast_timestamptz_to_instant_pg_epoch() -> (r: Result<String, Error>)
    ensures r matches Ok(s) && s@ == decimal_of_int(946_684_800_000_000_000),
{
    Ok(instant_epoch_ns(timestamptz_to_instant(0)?))
}

/// `'2025-03-01 00:00:00+00'::timestamptz`, cast to an instant and back, is
/// unchanged.
pub fn pg_cast_timestamptz_roundtrip_epoch() -> (r: Result<i64, Error>)
    ensures r == Ok::<i64, Error>(794_102_400_000_000),
{
    Ok(instant_to_timestamptz(timestamptz_to_instant(794_102_400_000_000)?))
}

/// The instant of epoch nanoseconds given as decimal text, cast to
/// `timestamptz` and back: its epoch nanoseconds, in decimal.
pub open spec fn through_timestamptz(t: Seq<char>) -> Option<Seq<char>> {
    match parse_i128_spec(trim_spec(t)) {
        Some(ns) => if instant_in_range(ns as int) {
            Some(decimal_of_int(div_toward_zero(ns - PG_EPOCH_UNIX_NS, 1000) * 1000 + PG_EPOCH_UNIX_NS))
        } else {
            None
        },
        None => None,
    }
}

fn through_pg(text: &str) -> (r: Result<String, Error>)
    ensures gives_text(r, through_timestamptz(text@)),
{
    let i = make_instant(text)?;
    let us = instant_to_timestamptz(i);
    Ok(instant_epoch_ns(timestamptz_to_instant(us)?))
}

/// An instant one microsecond after the PostgreSQL epoch survives the cast
/// to `timestamptz` and back.
pub fn pg_cast_timestamptz_microsecond_roundtrip() -> (r: Result<String, Error>)
    ensures gives_text(r, through_timestamptz("946684800000001000"@)),
{
    through_pg("946684800000001000")
}

/// An instant one nanosecond after the PostgreSQL epoch loses the
/// nanosecond in the cast to `timestamptz`.
pub fn pg_cast_instant_nano_truncated_on_timestamptz_cast() -> (r: Result<String, Error>)
    ensures gives_text(r, through_timestamptz("946684800000000001"@)),
{
    through_pg("946684800000000001")
}

/// `'1960-01-01 00:00:00+00'::timestamptz` is before the Unix epoch: its
/// epoch nanoseconds are negative.
pub fn pg_cast_timestamptz_to_instant_pre_unix_epoch() -> (r: Result<String, Error>)
    ensures r matches Ok(s) && s@ == decimal_of_int(-315_619_200_000_000_000),
{
    Ok(instant_epoch_ns(timestamptz_to_instant(-1_262_304_000_000_000)?))
}

/// `'2025-03-01 12:34:56.789012+00'::timestamptz`, cast to an instant and
/// back, is unchanged.
pub fn pg_cast_timestamptz_with_microseconds_roundtrip() -> (r: Result<i64, Error>)
    ensures r == Ok::<i64, Error>(794_147_696_789_012),
{
    Ok(instant_to_timestamptz(timestamptz_to_instant(794_147_696_789_012)?))
}

/// An instant a nanosecond before the PostgreSQL epoch becomes the epoch
/// itself in `timestamptz`: the remainder is dropped toward zero.
pub fn pg_cast_instant_to_timestamptz_pre_pg_epoch_sub_micro_truncated() -> (r: Result<String, Error>)
    ensures gives_text(r, through_timestamptz("946684799999999999"@)),
{
    through_pg("946684799999999999")
}

/// The order of instants, as a function.
pub open spec fn instant_ord() -> spec_fn(Instant, Instant) -> int {
    |a: Instant, b: Instant| order_of(a@ as int, b@ as int)
}

/// The text of an instant, as a function.
pub open spec fn instant_text() -> spec_fn(Instant) -> Option<Seq<char>> {
    |i: Instant| temporal_instant_text(i@)
}

proof fn lemma_instant_ord_total()
    ensures is_total_preorder(instant_ord()),
{
}

fn read_instant(text: &str) -> (r: Result<Instant, Error>)
    ensures gives(r, then(temporal_instant_from_text(text@), |ns: i128| Some(instant_at(ns)))),
{
    let i = read(text)?;
    proof { lemma_instant_at(i, i@); }
    Ok(i)
}

/// `ORDER BY` lists three instants, given out of order, from earliest to latest.
pub fn instant_order_by() -> (r: Result<String, Error>)
    ensures
        match (temporal_instant_from_text("2025-03-03T00:00:00Z"@), temporal_instant_from_text("2025-03-01T00:00:00Z"@),
            temporal_instant_from_text("2025-03-02T00:00:00Z"@)) {
            (Some(a), Some(b), Some(c)) => lists_in_order(r, seq![instant_at(a), instant_at(b), instant_at(c)],
                instant_ord(), instant_text()),
            _ => r is Err,
        },
{
    let a = read_instant("2025-03-03T00:00:00Z")?;
    let b = read_instant("2025-03-01T00:00:00Z")?;
    let c = read_instant("2025-03-02T00:00:00Z")?;
    let v = vec![a, b, c];
    proof { lemma_instant_ord_total(); }
    let by_order = |x: Instant, y: Instant| -> (o: i32)
        ensures o == order_of(x@ as int, y@ as int),
    {
        instant_compare(x, y)
    };
    let as_text = |i: Instant| -> (t: Result<String, Error>)
        ensures gives_text(t, temporal_instant_text(i@)),
    {
        i.to_text()
    };
    list_in_order(v, by_order, Ghost(instant_ord()), as_text, Ghost(instant_text()))
}

/// `i::text::instant` is `i`: every instant is written, and its text reads
/// back as the same instant.
pub fn instant_text_round_trip(i: Instant) -> (r: Result<Instant, Error>)
    ensures r matches Ok(j) && j@ == i@,
{
    let t = i.to_text()?;
    Instant::parse(t.as_str())
}

} // verus!
