//! Durations in PostgreSQL's own forms: conversion to and from `interval`,
//! and the binary send / receive format.
use vstd::prelude::*;
use crate::duration::{Duration, check_duration, negate, sign_uniform, temporal_accepts_duration, time_ns};
use crate::error::{Error, IntervalPart};
use crate::instant::div_toward_zero;
use crate::wire::{u64_be, u64_of_be, u128_be, u128_of_be, push_u64_be, push_u128_be, read_u64_be, read_u128_be,
    lemma_u64_round_trip, lemma_u64_bytes_round_trip, lemma_u128_round_trip, lemma_u128_bytes_round_trip};

verus! {

// ---------------------------------------------------------------------------
// interval
// ---------------------------------------------------------------------------

/// The remainder of truncating division, as Rust's `%` on integers: it has
/// the sign of the dividend.
pub open spec fn rem_toward_zero(a: int, b: int) -> int {
    a - div_toward_zero(a, b) * b
}

/// The duration for a PostgreSQL `interval` of `months`, `days` and
/// `micros` microseconds: the microseconds are split into hours, minutes,
/// seconds and microseconds, each truncated toward zero (so every part
/// keeps the sign of `micros`).
pub open spec fn interval_duration(months: i32, days: i32, micros: i64) -> Duration {
    let h = div_toward_zero(micros as int, 3_600_000_000);
    let r1 = rem_toward_zero(micros as int, 3_600_000_000);
    let mi = div_toward_zero(r1, 60_000_000);
    let r2 = rem_toward_zero(r1, 60_000_000);
    let s = div_toward_zero(r2, 1_000_000);
    let us = rem_toward_zero(r2, 1_000_000);
    Duration { years: 0, months: months as i64, weeks: 0, days: days as i64, hours: h as i64,
        minutes: mi as i64, seconds: s as i64, milliseconds: 0, microseconds: us as i128, nanoseconds: 0 }
}

/// The duration of a PostgreSQL `interval` given by its three fields; an
/// interval whose parts have mixed signs is not a valid Temporal duration
/// and is refused.
pub fn interval_to_duration(months: i32, days: i32, micros: i64) -> (r: Result<Duration, Error>)
    ensures
        r is Ok <==> temporal_accepts_duration(interval_duration(months, days, micros)),
        r matches Ok(d) ==> d == interval_duration(months, days, micros),
        r matches Err(e) ==> e is Temporal,
{
    let h: i64 = micros / 3_600_000_000;
    let r1: i64 = micros % 3_600_000_000;
    let mi: i64 = r1 / 60_000_000;
    let r2: i64 = r1 % 60_000_000;
    let s: i64 = r2 / 1_000_000;
    let us: i64 = r2 % 1_000_000;
    let d = Duration { years: 0, months: months as i64, weeks: 0, days: days as i64, hours: h, minutes: mi,
        seconds: s, milliseconds: 0, microseconds: us as i128, nanoseconds: 0 };
    check_duration(&d)?;
    Ok(d)
}

/// What `duration_to_interval` computes for the months of an interval:
/// years * 12 + months, if it fits in an `i32`.
pub open spec fn interval_months(d: Duration) -> Option<i32> {
    let v = d.years * 12 + d.months;
    if i64::MIN <= d.years * 12 <= i64::MAX && i64::MIN <= v <= i64::MAX && i32::MIN <= v <= i32::MAX {
        Some(v as i32)
    } else {
        None
    }
}

/// The days of an interval: weeks * 7 + days, if it fits in an `i32`.
pub open spec fn interval_days(d: Duration) -> Option<i32> {
    let v = d.weeks * 7 + d.days;
    if i64::MIN <= d.weeks * 7 <= i64::MAX && i64::MIN <= v <= i64::MAX && i32::MIN <= v <= i32::MAX {
        Some(v as i32)
    } else {
        None
    }
}

/// Whether a value fits in an `i64`.
pub open spec fn fits_i64(v: int) -> bool {
    i64::MIN <= v <= i64::MAX
}

/// The microseconds of an interval: the time fields in microseconds, the
/// nanoseconds truncated toward zero, if every product and every partial
/// sum (in the order hours, minutes, seconds, milliseconds, microseconds,
/// nanoseconds) fits in an `i64`.
pub open spec fn interval_micros(d: Duration) -> Option<i64> {
    let h = d.hours * 3_600_000_000;
    let m = d.minutes * 60_000_000;
    let s = d.seconds * 1_000_000;
    let ms = d.milliseconds * 1_000;
    let ns = div_toward_zero(d.nanoseconds as int, 1_000);
    if fits_i64(h) && fits_i64(m) && fits_i64(s) && fits_i64(ms) && fits_i64(d.microseconds as int) && fits_i64(ns)
        && fits_i64(h + m) && fits_i64(h + m + s) && fits_i64(h + m + s + ms)
        && fits_i64(h + m + s + ms + d.microseconds) && fits_i64(h + m + s + ms + d.microseconds + ns) {
        Some((h + m + s + ms + d.microseconds + ns) as i64)
    } else {
        None
    }
}

fn checked_micros(d: &Duration) -> (r: Option<i64>)
    ensures r == interval_micros(*d),
{
    let h = d.hours.checked_mul(3_600_000_000)?;
    let m = d.minutes.checked_mul(60_000_000)?;
    let s = d.seconds.checked_mul(1_000_000)?;
    let ms = d.milliseconds.checked_mul(1_000)?;
    if d.microseconds < i64::MIN as i128 || d.microseconds > i64::MAX as i128 {
        return None;
    }
    let us = d.microseconds as i64;
    let q = d.nanoseconds / 1_000;
    assert(q == div_toward_zero(d.nanoseconds as int, 1_000));
    if q < i64::MIN as i128 || q > i64::MAX as i128 {
        return None;
    }
    let ns = q as i64;
    h.checked_add(m)?.checked_add(s)?.checked_add(ms)?.checked_add(us)?.checked_add(ns)
}

/// Truncation toward zero commutes with negation.
proof fn lemma_div_toward_zero_negate(n: int)
    ensures div_toward_zero(-n, 1_000) == -div_toward_zero(n, 1_000),
{
}

/// The microseconds of an `interval` are the duration's time, every field
/// counted with its sign, truncated toward zero to whole microseconds: for a
/// valid (sign-uniform) duration they are its length in nanoseconds divided
/// by a thousand. So `-PT1.5S` gives -1,500,000.
pub proof fn lemma_interval_micros_is_truncated_time(d: Duration)
    requires sign_uniform(d),
    ensures interval_micros(d) matches Some(v) ==> v == div_toward_zero(time_ns(d), 1_000),
{
    let x = d.hours * 3_600_000_000 + d.minutes * 60_000_000 + d.seconds * 1_000_000
        + d.milliseconds * 1_000 + d.microseconds;
    let n = d.nanoseconds as int;
    assert(time_ns(d) == x * 1_000 + n);
    if x >= 0 && n >= 0 {
        vstd::arithmetic::div_mod::lemma_hoist_over_denominator(n, x, 1_000);
    } else if time_ns(d) < 0 {
        assert(x <= 0 && n <= 0);
        vstd::arithmetic::div_mod::lemma_hoist_over_denominator(-n, -x, 1_000);
        assert(-time_ns(d) == -n + (-x) * 1_000);
    } else {
        assert(x == 0 && n == 0);
    }
}

/// The microseconds of an `interval` change sign with the duration: where
/// both a duration and its negation convert, their microseconds are
/// opposite.
pub proof fn lemma_interval_micros_negate(d: Duration)
    ensures
        interval_micros(d) matches Some(v) ==> (interval_micros(negate(d)) matches Some(w) ==> w == -v),
{
    lemma_div_toward_zero_negate(d.nanoseconds as int);
    if interval_micros(d) is Some && interval_micros(negate(d)) is Some {
        let e = negate(d);
        assert(e.hours == -d.hours);
        assert(e.minutes == -d.minutes);
        assert(e.seconds == -d.seconds);
        assert(e.milliseconds == -d.milliseconds);
        assert(e.microseconds == -d.microseconds);
        assert(e.nanoseconds == -d.nanoseconds);
    }
}

/// The three fields of the PostgreSQL `interval` for a duration: months
/// (years * 12 + months), days (weeks * 7 + days) and microseconds (the time
/// fields; nanoseconds below a microsecond are dropped toward zero). A part
/// that does not fit its field is an error naming the part.
pub fn duration_to_interval(d: Duration) -> (r: Result<(i32, i32, i64), Error>)
    ensures
        interval_months(d) is None ==> r == Err::<(i32, i32, i64), Error>(Error::IntervalOutOfRange(IntervalPart::Months)),
        interval_months(d) is Some && interval_days(d) is None
            ==> r == Err::<(i32, i32, i64), Error>(Error::IntervalOutOfRange(IntervalPart::Days)),
        interval_months(d) is Some && interval_days(d) is Some && interval_micros(d) is None
            ==> r == Err::<(i32, i32, i64), Error>(Error::IntervalOutOfRange(IntervalPart::Time)),
        (interval_months(d), interval_days(d), interval_micros(d)) matches (Some(mo), Some(da), Some(us))
            ==> r == Ok::<(i32, i32, i64), Error>((mo, da, us)),
{
    let months: i32 = match d.years.checked_mul(12) {
        Some(y) => match y.checked_add(d.months) {
            Some(m) => if i32::MIN as i64 <= m && m <= i32::MAX as i64 { m as i32 } else {
                return Err(Error::IntervalOutOfRange(IntervalPart::Months));
            },
            None => { return Err(Error::IntervalOutOfRange(IntervalPart::Months)); },
        },
        None => { return Err(Error::IntervalOutOfRange(IntervalPart::Months)); },
    };
    let days: i32 = match d.weeks.checked_mul(7) {
        Some(w) => match w.checked_add(d.days) {
            Some(v) => if i32::MIN as i64 <= v && v <= i32::MAX as i64 { v as i32 } else {
                return Err(Error::IntervalOutOfRange(IntervalPart::Days));
            },
            None => { return Err(Error::IntervalOutOfRange(IntervalPart::Days)); },
        },
        None => { return Err(Error::IntervalOutOfRange(IntervalPart::Days)); },
    };
    let micros = match checked_micros(&d) {
        Some(v) => v,
        None => { return Err(Error::IntervalOutOfRange(IntervalPart::Time)); },
    };
    Ok((months, days, micros))
}

/// Splitting an interval's microseconds and adding the parts back gives them.
proof fn lemma_split_micros(micros: i64)
    ensures ({
        let d = interval_duration(0, 0, micros);
        &&& d.hours * 3_600_000_000 + d.minutes * 60_000_000 + d.seconds * 1_000_000 + d.microseconds == micros
        &&& -2_562_047_789 <= d.hours <= 2_562_047_789
        &&& -60 < d.minutes < 60 && -60 < d.seconds < 60 && -1_000_000 < d.microseconds < 1_000_000
    }),
{
    let x = micros as int;
    let h = div_toward_zero(x, 3_600_000_000);
    let r1 = rem_toward_zero(x, 3_600_000_000);
    let mi = div_toward_zero(r1, 60_000_000);
    let r2 = rem_toward_zero(r1, 60_000_000);
    let s = div_toward_zero(r2, 1_000_000);
    let us = rem_toward_zero(r2, 1_000_000);
    assert(-3_600_000_000 < r1 < 3_600_000_000 && -2_562_047_789 <= h <= 2_562_047_789) by (nonlinear_arith)
        requires
            h == (if x >= 0 { x / 3_600_000_000 } else { -((-x) / 3_600_000_000) }),
            r1 == x - h * 3_600_000_000,
            i64::MIN <= x <= i64::MAX;
    assert(-60 < mi < 60 && -60_000_000 < r2 < 60_000_000) by (nonlinear_arith)
        requires
            mi == (if r1 >= 0 { r1 / 60_000_000 } else { -((-r1) / 60_000_000) }),
            r2 == r1 - mi * 60_000_000,
            -3_600_000_000 < r1 < 3_600_000_000;
    assert(-60 < s < 60 && -1_000_000 < us < 1_000_000) by (nonlinear_arith)
        requires
            s == (if r2 >= 0 { r2 / 1_000_000 } else { -((-r2) / 1_000_000) }),
            us == r2 - s * 1_000_000,
            -60_000_000 < r2 < 60_000_000;
}

/// An interval converted to a duration converts back to the same interval.
pub proof fn lemma_interval_round_trip(months: i32, days: i32, micros: i64)
    ensures
        interval_months(interval_duration(months, days, micros)) == Some(months),
        interval_days(interval_duration(months, days, micros)) == Some(days),
        interval_micros(interval_duration(months, days, micros)) == Some(micros),
{
    lemma_split_micros(micros);
    let d = interval_duration(months, days, micros);
    assert(d.hours == interval_duration(0, 0, micros).hours);
    assert(d.minutes == interval_duration(0, 0, micros).minutes);
    assert(d.seconds == interval_duration(0, 0, micros).seconds);
    assert(d.microseconds == interval_duration(0, 0, micros).microseconds);
    assert(div_toward_zero(0, 1_000) == 0);
}

// ---------------------------------------------------------------------------
// Binary format
// ---------------------------------------------------------------------------

/// The 96 bytes of a duration: the eight `i64` fields then the two `i128`
/// fields, each big-endian two's complement.
pub open spec fn duration_wire(d: Duration) -> Seq<u8> {
    u64_be(d.years as u64) + u64_be(d.months as u64) + u64_be(d.weeks as u64) + u64_be(d.days as u64)
        + u64_be(d.hours as u64) + u64_be(d.minutes as u64) + u64_be(d.seconds as u64)
        + u64_be(d.milliseconds as u64) + u128_be(d.microseconds as u128) + u128_be(d.nanoseconds as u128)
}

/// The `i64` whose big-endian bytes start at `at` in `b`.
pub open spec fn i64_at(b: Seq<u8>, at: int) -> i64 {
    u64_of_be(b.subrange(at, at + 8)) as i64
}

/// The `i128` whose big-endian bytes start at `at` in `b`.
pub open spec fn i128_at(b: Seq<u8>, at: int) -> i128 {
    u128_of_be(b.subrange(at, at + 16)) as i128
}

/// The duration read from the first 96 bytes of `b`.
pub open spec fn duration_of_wire(b: Seq<u8>) -> Duration {
    Duration { years: i64_at(b, 0), months: i64_at(b, 8), weeks: i64_at(b, 16), days: i64_at(b, 24),
        hours: i64_at(b, 32), minutes: i64_at(b, 40), seconds: i64_at(b, 48), milliseconds: i64_at(b, 56),
        microseconds: i128_at(b, 64), nanoseconds: i128_at(b, 80) }
}

/// Writes a duration in the binary format.
pub fn duration_send(val: Duration) -> (r: Vec<u8>)
    ensures r@ == duration_wire(val),
{
    let mut buf: Vec<u8> = Vec::new();
    push_u64_be(&mut buf, val.years as u64);
    push_u64_be(&mut buf, val.months as u64);
    push_u64_be(&mut buf, val.weeks as u64);
    push_u64_be(&mut buf, val.days as u64);
    push_u64_be(&mut buf, val.hours as u64);
    push_u64_be(&mut buf, val.minutes as u64);
    push_u64_be(&mut buf, val.seconds as u64);
    push_u64_be(&mut buf, val.milliseconds as u64);
    push_u128_be(&mut buf, val.microseconds as u128);
    push_u128_be(&mut buf, val.nanoseconds as u128);
    assert(buf@ =~= duration_wire(val));
    buf
}

/// Reads a duration from the binary format; fewer than 96 bytes is an error.
pub fn duration_recv(buf: &[u8]) -> (r: Result<Duration, Error>)
    ensures
        buf@.len() < 96 ==> r == Err::<Duration, Error>(Error::BadBinaryLength),
        buf@.len() >= 96 ==> r == Ok::<Duration, Error>(duration_of_wire(buf@)),
{
    if buf.len() < 96 {
        return Err(Error::BadBinaryLength);
    }
    Ok(Duration {
        years: read_u64_be(buf, 0) as i64,
        months: read_u64_be(buf, 8) as i64,
        weeks: read_u64_be(buf, 16) as i64,
        days: read_u64_be(buf, 24) as i64,
        hours: read_u64_be(buf, 32) as i64,
        minutes: read_u64_be(buf, 40) as i64,
        seconds: read_u64_be(buf, 48) as i64,
        milliseconds: read_u64_be(buf, 56) as i64,
        microseconds: read_u128_be(buf, 64) as i128,
        nanoseconds: read_u128_be(buf, 80) as i128,
    })
}

proof fn lemma_i64_round_trip(x: i64)
    ensures (u64_of_be(u64_be(x as u64)) as i64) == x, u64_be(x as u64).len() == 8,
{
    lemma_u64_round_trip(x as u64);
    assert((x as u64) as i64 == x) by (bit_vector);
}

proof fn lemma_i128_round_trip(x: i128)
    ensures (u128_of_be(u128_be(x as u128)) as i128) == x, u128_be(x as u128).len() == 16,
{
    lemma_u128_round_trip(x as u128);
    assert((x as u128) as i128 == x) by (bit_vector);
}

/// Reading back what `duration_send` wrote gives the same duration.
pub proof fn lemma_duration_wire_round_trip(d: Duration)
    ensures duration_wire(d).len() == 96, duration_of_wire(duration_wire(d)) == d,
{
    lemma_i64_round_trip(d.years);
    lemma_i64_round_trip(d.months);
    lemma_i64_round_trip(d.weeks);
    lemma_i64_round_trip(d.days);
    lemma_i64_round_trip(d.hours);
    lemma_i64_round_trip(d.minutes);
    lemma_i64_round_trip(d.seconds);
    lemma_i64_round_trip(d.milliseconds);
    lemma_i128_round_trip(d.microseconds);
    lemma_i128_round_trip(d.nanoseconds);
    let w = duration_wire(d);
    assert(w.subrange(0, 8) =~= u64_be(d.years as u64));
    assert(w.subrange(8, 16) =~= u64_be(d.months as u64));
    assert(w.subrange(16, 24) =~= u64_be(d.weeks as u64));
    assert(w.subrange(24, 32) =~= u64_be(d.days as u64));
    assert(w.subrange(32, 40) =~= u64_be(d.hours as u64));
    assert(w.subrange(40, 48) =~= u64_be(d.minutes as u64));
    assert(w.subrange(48, 56) =~= u64_be(d.seconds as u64));
    assert(w.subrange(56, 64) =~= u64_be(d.milliseconds as u64));
    assert(w.subrange(64, 80) =~= u128_be(d.microseconds as u128));
    assert(w.subrange(80, 96) =~= u128_be(d.nanoseconds as u128));
}

proof fn lemma_i64_bytes(b: Seq<u8>, at: int)
    requires 0 <= at, at + 8 <= b.len(),
    ensures u64_be(i64_at(b, at) as u64) == b.subrange(at, at + 8),
{
    let x = u64_of_be(b.subrange(at, at + 8));
    lemma_u64_bytes_round_trip(b.subrange(at, at + 8));
    assert((x as i64) as u64 == x) by (bit_vector);
}

/// Writing what `duration_recv` read from 96 bytes gives the bytes back.
pub proof fn lemma_duration_bytes_round_trip(b: Seq<u8>)
    requires b.len() == 96,
    ensures duration_wire(duration_of_wire(b)) == b,
{
    lemma_i64_bytes(b, 0);
    lemma_i64_bytes(b, 8);
    lemma_i64_bytes(b, 16);
    lemma_i64_bytes(b, 24);
    lemma_i64_bytes(b, 32);
    lemma_i64_bytes(b, 40);
    lemma_i64_bytes(b, 48);
    lemma_i64_bytes(b, 56);
    let y = u128_of_be(b.subrange(64, 80));
    let z = u128_of_be(b.subrange(80, 96));
    lemma_u128_bytes_round_trip(b.subrange(64, 80));
    lemma_u128_bytes_round_trip(b.subrange(80, 96));
    assert((y as i128) as u128 == y) by (bit_vector);
    assert((z as i128) as u128 == z) by (bit_vector);
    assert(duration_wire(duration_of_wire(b)) =~= b);
}

} // verus!
