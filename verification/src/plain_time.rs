//! `PlainTime`: a wall-clock time with no date, time zone or calendar.
use vstd::prelude::*;
use temporal_rs::PlainTime as TemporalPt;
use crate::duration::{Duration, balance_time, lemma_balance_time_negate, lemma_negate_involution, negate, temporal_accepts_duration, time_ns, to_temporal_duration};
use crate::error::{Error, Field, from_temporal_error};
use crate::wire::{u32_be, u32_of_be, push_u32_be, read_u32_be, lemma_u32_round_trip, lemma_u32_bytes_round_trip};

verus! {

/// Nanoseconds in a day.
pub const NS_PER_DAY: i128 = 86_400_000_000_000i128;

/// A time of day with its six fields apart, as `temporal_rs` takes and gives them.
#[derive(Clone, Copy, Debug, PartialEq, Eq, Structural)]
pub struct TimeOfDay {
    pub hour: u8,
    pub minute: u8,
    pub second: u8,
    pub millisecond: u16,
    pub microsecond: u16,
    pub nanosecond: u16,
}

/// Whether the fields form a time of day (Temporal's `IsValidTime`).
pub open spec fn valid_time(t: TimeOfDay) -> bool {
    t.hour <= 23 && t.minute <= 59 && t.second <= 59 && t.millisecond <= 999
        && t.microsecond <= 999 && t.nanosecond <= 999
}

/// Nanoseconds since midnight of a time of day.
pub open spec fn time_of_day_ns(t: TimeOfDay) -> int {
    ((t.hour * 60 + t.minute) * 60 + t.second) * 1_000_000_000 + t.millisecond * 1_000_000
        + t.microsecond * 1_000 + t.nanosecond
}

/// The time of day `n` nanoseconds after midnight (`0 <= n < NS_PER_DAY`).
pub open spec fn time_of_day_at(n: int) -> TimeOfDay {
    TimeOfDay {
        hour: (n / 3_600_000_000_000) as u8,
        minute: ((n / 60_000_000_000) % 60) as u8,
        second: ((n / 1_000_000_000) % 60) as u8,
        millisecond: ((n / 1_000_000) % 1000) as u16,
        microsecond: ((n / 1000) % 1000) as u16,
        nanosecond: (n % 1000) as u16,
    }
}

/// A plain time as stored: the sub-second fields collapsed into one count of
/// nanoseconds (`ms * 1_000_000 + µs * 1_000 + ns`).
#[derive(Clone, Copy, Debug, PartialEq, Eq, Structural)]
pub struct PlainTime {
    pub subsecond_ns: u32,
    pub hour: u8,
    pub minute: u8,
    pub second: u8,
}

/// The six fields of a stored plain time.
pub open spec fn unpack_time(p: PlainTime) -> TimeOfDay {
    TimeOfDay {
        hour: p.hour, minute: p.minute, second: p.second,
        millisecond: (p.subsecond_ns / 1_000_000) as u16,
        microsecond: ((p.subsecond_ns % 1_000_000) / 1_000) as u16,
        nanosecond: (p.subsecond_ns % 1_000) as u16,
    }
}

/// The stored form of a time of day with valid sub-second fields.
pub open spec fn pack_time(t: TimeOfDay) -> PlainTime {
    PlainTime {
        subsecond_ns: (t.millisecond * 1_000_000 + t.microsecond * 1_000 + t.nanosecond) as u32,
        hour: t.hour, minute: t.minute, second: t.second,
    }
}

/// Unpacking a packed time gives its fields back, and the sub-second count
/// stays below a second.
pub proof fn lemma_unpack_pack(t: TimeOfDay)
    requires t.millisecond <= 999, t.microsecond <= 999, t.nanosecond <= 999,
    ensures
        unpack_time(pack_time(t)) == t,
        pack_time(t).subsecond_ns < 1_000_000_000,
{
    let ms = t.millisecond as int;
    let us = t.microsecond as int;
    let ns = t.nanosecond as int;
    let x = ms * 1_000_000 + us * 1_000 + ns;
    assert(x / 1_000_000 == ms && (x % 1_000_000) / 1_000 == us && x % 1_000 == ns && x < 1_000_000_000)
        by (nonlinear_arith)
        requires 0 <= ms <= 999, 0 <= us <= 999, 0 <= ns <= 999, x == ms * 1_000_000 + us * 1_000 + ns;
}

/// Packing the fields of a stored time with its sub-second count below a
/// second gives the stored time back.
pub proof fn lemma_pack_unpack(p: PlainTime)
    requires p.subsecond_ns < 1_000_000_000,
    ensures pack_time(unpack_time(p)) == p,
{
    let x = p.subsecond_ns as int;
    assert((x / 1_000_000) * 1_000_000 + ((x % 1_000_000) / 1_000) * 1_000 + x % 1_000 == x
        && x / 1_000_000 < 1000 && (x % 1_000_000) / 1_000 < 1000 && x % 1_000 < 1000)
        by (nonlinear_arith) requires 0 <= x < 1_000_000_000;
}

/// Splitting a count by a divisor and putting it back gives the count.
proof fn lemma_split(n: int, d: int)
    requires d > 0,
    ensures n == d * (n / d) + n % d, 0 <= n % d < d,
{
    vstd::arithmetic::div_mod::lemma_fundamental_div_mod(n, d);
    vstd::arithmetic::div_mod::lemma_mod_bound(n, d);
}

/// Dividing twice is dividing by the product.
proof fn lemma_div_div(n: int, a: int, b: int)
    requires n >= 0, a > 0, b > 0,
    ensures (n / a) / b == n / (a * b),
{
    vstd::arithmetic::div_mod::lemma_div_denominator(n, a, b);
}

/// The fields of `time_of_day_at` are within their ranges, and give back the count.
pub proof fn lemma_time_of_day_at(n: int)
    requires 0 <= n < NS_PER_DAY,
    ensures valid_time(time_of_day_at(n)), time_of_day_ns(time_of_day_at(n)) == n,
{
    let q0 = n / 1000;
    let q1 = q0 / 1000;
    let q2 = q1 / 1000;
    let q3 = q2 / 60;
    let q4 = q3 / 60;
    lemma_split(n, 1000);
    lemma_split(q0, 1000);
    lemma_split(q1, 1000);
    lemma_split(q2, 60);
    lemma_split(q3, 60);
    lemma_div_div(n, 1000, 1000);
    lemma_div_div(n, 1_000_000, 1000);
    lemma_div_div(n, 1_000_000_000, 60);
    lemma_div_div(n, 60_000_000_000, 60);
    assert(q1 == n / 1_000_000);
    assert(q2 == n / 1_000_000_000);
    assert(q3 == n / 60_000_000_000);
    assert(q4 == n / 3_600_000_000_000);
    assert(q4 < 24) by {
        vstd::arithmetic::div_mod::lemma_div_is_ordered(n, 86_399_999_999_999, 3_600_000_000_000);
    }
    assert(q4 >= 0) by {
        vstd::arithmetic::div_mod::lemma_div_pos_is_pos(n, 3_600_000_000_000);
    }
}

pub(crate) fn pack_time_exec(t: &TimeOfDay) -> (r: PlainTime)
    requires t.millisecond <= 999, t.microsecond <= 999, t.nanosecond <= 999,
    ensures r == pack_time(*t), r.subsecond_ns < 1_000_000_000,
{
    proof { lemma_unpack_pack(*t); }
    PlainTime {
        subsecond_ns: t.millisecond as u32 * 1_000_000 + t.microsecond as u32 * 1_000 + t.nanosecond as u32,
        hour: t.hour, minute: t.minute, second: t.second,
    }
}

pub(crate) fn unpack_time_exec(p: &PlainTime) -> (r: TimeOfDay)
    ensures r == unpack_time(*p),
{
    TimeOfDay {
        hour: p.hour, minute: p.minute, second: p.second,
        millisecond: (p.subsecond_ns / 1_000_000) as u16,
        microsecond: ((p.subsecond_ns % 1_000_000) / 1_000) as u16,
        nanosecond: (p.subsecond_ns % 1_000) as u16,
    }
}

// ---------------------------------------------------------------------------
// Calls into temporal_rs
// ---------------------------------------------------------------------------

/// Checks the fields of a time of day.
///
/// Calls `temporal_rs::PlainTime::try_new` (overflow `Reject`). Claimed,
/// from its source (`is_valid_time`): it succeeds exactly when the hour is at
/// most 23, the minute and second at most 59, and each sub-second field at
/// most 999.
#[verifier::external_body]
fn outside_time_check(t: &TimeOfDay) -> (r: Result<(), temporal_rs::TemporalError>)
    ensures r is Ok == valid_time(*t),
{
    TemporalPt::try_new(t.hour, t.minute, t.second, t.millisecond, t.microsecond, t.nanosecond)?;
    Ok(())
}

/// The time of day `temporal_rs` reads from text, if any.
pub uninterp spec fn temporal_time_from_text(text: Seq<char>) -> Option<TimeOfDay>;

/// The text `temporal_rs` writes for a time of day, if any.
pub uninterp spec fn temporal_time_text(t: TimeOfDay) -> Option<Seq<char>>;

/// Reads a time of day from text.
///
/// Calls `temporal_rs::PlainTime::from_utf8` and reads the six fields back.
/// Claimed: the result is `temporal_time_from_text` of the text, and is a
/// valid time (every `temporal_rs` plain time is).
#[verifier::external_body]
fn outside_time_from_text(text: &str) -> (r: Result<TimeOfDay, temporal_rs::TemporalError>)
    ensures
        match r {
            Ok(t) => temporal_time_from_text(text@) == Some(t) && valid_time(t),
            Err(_) => temporal_time_from_text(text@) is None,
        },
{
    let p = TemporalPt::from_utf8(text.as_bytes())?;
    Ok(TimeOfDay { hour: p.hour(), minute: p.minute(), second: p.second(),
        millisecond: p.millisecond(), microsecond: p.microsecond(), nanosecond: p.nanosecond() })
}

/// Writes a time of day as text.
///
/// Calls `temporal_rs::PlainTime::to_ixdtf_string` with the default options
/// on the time built from `t`. Claimed: the result is `temporal_time_text(t)`;
/// it is written exactly for a valid time (rounding to the nanosecond
/// changes nothing); and the text, `HH:MM:SS` with every non-zero digit of
/// the fraction (precision `Auto`), reads back as the same time.
#[verifier::external_body]
fn outside_time_text(t: &TimeOfDay) -> (r: Result<String, temporal_rs::TemporalError>)
    ensures
        match r {
            Ok(s) => temporal_time_text(*t) == Some(s@),
            Err(_) => temporal_time_text(*t) is None,
        },
        r is Ok == valid_time(*t),
        r matches Ok(s) ==> temporal_time_from_text(s@) == Some(*t),
{
    TemporalPt::try_new(t.hour, t.minute, t.second, t.millisecond, t.microsecond, t.nanosecond)?
        .to_ixdtf_string(temporal_rs::options::ToStringRoundingOptions::default())
}

/// Adds the time of a duration to a time of day.
///
/// Calls `temporal_rs::PlainTime::add` (`add_to_time`). Claimed, from its
/// source: the time and the duration are built (both must be valid); the
/// duration's time fields are added and balanced with floor division, so the
/// result is the sum modulo one day. Years, months, weeks and days are ignored.
#[verifier::external_body]
fn outside_time_add(t: &TimeOfDay, d: &Duration) -> (r: Result<TimeOfDay, temporal_rs::TemporalError>)
    ensures
        r is Ok == (valid_time(*t) && temporal_accepts_duration(*d)),
        r matches Ok(v) ==> v == time_of_day_at((time_of_day_ns(*t) + time_ns(*d)) % (NS_PER_DAY as int)),
{
    let p = TemporalPt::try_new(t.hour, t.minute, t.second, t.millisecond, t.microsecond, t.nanosecond)?
        .add(&to_temporal_duration(d)?)?;
    Ok(TimeOfDay { hour: p.hour(), minute: p.minute(), second: p.second(),
        millisecond: p.millisecond(), microsecond: p.microsecond(), nanosecond: p.nanosecond() })
}

/// Subtracts the time of a duration from a time of day.
///
/// Calls `temporal_rs::PlainTime::subtract`, which adds the negated duration.
/// Claimed as for `outside_time_add`, with the time taken away.
#[verifier::external_body]
fn outside_time_subtract(t: &TimeOfDay, d: &Duration) -> (r: Result<TimeOfDay, temporal_rs::TemporalError>)
    ensures
        r is Ok == (valid_time(*t) && temporal_accepts_duration(*d)),
        r matches Ok(v) ==> v == time_of_day_at((time_of_day_ns(*t) - time_ns(*d)) % (NS_PER_DAY as int)),
{
    let p = TemporalPt::try_new(t.hour, t.minute, t.second, t.millisecond, t.microsecond, t.nanosecond)?
        .subtract(&to_temporal_duration(d)?)?;
    Ok(TimeOfDay { hour: p.hour(), minute: p.minute(), second: p.second(),
        millisecond: p.millisecond(), microsecond: p.microsecond(), nanosecond: p.nanosecond() })
}

/// The duration from one time of day to another.
///
/// Calls `temporal_rs::PlainTime::until` with the default settings. Claimed,
/// from its source (`diff_time`): the difference `b - a` in nanoseconds is
/// balanced with hours as the largest unit; it succeeds for valid times.
#[verifier::external_body]
fn outside_time_until(a: &TimeOfDay, b: &TimeOfDay) -> (r: Result<Duration, temporal_rs::TemporalError>)
    ensures
        r is Ok == (valid_time(*a) && valid_time(*b)),
        r matches Ok(d) ==> d == balance_time(time_of_day_ns(*b) - time_of_day_ns(*a), 5),
{
    let x = TemporalPt::try_new(a.hour, a.minute, a.second, a.millisecond, a.microsecond, a.nanosecond)?;
    let t = x.until(&TemporalPt::try_new(b.hour, b.minute, b.second, b.millisecond, b.microsecond, b.nanosecond)?, Default::default())?;
    Ok(Duration { years: t.years(), months: t.months(), weeks: t.weeks(), days: t.days(),
        hours: t.hours(), minutes: t.minutes(), seconds: t.seconds(),
        milliseconds: t.milliseconds(), microseconds: t.microseconds(), nanoseconds: t.nanoseconds() })
}

/// The duration elapsed from one time of day to another.
///
/// Calls `temporal_rs::PlainTime::since` with the default settings. Claimed,
/// from its source: the `until` result (`b - a`, in hours and smaller units), negated.
#[verifier::external_body]
fn outside_time_since(a: &TimeOfDay, b: &TimeOfDay) -> (r: Result<Duration, temporal_rs::TemporalError>)
    ensures
        r is Ok == (valid_time(*a) && valid_time(*b)),
        r matches Ok(d) ==> d == negate(balance_time(time_of_day_ns(*b) - time_of_day_ns(*a), 5)),
{
    let x = TemporalPt::try_new(a.hour, a.minute, a.second, a.millisecond, a.microsecond, a.nanosecond)?;
    let t = x.since(&TemporalPt::try_new(b.hour, b.minute, b.second, b.millisecond, b.microsecond, b.nanosecond)?, Default::default())?;
    Ok(Duration { years: t.years(), months: t.months(), weeks: t.weeks(), days: t.days(),
        hours: t.hours(), minutes: t.minutes(), seconds: t.seconds(),
        milliseconds: t.milliseconds(), microseconds: t.microseconds(), nanoseconds: t.nanoseconds() })
}


// ---------------------------------------------------------------------------
// Construction and accessors
// ---------------------------------------------------------------------------

/// The first field given to `make_plaintime` that does not fit its storage
/// type (`u8` for hour, minute and second, `u16` for the sub-second fields),
/// with the value given.
pub open spec fn first_bad_time_field(h: i32, mi: i32, s: i32, ms: i32, us: i32, ns: i32) -> Option<(Field, i32)> {
    if !(0 <= h <= 255) { Some((Field::Hour, h)) }
    else if !(0 <= mi <= 255) { Some((Field::Minute, mi)) }
    else if !(0 <= s <= 255) { Some((Field::Second, s)) }
    else if !(0 <= ms <= 65535) { Some((Field::Millisecond, ms)) }
    else if !(0 <= us <= 65535) { Some((Field::Microsecond, us)) }
    else if !(0 <= ns <= 65535) { Some((Field::Nanosecond, ns)) }
    else { None }
}

/// The time of day of six fields that fit their storage types.
pub open spec fn time_fields(h: i32, mi: i32, s: i32, ms: i32, us: i32, ns: i32) -> TimeOfDay {
    TimeOfDay { hour: h as u8, minute: mi as u8, second: s as u8,
        millisecond: ms as u16, microsecond: us as u16, nanosecond: ns as u16 }
}

fn to_u8(v: i32, f: Field) -> (r: Result<u8, Error>)
    ensures
        0 <= v <= 255 ==> r == Ok::<u8, Error>(v as u8),
        !(0 <= v <= 255) ==> r == Err::<u8, Error>(Error::InvalidField(f, v)),
{
    if 0 <= v && v <= 255 { Ok(v as u8) } else { Err(Error::InvalidField(f, v)) }
}

fn to_u16(v: i32, f: Field) -> (r: Result<u16, Error>)
    ensures
        0 <= v <= 65535 ==> r == Ok::<u16, Error>(v as u16),
        !(0 <= v <= 65535) ==> r == Err::<u16, Error>(Error::InvalidField(f, v)),
{
    if 0 <= v && v <= 65535 { Ok(v as u16) } else { Err(Error::InvalidField(f, v)) }
}

/// Builds a plain time from its fields; the sub-second fields are usually 0.
///
/// A field outside its storage type is refused with `InvalidField` (the first
/// such, in the order of the parameters); otherwise the time must be valid,
/// else `temporal_rs` refuses it.
pub fn make_plaintime(hour: i32, minute: i32, second: i32, millisecond: i32, microsecond: i32,
    nanosecond: i32) -> (r: Result<PlainTime, Error>)
    ensures
        first_bad_time_field(hour, minute, second, millisecond, microsecond, nanosecond)
            matches Some((f, v)) ==> r == Err::<PlainTime, Error>(Error::InvalidField(f, v)),
        first_bad_time_field(hour, minute, second, millisecond, microsecond, nanosecond) is None ==> {
            let t = time_fields(hour, minute, second, millisecond, microsecond, nanosecond);
            &&& r is Ok <==> valid_time(t)
            &&& r matches Ok(p) ==> p == pack_time(t)
            &&& r matches Err(e) ==> e is Temporal
        },
{
    let h = to_u8(hour, Field::Hour)?;
    let mi = to_u8(minute, Field::Minute)?;
    let s = to_u8(second, Field::Second)?;
    let ms = to_u16(millisecond, Field::Millisecond)?;
    let us = to_u16(microsecond, Field::Microsecond)?;
    let ns = to_u16(nanosecond, Field::Nanosecond)?;
    let t = TimeOfDay { hour: h, minute: mi, second: s, millisecond: ms, microsecond: us, nanosecond: ns };
    match outside_time_check(&t) {
        Ok(()) => Ok(pack_time_exec(&t)),
        Err(e) => Err(from_temporal_error(e)),
    }
}

/// The hour (0–23).
pub fn plaintime_hour(pt: PlainTime) -> (r: i32)
    ensures r == pt.hour,
{
    pt.hour as i32
}

/// The minute (0–59).
pub fn plaintime_minute(pt: PlainTime) -> (r: i32)
    ensures r == pt.minute,
{
    pt.minute as i32
}

/// The second (0–59).
pub fn plaintime_second(pt: PlainTime) -> (r: i32)
    ensures r == pt.second,
{
    pt.second as i32
}

/// The millisecond (0–999).
pub fn plaintime_millisecond(pt: PlainTime) -> (r: i32)
    ensures r == pt.subsecond_ns / 1_000_000,
{
    (pt.subsecond_ns / 1_000_000) as i32
}

/// The microsecond within the millisecond (0–999).
pub fn plaintime_microsecond(pt: PlainTime) -> (r: i32)
    ensures r == (pt.subsecond_ns % 1_000_000) / 1_000,
{
    ((pt.subsecond_ns % 1_000_000) / 1_000) as i32
}

/// The nanosecond within the microsecond (0–999).
pub fn plaintime_nanosecond(pt: PlainTime) -> (r: i32)
    ensures r == pt.subsecond_ns % 1_000,
{
    (pt.subsecond_ns % 1_000) as i32
}

impl PlainTime {
    /// Reads a plain time from its text form (`11:16:10`, `T14:30:00.5`, ...).
    pub fn parse(text: &str) -> (r: Result<PlainTime, Error>)
        ensures
            match temporal_time_from_text(text@) {
                Some(t) => r == Ok::<PlainTime, Error>(pack_time(t)),
                None => r is Err,
            },
            temporal_time_from_text(text@) matches Some(t) ==> valid_time(t),
    {
        match outside_time_from_text(text) {
            Ok(t) => Ok(pack_time_exec(&t)),
            Err(e) => Err(from_temporal_error(e)),
        }
    }

    /// The text form of the time; an invalid stored time has none. Reading
    /// the text back gives the same stored time.
    pub fn to_text(&self) -> (r: Result<String, Error>)
        ensures
            match temporal_time_text(unpack_time(*self)) {
                Some(s) => r matches Ok(v) && v@ == s,
                None => r is Err,
            },
            r is Ok == valid_time(unpack_time(*self)),
            r matches Ok(s) ==> temporal_time_from_text(s@) == Some(unpack_time(*self))
                && pack_time(unpack_time(*self)) == *self,
    {
        proof {
            if valid_time(unpack_time(*self)) {
                lemma_valid_subsecond(*self);
                lemma_pack_unpack(*self);
            }
        }
        let t = unpack_time_exec(self);
        match outside_time_text(&t) {
            Ok(s) => Ok(s),
            Err(e) => Err(from_temporal_error(e)),
        }
    }
}

// ---------------------------------------------------------------------------
// Arithmetic
// ---------------------------------------------------------------------------

/// The stored time `n` nanoseconds (taken modulo a day) after midnight.
pub open spec fn time_after_midnight(n: int) -> PlainTime {
    pack_time(time_of_day_at(n % (NS_PER_DAY as int)))
}

/// Adds the time of a duration to a plain time, wrapping around midnight.
/// Fails when the stored time or the duration is not valid.
pub fn plaintime_add(pt: PlainTime, dur: Duration) -> (r: Result<PlainTime, Error>)
    ensures
        r is Ok <==> valid_time(unpack_time(pt)) && temporal_accepts_duration(dur),
        r matches Ok(p) ==> p == time_after_midnight(time_of_day_ns(unpack_time(pt)) + time_ns(dur)),
{
    let t = unpack_time_exec(&pt);
    match outside_time_add(&t, &dur) {
        Ok(v) => {
            proof { lemma_time_of_day_at((time_of_day_ns(t) + time_ns(dur)) % (NS_PER_DAY as int)); }
            Ok(pack_time_exec(&v))
        },
        Err(e) => Err(from_temporal_error(e)),
    }
}

/// Subtracts the time of a duration from a plain time, wrapping around midnight.
pub fn plaintime_subtract(pt: PlainTime, dur: Duration) -> (r: Result<PlainTime, Error>)
    ensures
        r is Ok <==> valid_time(unpack_time(pt)) && temporal_accepts_duration(dur),
        r matches Ok(p) ==> p == time_after_midnight(time_of_day_ns(unpack_time(pt)) - time_ns(dur)),
{
    let t = unpack_time_exec(&pt);
    match outside_time_subtract(&t, &dur) {
        Ok(v) => {
            proof { lemma_time_of_day_at((time_of_day_ns(t) - time_ns(dur)) % (NS_PER_DAY as int)); }
            Ok(pack_time_exec(&v))
        },
        Err(e) => Err(from_temporal_error(e)),
    }
}

/// The duration elapsed from `other` to `pt`, in hours and smaller units.
pub fn plaintime_since(pt: PlainTime, other: PlainTime) -> (r: Result<Duration, Error>)
    ensures
        r is Ok <==> valid_time(unpack_time(pt)) && valid_time(unpack_time(other)),
        r matches Ok(d) ==> d == negate(balance_time(
            time_of_day_ns(unpack_time(other)) - time_of_day_ns(unpack_time(pt)), 5)),
{
    let a = unpack_time_exec(&pt);
    let b = unpack_time_exec(&other);
    match outside_time_since(&a, &b) {
        Ok(d) => Ok(d),
        Err(e) => Err(from_temporal_error(e)),
    }
}

/// The duration from `pt` to `other`, in hours and smaller units.
pub fn plaintime_until(pt: PlainTime, other: PlainTime) -> (r: Result<Duration, Error>)
    ensures
        r is Ok <==> valid_time(unpack_time(pt)) && valid_time(unpack_time(other)),
        r matches Ok(d) ==> d == balance_time(
            time_of_day_ns(unpack_time(other)) - time_of_day_ns(unpack_time(pt)), 5),
{
    let a = unpack_time_exec(&pt);
    let b = unpack_time_exec(&other);
    match outside_time_until(&a, &b) {
        Ok(d) => Ok(d),
        Err(e) => Err(from_temporal_error(e)),
    }
}

// ---------------------------------------------------------------------------
// Order
// ---------------------------------------------------------------------------

/// -1, 0 or 1 as `a` is before, at or after `b`: by hour, minute, second,
/// then sub-second.
pub open spec fn time_order(a: PlainTime, b: PlainTime) -> int {
    if a.hour != b.hour { if a.hour < b.hour { -1 } else { 1 } }
    else if a.minute != b.minute { if a.minute < b.minute { -1 } else { 1 } }
    else if a.second != b.second { if a.second < b.second { -1 } else { 1 } }
    else if a.subsecond_ns != b.subsecond_ns { if a.subsecond_ns < b.subsecond_ns { -1 } else { 1 } }
    else { 0 }
}

/// Compares two plain times.
pub fn plaintime_compare(a: PlainTime, b: PlainTime) -> (r: i32)
    ensures r == time_order(a, b),
{
    if a.hour != b.hour { if a.hour < b.hour { -1 } else { 1 } }
    else if a.minute != b.minute { if a.minute < b.minute { -1 } else { 1 } }
    else if a.second != b.second { if a.second < b.second { -1 } else { 1 } }
    else if a.subsecond_ns != b.subsecond_ns { if a.subsecond_ns < b.subsecond_ns { -1 } else { 1 } }
    else { 0 }
}

/// The order of plain times is the order of their nanoseconds since midnight,
/// for valid stored times.
pub proof fn lemma_time_order_is_ns_order(a: PlainTime, b: PlainTime)
    requires
        valid_time(unpack_time(a)), valid_time(unpack_time(b)),
        a.subsecond_ns < 1_000_000_000, b.subsecond_ns < 1_000_000_000,
    ensures
        time_order(a, b) == 0 <==> a == b,
        time_order(a, b) < 0 <==> time_of_day_ns(unpack_time(a)) < time_of_day_ns(unpack_time(b)),
        time_order(a, b) == -time_order(b, a),
{
    lemma_unpacked_ns(a);
    lemma_unpacked_ns(b);
    let ka = (a.hour * 60 + a.minute) * 60 + a.second;
    let kb = (b.hour * 60 + b.minute) * 60 + b.second;
    assert(time_order(a, b) < 0 <==> ka * 1_000_000_000 + a.subsecond_ns < kb * 1_000_000_000 + b.subsecond_ns)
        by (nonlinear_arith)
        requires
            time_order(a, b) < 0 <==> (a.hour < b.hour || (a.hour == b.hour && a.minute < b.minute)
                || (a.hour == b.hour && a.minute == b.minute && a.second < b.second)
                || (a.hour == b.hour && a.minute == b.minute && a.second == b.second && a.subsecond_ns < b.subsecond_ns)),
            ka == (a.hour * 60 + a.minute) * 60 + a.second, kb == (b.hour * 60 + b.minute) * 60 + b.second,
            a.minute <= 59, a.second <= 59, b.minute <= 59, b.second <= 59,
            a.subsecond_ns < 1_000_000_000, b.subsecond_ns < 1_000_000_000;
}

/// The nanoseconds since midnight of a stored time: its whole seconds and its
/// sub-second count.
proof fn lemma_unpacked_ns(p: PlainTime)
    requires p.subsecond_ns < 1_000_000_000,
    ensures time_of_day_ns(unpack_time(p))
        == ((p.hour * 60 + p.minute) * 60 + p.second) * 1_000_000_000 + p.subsecond_ns,
{
    let x = p.subsecond_ns as int;
    assert((x / 1_000_000) * 1_000_000 + ((x % 1_000_000) / 1_000) * 1_000 + x % 1_000 == x)
        by (nonlinear_arith) requires 0 <= x;
}

// ---------------------------------------------------------------------------
// PostgreSQL `time`
// ---------------------------------------------------------------------------

/// The stored time for a PostgreSQL `time` given as hour, minute, second and
/// its whole microseconds within the minute (`second * 1_000_000 + µs`); its
/// nanoseconds are 0.
pub fn time_to_plaintime(hour: u8, minute: u8, second: u8, total_us: u32) -> (r: Result<PlainTime, Error>)
    ensures ({
        let sub_us = total_us % 1_000_000;
        let t = TimeOfDay { hour, minute, second,
            millisecond: (sub_us / 1_000) as u16, microsecond: (sub_us % 1_000) as u16, nanosecond: 0 };
        &&& r is Ok <==> valid_time(t)
        &&& r matches Ok(p) ==> p == pack_time(t)
    }),
{
    let sub_us = total_us % 1_000_000;
    let t = TimeOfDay { hour, minute, second,
        millisecond: (sub_us / 1_000) as u16, microsecond: (sub_us % 1_000) as u16, nanosecond: 0 };
    match outside_time_check(&t) {
        Ok(()) => Ok(pack_time_exec(&t)),
        Err(e) => Err(from_temporal_error(e)),
    }
}

// ---------------------------------------------------------------------------
// Binary format
// ---------------------------------------------------------------------------

/// The seven bytes of a plain time: the sub-second count as a big-endian
/// `u32`, then hour, minute and second.
pub open spec fn time_wire(p: PlainTime) -> Seq<u8> {
    u32_be(p.subsecond_ns) + seq![p.hour, p.minute, p.second]
}

/// The plain time read from the first seven bytes of `b`.
pub open spec fn time_of_wire(b: Seq<u8>) -> PlainTime {
    PlainTime { subsecond_ns: u32_of_be(b), hour: b[4], minute: b[5], second: b[6] }
}

/// Writes a plain time in the binary format.
pub fn plaintime_send(val: PlainTime) -> (r: Vec<u8>)
    ensures r@ == time_wire(val),
{
    let mut buf: Vec<u8> = Vec::new();
    push_u32_be(&mut buf, val.subsecond_ns);
    buf.push(val.hour);
    buf.push(val.minute);
    buf.push(val.second);
    assert(buf@ =~= time_wire(val));
    buf
}

/// Reads a plain time from the binary format; fewer than seven bytes is an error.
pub fn plaintime_recv(buf: &[u8]) -> (r: Result<PlainTime, Error>)
    ensures
        buf@.len() < 7 ==> r == Err::<PlainTime, Error>(Error::BadBinaryLength),
        buf@.len() >= 7 ==> r == Ok::<PlainTime, Error>(time_of_wire(buf@)),
{
    if buf.len() < 7 {
        return Err(Error::BadBinaryLength);
    }
    let subsecond_ns = read_u32_be(buf, 0);
    assert(u32_of_be(buf@.subrange(0, 4)) == u32_of_be(buf@));
    Ok(PlainTime { subsecond_ns, hour: buf[4], minute: buf[5], second: buf[6] })
}

/// Reading back what `plaintime_send` wrote gives the same time.
pub proof fn lemma_plaintime_wire_round_trip(p: PlainTime)
    ensures time_wire(p).len() == 7, time_of_wire(time_wire(p)) == p,
{
    lemma_u32_round_trip(p.subsecond_ns);
    assert(u32_of_be(time_wire(p)) == u32_of_be(u32_be(p.subsecond_ns)));
}

/// Writing what `plaintime_recv` read from seven bytes gives the bytes back.
pub proof fn lemma_plaintime_bytes_round_trip(b: Seq<u8>)
    requires b.len() == 7,
    ensures time_wire(time_of_wire(b)) == b,
{
    lemma_u32_bytes_round_trip(b.subrange(0, 4));
    assert(u32_of_be(b) == u32_of_be(b.subrange(0, 4)));
    assert(time_wire(time_of_wire(b)) =~= b);
}

// ---------------------------------------------------------------------------
// Laws
// ---------------------------------------------------------------------------

/// Every time that arithmetic gives is a valid stored time, `n`
/// nanoseconds (modulo a day) after midnight.
pub proof fn lemma_time_after_midnight(n: int)
    ensures
        valid_time(unpack_time(time_after_midnight(n))),
        time_after_midnight(n).subsecond_ns < 1_000_000_000,
        time_of_day_ns(unpack_time(time_after_midnight(n))) == n % (NS_PER_DAY as int),
{
    let m = n % (NS_PER_DAY as int);
    lemma_time_of_day_at(m);
    lemma_unpack_pack(time_of_day_at(m));
}

/// Two valid stored times with the same nanoseconds since midnight are the
/// same time.
proof fn lemma_time_ns_injective(a: PlainTime, b: PlainTime)
    requires
        valid_time(unpack_time(a)), valid_time(unpack_time(b)),
        a.subsecond_ns < 1_000_000_000, b.subsecond_ns < 1_000_000_000,
        time_of_day_ns(unpack_time(a)) == time_of_day_ns(unpack_time(b)),
    ensures a == b,
{
    lemma_time_order_is_ns_order(a, b);
    lemma_time_order_is_ns_order(b, a);
}

/// A valid stored time keeps its sub-second count below a second.
pub proof fn lemma_valid_subsecond(p: PlainTime)
    requires valid_time(unpack_time(p)),
    ensures p.subsecond_ns < 1_000_000_000,
{
    let x = p.subsecond_ns as int;
    assert(x < 1_000_000_000) by (nonlinear_arith)
        requires 0 <= x, x / 1_000_000 <= 999;
}

/// Subtracting a duration undoes adding it: for a valid time `p`,
/// `plaintime_subtract(plaintime_add(p, d), d)` is `p` again, however far
/// `d` carries it around the clock.
pub proof fn lemma_plaintime_add_subtract(p: PlainTime, t: int)
    requires valid_time(unpack_time(p)),
    ensures ({
        let q = time_after_midnight(time_of_day_ns(unpack_time(p)) + t);
        time_after_midnight(time_of_day_ns(unpack_time(q)) - t) == p
    }),
{
    let d = NS_PER_DAY as int;
    let n = time_of_day_ns(unpack_time(p));
    let q = time_after_midnight(n + t);
    lemma_time_after_midnight(n + t);
    let m = (n + t) % d;
    let k = (n + t) / d;
    vstd::arithmetic::div_mod::lemma_fundamental_div_mod(n + t, d);
    assert(m - t == n + d * (-k));
    vstd::arithmetic::div_mod::lemma_mod_multiples_vanish(-k, n, d);
    lemma_valid_subsecond(p);
    lemma_unpacked_ns(p);
    assert(0 <= n < d) by (nonlinear_arith)
        requires
            n == ((p.hour * 60 + p.minute) * 60 + p.second) * 1_000_000_000 + p.subsecond_ns,
            p.hour <= 23, p.minute <= 59, p.second <= 59, p.subsecond_ns < 1_000_000_000,
            d == 86_400_000_000_000;
    vstd::arithmetic::div_mod::lemma_small_mod(n as nat, d as nat);
    let r = time_after_midnight(m - t);
    lemma_time_after_midnight(m - t);
    assert((n + d * (-k)) % d == n % d) by {
        vstd::arithmetic::div_mod::lemma_mod_multiples_vanish(-k, n, d);
    }
    lemma_time_ns_injective(r, p);
}

/// The duration from `a` to `b` is the duration `b` has elapsed since `a`:
/// `plaintime_until(a, b)` equals `plaintime_since(b, a)`.
pub proof fn lemma_plaintime_until_is_since_reversed(a: PlainTime, b: PlainTime)
    requires valid_time(unpack_time(a)), valid_time(unpack_time(b)),
    ensures
        balance_time(time_of_day_ns(unpack_time(b)) - time_of_day_ns(unpack_time(a)), 5)
            == negate(balance_time(time_of_day_ns(unpack_time(a)) - time_of_day_ns(unpack_time(b)), 5)),
{
    let x = time_of_day_ns(unpack_time(a));
    let y = time_of_day_ns(unpack_time(b));
    lemma_valid_subsecond(a);
    lemma_valid_subsecond(b);
    lemma_unpacked_ns(a);
    lemma_unpacked_ns(b);
    assert(0 <= x < 86_400_000_000_000) by (nonlinear_arith)
        requires
            x == ((a.hour * 60 + a.minute) * 60 + a.second) * 1_000_000_000 + a.subsecond_ns,
            a.hour <= 23, a.minute <= 59, a.second <= 59, a.subsecond_ns < 1_000_000_000;
    assert(0 <= y < 86_400_000_000_000) by (nonlinear_arith)
        requires
            y == ((b.hour * 60 + b.minute) * 60 + b.second) * 1_000_000_000 + b.subsecond_ns,
            b.hour <= 23, b.minute <= 59, b.second <= 59, b.subsecond_ns < 1_000_000_000;
    lemma_balance_time_negate(x - y, 5);
    lemma_negate_involution(balance_time(y - x, 5));
}

} // verus!
