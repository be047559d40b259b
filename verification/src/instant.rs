//! `Instant`: an absolute point on the UTC timeline with nanosecond precision.
use vstd::prelude::*;
use temporal_rs::Instant as TemporalInstant;
use crate::duration::{Duration, balance_time, lemma_balance_time_negate, lemma_negate_involution, has_calendar_units, negate, temporal_accepts_duration,
    time_ns, to_temporal_duration};
use crate::error::{Error, from_temporal_error};
use crate::text::{decimal_of_int, i128_to_text, parse_i128_spec, parse_i128_trimmed, trim_spec};

verus! {

/// The largest distance of an instant from the Unix epoch, in nanoseconds
/// (10^8 days).
pub const NS_MAX_INSTANT: i128 = 8_640_000_000_000_000_000_000i128;

/// The PostgreSQL epoch (2000-01-01T00:00:00Z) in nanoseconds since the Unix epoch.
pub const PG_EPOCH_UNIX_NS: i128 = 946_684_800_000_000_000i128;

/// Whether `ns` nanoseconds since the Unix epoch is a valid instant.
pub open spec fn instant_in_range(ns: int) -> bool {
    -NS_MAX_INSTANT <= ns <= NS_MAX_INSTANT
}

/// An instant, as nanoseconds since the Unix epoch.
#[derive(Clone, Copy, Debug)]
pub struct Instant {
    epoch_ns: i128,
}

impl View for Instant {
    type V = i128;

    closed spec fn view(&self) -> i128 {
        self.epoch_ns
    }
}

impl Instant {
    #[verifier::type_invariant]
    spec fn in_range(self) -> bool {
        instant_in_range(self.epoch_ns as int)
    }

    /// The nanoseconds since the Unix epoch.
    pub fn epoch_ns(&self) -> (r: i128)
        ensures r == self@, instant_in_range(r as int),
    {
        proof { use_type_invariant(self); }
        self.epoch_ns
    }
}

/// The instant whose epoch nanoseconds are `ns`, in specifications.
pub closed spec fn instant_at(ns: i128) -> Instant {
    Instant { epoch_ns: ns }
}

/// An instant is its epoch nanoseconds: `instant_at` gives them back, and
/// is the instant they came from.
pub proof fn lemma_instant_at(i: Instant, ns: i128)
    ensures instant_at(ns)@ == ns, instant_at(i@) == i,
{
}

/// Checks an epoch-nanosecond count with `temporal_rs`.
///
/// Calls `temporal_rs::Instant::try_new` and reads the count back. Claimed,
/// from its source (`is_valid_epoch_nanos`): it succeeds exactly when the
/// count is within 10^8 days of the epoch, and keeps the count unchanged.
#[verifier::external_body]
fn outside_instant_new(ns: i128) -> (r: Result<i128, temporal_rs::TemporalError>)
    ensures
        r is Ok == instant_in_range(ns as int),
        r matches Ok(v) ==> v == ns,
{
    Ok(TemporalInstant::try_new(ns)?.epoch_nanoseconds().as_i128())
}

/// The instant `ns` nanoseconds after the Unix epoch, if it is in range.
pub fn instant_from_epoch_ns(ns: i128) -> (r: Result<Instant, Error>)
    ensures
        r is Ok == instant_in_range(ns as int),
        r matches Ok(i) ==> i@ == ns,
        r matches Err(e) ==> e is Temporal,
{
    match outside_instant_new(ns) {
        Ok(v) => Ok(Instant { epoch_ns: v }),
        Err(e) => Err(from_temporal_error(e)),
    }
}

/// Builds an instant from nanoseconds since the Unix epoch written as decimal
/// text (surrounding white space ignored).
pub fn make_instant(epoch_ns: &str) -> (r: Result<Instant, Error>)
    ensures
        match parse_i128_spec(trim_spec(epoch_ns@)) {
            None => r matches Err(Error::NotAnInteger),
            Some(ns) => match r {
                Ok(i) => instant_in_range(ns as int) && i@ == ns,
                Err(e) => !instant_in_range(ns as int) && e is Temporal,
            },
        },
{
    match parse_i128_trimmed(epoch_ns) {
        None => Err(Error::NotAnInteger),
        Some(ns) => instant_from_epoch_ns(ns),
    }
}

/// Nanoseconds since the Unix epoch, as decimal text.
pub fn instant_epoch_ns(inst: Instant) -> (r: String)
    ensures r@ == decimal_of_int(inst@ as int),
{
    i128_to_text(inst.epoch_ns())
}

// ---------------------------------------------------------------------------
// Text form
// ---------------------------------------------------------------------------

/// The epoch nanoseconds `temporal_rs` reads from RFC 9557 instant text, if any.
pub uninterp spec fn temporal_instant_from_text(text: Seq<char>) -> Option<i128>;

/// The RFC 9557 text (in UTC) `temporal_rs` writes for an instant, if any.
pub uninterp spec fn temporal_instant_text(ns: i128) -> Option<Seq<char>>;

/// Reads an instant from RFC 9557 text.
///
/// Calls `temporal_rs::Instant::from_utf8`. Claimed: the result is
/// `temporal_instant_from_text` of the text, and is in range (the parser
/// checks it).
#[verifier::external_body]
fn outside_instant_from_text(text: &str) -> (r: Result<i128, temporal_rs::TemporalError>)
    ensures
        match r {
            Ok(ns) => temporal_instant_from_text(text@) == Some(ns) && instant_in_range(ns as int),
            Err(_) => temporal_instant_from_text(text@) is None,
        },
{
    Ok(TemporalInstant::from_utf8(text.as_bytes())?.epoch_nanoseconds().as_i128())
}

/// Writes an instant as RFC 9557 text.
///
/// Calls `temporal_rs::Instant::to_ixdtf_string` with no time zone and the
/// default options. Claimed: the result is `temporal_instant_text(ns)`; an
/// instant in range is always written (rounding to the nanosecond changes
/// nothing, and the UTC date-time of a valid instant is valid); and the text,
/// in UTC with `Z` and every non-zero digit of the fraction (precision
/// `Auto`), reads back as the same count.
#[verifier::external_body]
fn outside_instant_text(ns: i128) -> (r: Result<String, temporal_rs::TemporalError>)
    ensures
        match r {
            Ok(t) => temporal_instant_text(ns) == Some(t@),
            Err(_) => temporal_instant_text(ns) is None,
        },
        instant_in_range(ns as int) ==> r is Ok,
        r matches Ok(t) ==> temporal_instant_from_text(t@) == Some(ns),
{
    TemporalInstant::try_new(ns)?.to_ixdtf_string(None, temporal_rs::options::ToStringRoundingOptions::default())
}

impl Instant {
    /// Reads an instant from RFC 9557 text with a `Z` or numeric offset,
    /// such as `2025-03-01T11:16:10+09:00`.
    pub fn parse(text: &str) -> (r: Result<Instant, Error>)
        ensures
            match r {
                Ok(i) => temporal_instant_from_text(text@) == Some(i@),
                Err(e) => temporal_instant_from_text(text@) is None && e is Temporal,
            },
    {
        match outside_instant_from_text(text) {
            Ok(ns) => Ok(Instant { epoch_ns: ns }),
            Err(e) => Err(from_temporal_error(e)),
        }
    }

    /// The RFC 9557 text of the instant, in UTC; reading it back gives the
    /// same instant.
    pub fn to_text(&self) -> (r: Result<String, Error>)
        ensures
            match r {
                Ok(t) => temporal_instant_text(self@) == Some(t@),
                Err(e) => temporal_instant_text(self@) is None && e is Temporal,
            },
            r is Ok,
            r matches Ok(t) ==> temporal_instant_from_text(t@) == Some(self@),
    {
        proof { use_type_invariant(self); }
        match outside_instant_text(self.epoch_ns) {
            Ok(t) => Ok(t),
            Err(e) => Err(from_temporal_error(e)),
        }
    }
}

// ---------------------------------------------------------------------------
// Comparison
// ---------------------------------------------------------------------------

/// -1, 0 or 1 for two integers.
pub open spec fn order_of(a: int, b: int) -> int {
    if a < b { -1 } else if a > b { 1 } else { 0 }
}

/// -1, 0 or 1 comparing two instants by epoch nanoseconds.
pub fn instant_compare(a: Instant, b: Instant) -> (r: i32)
    ensures
        r as int == order_of(a@ as int, b@ as int),
        (r < 0) == (a@ < b@), (r == 0) == (a@ == b@), (r > 0) == (a@ > b@),
{
    if a.epoch_ns < b.epoch_ns { -1 } else if a.epoch_ns > b.epoch_ns { 1 } else { 0 }
}

/// Whether `a` is before `b`.
pub fn instant_lt(a: Instant, b: Instant) -> (r: bool)
    ensures r == (a@ < b@),
{
    a.epoch_ns < b.epoch_ns
}

/// Whether `a` is not after `b`.
pub fn instant_le(a: Instant, b: Instant) -> (r: bool)
    ensures r == (a@ <= b@),
{
    a.epoch_ns <= b.epoch_ns
}

/// Whether `a` and `b` are the same instant.
pub fn instant_eq(a: Instant, b: Instant) -> (r: bool)
    ensures r == (a@ == b@),
{
    a.epoch_ns == b.epoch_ns
}

/// Whether `a` and `b` are different instants.
pub fn instant_ne(a: Instant, b: Instant) -> (r: bool)
    ensures r == (a@ != b@),
{
    a.epoch_ns != b.epoch_ns
}

/// Whether `a` is not before `b`.
pub fn instant_ge(a: Instant, b: Instant) -> (r: bool)
    ensures r == (a@ >= b@),
{
    a.epoch_ns >= b.epoch_ns
}

/// Whether `a` is after `b`.
pub fn instant_gt(a: Instant, b: Instant) -> (r: bool)
    ensures r == (a@ > b@),
{
    a.epoch_ns > b.epoch_ns
}

// ---------------------------------------------------------------------------
// Arithmetic
// ---------------------------------------------------------------------------

/// What adding a duration to an instant gives: the instant moved by the
/// duration's time, when the duration is accepted, has no calendar units and
/// the result is in range.
pub open spec fn instant_plus(ns: int, d: Duration, t: int) -> Option<i128> {
    if temporal_accepts_duration(d) && !has_calendar_units(d) && instant_in_range(ns + t) {
        Some((ns + t) as i128)
    } else {
        None
    }
}

/// Adds a duration to an instant.
///
/// Calls `temporal_rs::Instant::try_new`, which refuses a count out of range
/// (so the count given must be a valid instant), then `Instant::add`.
/// Claimed, from its source (`add_duration_to_instant`): the duration is built (it must be accepted);
/// one whose largest unit is a day or larger is refused; otherwise its time
/// in nanoseconds is added and the sum must be a valid instant (a time
/// beyond `MAX_TIME_DURATION`, refused on the way, could not give one).
#[verifier::external_body]
fn outside_instant_add(ns: i128, d: &Duration) -> (r: Result<i128, temporal_rs::TemporalError>)
    requires instant_in_range(ns as int),
    ensures
        match r {
            Ok(v) => instant_plus(ns as int, *d, time_ns(*d)) == Some(v),
            Err(_) => instant_plus(ns as int, *d, time_ns(*d)) is None,
        },
{
    Ok(TemporalInstant::try_new(ns)?.add(&to_temporal_duration(d)?)?.epoch_nanoseconds().as_i128())
}

/// Subtracts a duration from an instant.
///
/// Calls `temporal_rs::Instant::subtract`, which adds the negated duration.
/// Claimed as for `outside_instant_add`, with the time taken away.
#[verifier::external_body]
fn outside_instant_subtract(ns: i128, d: &Duration) -> (r: Result<i128, temporal_rs::TemporalError>)
    requires instant_in_range(ns as int),
    ensures
        match r {
            Ok(v) => instant_plus(ns as int, *d, -time_ns(*d)) == Some(v),
            Err(_) => instant_plus(ns as int, *d, -time_ns(*d)) is None,
        },
{
    Ok(TemporalInstant::try_new(ns)?.subtract(&to_temporal_duration(d)?)?.epoch_nanoseconds().as_i128())
}

/// Moves an instant forward by a duration without calendar units.
pub fn instant_add(inst: Instant, dur: Duration) -> (r: Result<Instant, Error>)
    ensures
        match r {
            Ok(i) => instant_plus(inst@ as int, dur, time_ns(dur)) == Some(i@),
            Err(e) => instant_plus(inst@ as int, dur, time_ns(dur)) is None && e is Temporal,
        },
{
    proof { use_type_invariant(&inst); }
    match outside_instant_add(inst.epoch_ns, &dur) {
        Ok(v) => Ok(Instant { epoch_ns: v }),
        Err(e) => Err(from_temporal_error(e)),
    }
}

/// Moves an instant back by a duration without calendar units.
pub fn instant_subtract(inst: Instant, dur: Duration) -> (r: Result<Instant, Error>)
    ensures
        match r {
            Ok(i) => instant_plus(inst@ as int, dur, -time_ns(dur)) == Some(i@),
            Err(e) => instant_plus(inst@ as int, dur, -time_ns(dur)) is None && e is Temporal,
        },
{
    proof { use_type_invariant(&inst); }
    match outside_instant_subtract(inst.epoch_ns, &dur) {
        Ok(v) => Ok(Instant { epoch_ns: v }),
        Err(e) => Err(from_temporal_error(e)),
    }
}

/// The duration from one instant to another.
///
/// Calls `temporal_rs::Instant::until` with the default settings. Claimed,
/// from its source (`diff_instant`): the difference `b - a` is balanced with
/// seconds as the largest unit; for two valid instants it never fails (the
/// difference is far below the time-duration bound, and the balanced fields
/// form an accepted duration).
#[verifier::external_body]
fn outside_instant_until(a: i128, b: i128) -> (r: Result<Duration, temporal_rs::TemporalError>)
    requires instant_in_range(a as int), instant_in_range(b as int),
    ensures
        r is Ok,
        r matches Ok(d) ==> d == balance_time(b - a, 3),
{
    let t = TemporalInstant::try_new(a)?.until(&TemporalInstant::try_new(b)?, Default::default())?;
    Ok(Duration { years: t.years(), months: t.months(), weeks: t.weeks(), days: t.days(),
        hours: t.hours(), minutes: t.minutes(), seconds: t.seconds(),
        milliseconds: t.milliseconds(), microseconds: t.microseconds(), nanoseconds: t.nanoseconds() })
}

/// The duration elapsed since one instant.
///
/// Calls `temporal_rs::Instant::since` with the default settings. Claimed,
/// from its source: the same difference as `until` (`b - a`), balanced in
/// seconds, then negated; it never fails for valid instants.
#[verifier::external_body]
fn outside_instant_since(a: i128, b: i128) -> (r: Result<Duration, temporal_rs::TemporalError>)
    requires instant_in_range(a as int), instant_in_range(b as int),
    ensures
        r is Ok,
        r matches Ok(d) ==> d == negate(balance_time(b - a, 3)),
{
    let t = TemporalInstant::try_new(a)?.since(&TemporalInstant::try_new(b)?, Default::default())?;
    Ok(Duration { years: t.years(), months: t.months(), weeks: t.weeks(), days: t.days(),
        hours: t.hours(), minutes: t.minutes(), seconds: t.seconds(),
        milliseconds: t.milliseconds(), microseconds: t.microseconds(), nanoseconds: t.nanoseconds() })
}

/// The duration from `inst` to `other`, in seconds and smaller units
/// (a two-hour gap is `PT7200S`).
pub fn instant_until(inst: Instant, other: Instant) -> (r: Duration)
    ensures r == balance_time(other@ - inst@, 3),
{
    proof { use_type_invariant(&inst); use_type_invariant(&other); }
    match outside_instant_until(inst.epoch_ns, other.epoch_ns) {
        Ok(d) => d,
        Err(_) => { proof { assert(false); } Duration { years: 0, months: 0, weeks: 0, days: 0,
            hours: 0, minutes: 0, seconds: 0, milliseconds: 0, microseconds: 0, nanoseconds: 0 } }
    }
}

/// The duration elapsed from `other` to `inst`, in seconds and smaller units.
pub fn instant_since(inst: Instant, other: Instant) -> (r: Duration)
    ensures r == negate(balance_time(other@ - inst@, 3)),
{
    proof { use_type_invariant(&inst); use_type_invariant(&other); }
    match outside_instant_since(inst.epoch_ns, other.epoch_ns) {
        Ok(d) => d,
        Err(_) => { proof { assert(false); } Duration { years: 0, months: 0, weeks: 0, days: 0,
            hours: 0, minutes: 0, seconds: 0, milliseconds: 0, microseconds: 0, nanoseconds: 0 } }
    }
}

// ---------------------------------------------------------------------------
// PostgreSQL timestamptz
// ---------------------------------------------------------------------------

/// Integer division truncating toward zero, as Rust's `/` on integers.
pub open spec fn div_toward_zero(a: int, b: int) -> int {
    if a >= 0 { a / b } else { -((-a) / b) }
}

/// The instant for a PostgreSQL `timestamptz` value (microseconds since
/// 2000-01-01T00:00:00Z).
pub fn timestamptz_to_instant(pg_us: i64) -> (r: Result<Instant, Error>)
    ensures
        r is Ok == instant_in_range(pg_us * 1000 + PG_EPOCH_UNIX_NS),
        r matches Ok(i) ==> i@ == pg_us * 1000 + PG_EPOCH_UNIX_NS,
{
    let unix_ns: i128 = pg_us as i128 * 1000 + PG_EPOCH_UNIX_NS;
    instant_from_epoch_ns(unix_ns)
}

/// The PostgreSQL `timestamptz` value (microseconds since 2000-01-01) of an
/// instant; nanoseconds below the microsecond are dropped toward zero.
pub fn instant_to_timestamptz(inst: Instant) -> (r: i64)
    ensures r as int == div_toward_zero(inst@ - PG_EPOCH_UNIX_NS, 1000),
{
    proof { use_type_invariant(&inst); }
    let d: i128 = inst.epoch_ns - PG_EPOCH_UNIX_NS;
    let q: i128 = if d >= 0 { d / 1000 } else { -((-d) / 1000) };
    q as i64
}

// ---------------------------------------------------------------------------
// Laws
// ---------------------------------------------------------------------------

/// Subtracting a duration undoes adding it: when `instant_add` moves an
/// instant, `instant_subtract` with the same duration moves it back.
pub proof fn lemma_instant_add_subtract(ns: i128, d: Duration)
    requires instant_in_range(ns as int),
    ensures
        instant_plus(ns as int, d, time_ns(d)) matches Some(m)
            ==> instant_plus(m as int, d, -time_ns(d)) == Some(ns),
{
}

/// The duration from `a` to `b` is the duration `b` has elapsed since `a`:
/// `instant_until(a, b)` equals `instant_since(b, a)`.
pub proof fn lemma_instant_until_is_since_reversed(a: i128, b: i128)
    requires instant_in_range(a as int), instant_in_range(b as int),
    ensures balance_time(b - a, 3) == negate(balance_time(a - b, 3)),
{
    lemma_balance_time_negate(a - b, 3);
    lemma_negate_involution(balance_time(b - a, 3));
}

/// A `timestamptz` cast to an instant and back is unchanged.
pub proof fn lemma_timestamptz_round_trip(pg_us: i64)
    ensures div_toward_zero((pg_us * 1000 + PG_EPOCH_UNIX_NS) - PG_EPOCH_UNIX_NS, 1000) == pg_us,
{
    let x = pg_us as int;
    if x >= 0 {
        assert((x * 1000) / 1000 == x) by (nonlinear_arith);
    } else {
        assert((-(x * 1000)) / 1000 == -x) by (nonlinear_arith) requires x < 0;
    }
}

} // verus!
