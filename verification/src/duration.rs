//! `Duration`: a vector of calendar and time components, stored without
//! normalization, as Temporal defines it.
use vstd::prelude::*;
use temporal_rs::Duration as TemporalDuration;
use crate::error::{Error, from_temporal_error};
use crate::text::{decimal_of_int, i128_to_text};

verus! {

/// The `temporal_rs` duration, carried opaquely.
#[verifier::external_type_specification]
#[verifier::external_body]
pub struct ExTemporalDuration(TemporalDuration);

/// The largest magnitude of a time duration in nanoseconds (2^53 seconds, less one nanosecond).
pub const MAX_TIME_DURATION: i128 = 9_007_199_254_740_991_999_999_999i128;

/// A Temporal duration. Every field is stored as given; a valid duration has
/// all its non-zero fields of one sign.
#[derive(Clone, Copy, Debug, PartialEq, Eq, Structural)]
pub struct Duration {
    pub years: i64,
    pub months: i64,
    pub weeks: i64,
    pub days: i64,
    pub hours: i64,
    pub minutes: i64,
    pub seconds: i64,
    pub milliseconds: i64,
    pub microseconds: i128,
    pub nanoseconds: i128,
}

/// The time fields of `d` in nanoseconds (hours through nanoseconds).
pub open spec fn time_ns(d: Duration) -> int {
    d.hours * 3_600_000_000_000 + d.minutes * 60_000_000_000 + d.seconds * 1_000_000_000
        + d.milliseconds * 1_000_000 + d.microseconds * 1_000 + d.nanoseconds
}

/// The time fields of `d` plus its days taken as 24 hours, in nanoseconds.
pub open spec fn day_time_ns(d: Duration) -> int {
    d.days * 86_400_000_000_000 + time_ns(d)
}

/// Whether all non-zero fields of `d` share one sign.
pub open spec fn sign_uniform(d: Duration) -> bool {
    (d.years >= 0 && d.months >= 0 && d.weeks >= 0 && d.days >= 0 && d.hours >= 0 && d.minutes >= 0
        && d.seconds >= 0 && d.milliseconds >= 0 && d.microseconds >= 0 && d.nanoseconds >= 0)
    || (d.years <= 0 && d.months <= 0 && d.weeks <= 0 && d.days <= 0 && d.hours <= 0 && d.minutes <= 0
        && d.seconds <= 0 && d.milliseconds <= 0 && d.microseconds <= 0 && d.nanoseconds <= 0)
}

/// Whether `d` has years, months, weeks or days.
pub open spec fn has_calendar_units(d: Duration) -> bool {
    d.years != 0 || d.months != 0 || d.weeks != 0 || d.days != 0
}

/// Whether `d` has years, months or weeks (units whose length needs a reference date).
pub open spec fn has_ymw_units(d: Duration) -> bool {
    d.years != 0 || d.months != 0 || d.weeks != 0
}

/// -1, 0 or 1 for an integer.
pub open spec fn signum(v: int) -> int {
    if v < 0 { -1 } else if v > 0 { 1 } else { 0 }
}

/// The sign of the first non-zero field of `d`, from years down; 0 when all are zero.
pub open spec fn sign_of(d: Duration) -> int {
    if d.years != 0 { signum(d.years as int) }
    else if d.months != 0 { signum(d.months as int) }
    else if d.weeks != 0 { signum(d.weeks as int) }
    else if d.days != 0 { signum(d.days as int) }
    else if d.hours != 0 { signum(d.hours as int) }
    else if d.minutes != 0 { signum(d.minutes as int) }
    else if d.seconds != 0 { signum(d.seconds as int) }
    else if d.milliseconds != 0 { signum(d.milliseconds as int) }
    else if d.microseconds != 0 { signum(d.microseconds as int) }
    else { signum(d.nanoseconds as int) }
}

/// Whether every field of `d` is zero.
pub open spec fn is_blank(d: Duration) -> bool {
    d.years == 0 && d.months == 0 && d.weeks == 0 && d.days == 0 && d.hours == 0 && d.minutes == 0
        && d.seconds == 0 && d.milliseconds == 0 && d.microseconds == 0 && d.nanoseconds == 0
}

/// The magnitude bounds that every duration accepted by `temporal_rs` keeps.
pub open spec fn within_duration_limits(d: Duration) -> bool {
    &&& -4_294_967_295 <= d.years <= 4_294_967_295
    &&& -4_294_967_295 <= d.months <= 4_294_967_295
    &&& -4_294_967_295 <= d.weeks <= 4_294_967_295
    &&& -0x8000_0000_0000 < d.days < 0x8000_0000_0000
    &&& -0x8000_0000_0000 < d.hours < 0x8000_0000_0000
    &&& -0x20_0000_0000_0000 < d.minutes < 0x20_0000_0000_0000
    &&& -0x40_0000_0000_0000 < d.seconds < 0x40_0000_0000_0000
    &&& i64::MIN < d.milliseconds
    &&& -0x200_0000_0000_0000_0000 < d.microseconds < 0x200_0000_0000_0000_0000
    &&& -0x8_0000_0000_0000_0000_0000 < d.nanoseconds < 0x8_0000_0000_0000_0000_0000
}

/// Every field of `d` has magnitude at most 2^31.
pub open spec fn small_fields(d: Duration) -> bool {
    &&& -0x8000_0000 <= d.years <= 0x8000_0000
    &&& -0x8000_0000 <= d.months <= 0x8000_0000
    &&& -0x8000_0000 <= d.weeks <= 0x8000_0000
    &&& -0x8000_0000 <= d.days <= 0x8000_0000
    &&& -0x8000_0000 <= d.hours <= 0x8000_0000
    &&& -0x8000_0000 <= d.minutes <= 0x8000_0000
    &&& -0x8000_0000 <= d.seconds <= 0x8000_0000
    &&& -0x8000_0000 <= d.milliseconds <= 0x8000_0000
    &&& -0x8000_0000 <= d.microseconds <= 0x8000_0000
    &&& -0x8000_0000 <= d.nanoseconds <= 0x8000_0000
}

/// Whether `temporal_rs` accepts the fields of `d` as a duration
/// (`Duration::new` succeeds): Temporal's `IsValidDuration`, computed in part
/// through floating point.
pub uninterp spec fn temporal_accepts_duration(d: Duration) -> bool;

/// Builds the `temporal_rs` duration for `d`.
///
/// Calls `temporal_rs::Duration::new`. Claimed: it succeeds exactly when
/// `temporal_accepts_duration(d)`; an accepted duration has uniform sign and
/// stays within `within_duration_limits` (the sign test and the magnitude
/// tests of `is_valid_duration`); a sign-uniform duration whose fields are
/// all at most 2^31 in magnitude is accepted (its normalized seconds are far
/// below 2^53 and every field converts to `f64` exactly); and the test does
/// not depend on the sign: the negation of `d` is accepted exactly when `d`
/// is, and so is the all-positive form of an accepted `d`.
#[verifier::external_body]
pub(crate) fn to_temporal_duration(d: &Duration) -> (r: Result<TemporalDuration, temporal_rs::TemporalError>)
    ensures
        r is Ok == temporal_accepts_duration(*d),
        r is Ok ==> sign_uniform(*d) && within_duration_limits(*d),
        sign_uniform(*d) && small_fields(*d) ==> r is Ok,
        temporal_accepts_duration(negate(*d)) == r is Ok,
        r is Ok ==> temporal_accepts_duration(abs_duration(*d)),
{
    TemporalDuration::new(d.years, d.months, d.weeks, d.days, d.hours, d.minutes, d.seconds,
        d.milliseconds, d.microseconds, d.nanoseconds)
}

/// The ten fields of a `temporal_rs` duration, read with its getters.
#[verifier::external_body]
pub(crate) fn from_temporal_duration(t: &TemporalDuration) -> Duration {
    Duration { years: t.years(), months: t.months(), weeks: t.weeks(), days: t.days(),
        hours: t.hours(), minutes: t.minutes(), seconds: t.seconds(),
        milliseconds: t.milliseconds(), microseconds: t.microseconds(), nanoseconds: t.nanoseconds() }
}

/// Checks that `temporal_rs` accepts `d`.
pub fn check_duration(d: &Duration) -> (r: Result<(), Error>)
    ensures
        r matches Err(e) ==> e is Temporal,
        r is Ok == temporal_accepts_duration(*d),
        r is Ok ==> sign_uniform(*d) && within_duration_limits(*d),
        sign_uniform(*d) && small_fields(*d) ==> r is Ok,
{
    match to_temporal_duration(d) {
        Ok(_) => Ok(()),
        Err(e) => Err(from_temporal_error(e)),
    }
}

// ---------------------------------------------------------------------------
// Accessors
// ---------------------------------------------------------------------------

/// The years component (signed).
pub fn duration_years(d: Duration) -> (r: i64)
    ensures r == d.years,
{
    d.years
}

/// The months component (signed).
pub fn duration_months(d: Duration) -> (r: i64)
    ensures r == d.months,
{
    d.months
}

/// The weeks component (signed).
pub fn duration_weeks(d: Duration) -> (r: i64)
    ensures r == d.weeks,
{
    d.weeks
}

/// The days component (signed).
pub fn duration_days(d: Duration) -> (r: i64)
    ensures r == d.days,
{
    d.days
}

/// The hours component (signed).
pub fn duration_hours(d: Duration) -> (r: i64)
    ensures r == d.hours,
{
    d.hours
}

/// The minutes component (signed).
pub fn duration_minutes(d: Duration) -> (r: i64)
    ensures r == d.minutes,
{
    d.minutes
}

/// The seconds component (signed).
pub fn duration_seconds(d: Duration) -> (r: i64)
    ensures r == d.seconds,
{
    d.seconds
}

/// The milliseconds component (signed).
pub fn duration_milliseconds(d: Duration) -> (r: i64)
    ensures r == d.milliseconds,
{
    d.milliseconds
}

/// The microseconds component as decimal text (SQL has no 128-bit integer).
pub fn duration_microseconds(d: Duration) -> (r: String)
    ensures r@ == decimal_of_int(d.microseconds as int),
{
    i128_to_text(d.microseconds)
}

/// The nanoseconds component as decimal text (SQL has no 128-bit integer).
pub fn duration_nanoseconds(d: Duration) -> (r: String)
    ensures r@ == decimal_of_int(d.nanoseconds as int),
{
    i128_to_text(d.nanoseconds)
}

// ---------------------------------------------------------------------------
// Sign, negation, absolute value
// ---------------------------------------------------------------------------

/// -1, 0 or 1: the sign of the first non-zero component, from years down.
pub fn duration_sign(d: Duration) -> (r: i32)
    ensures r as int == sign_of(d),
{
    if d.years != 0 { return if d.years < 0 { -1 } else { 1 }; }
    if d.months != 0 { return if d.months < 0 { -1 } else { 1 }; }
    if d.weeks != 0 { return if d.weeks < 0 { -1 } else { 1 }; }
    if d.days != 0 { return if d.days < 0 { -1 } else { 1 }; }
    if d.hours != 0 { return if d.hours < 0 { -1 } else { 1 }; }
    if d.minutes != 0 { return if d.minutes < 0 { -1 } else { 1 }; }
    if d.seconds != 0 { return if d.seconds < 0 { -1 } else { 1 }; }
    if d.milliseconds != 0 { return if d.milliseconds < 0 { -1 } else { 1 }; }
    if d.microseconds != 0 { return if d.microseconds < 0 { -1 } else { 1 }; }
    if d.nanoseconds != 0 { return if d.nanoseconds < 0 { -1 } else { 1 }; }
    0
}

/// Whether every component is zero (Temporal's `Duration.blank`).
pub fn duration_is_zero(d: Duration) -> (r: bool)
    ensures
        r == (sign_of(d) == 0),
        r == is_blank(d),
{
    duration_sign(d) == 0
}

/// Whether the duration has years, months, weeks or days.
pub fn has_calendar_components(d: Duration) -> (r: bool)
    ensures r == has_calendar_units(d),
{
    d.years != 0 || d.months != 0 || d.weeks != 0 || d.days != 0
}

/// `d` with the sign of every field flipped.
pub open spec fn negate(d: Duration) -> Duration {
    Duration {
        years: (-d.years) as i64, months: (-d.months) as i64, weeks: (-d.weeks) as i64,
        days: (-d.days) as i64, hours: (-d.hours) as i64, minutes: (-d.minutes) as i64,
        seconds: (-d.seconds) as i64, milliseconds: (-d.milliseconds) as i64,
        microseconds: (-d.microseconds) as i128, nanoseconds: (-d.nanoseconds) as i128,
    }
}

/// Magnitude of a 64-bit field.
pub open spec fn abs64(v: i64) -> i64 {
    if v < 0 { (-v) as i64 } else { v }
}

/// Magnitude of a 128-bit field.
pub open spec fn abs128(v: i128) -> i128 {
    if v < 0 { (-v) as i128 } else { v }
}

/// `d` with every field made non-negative.
pub open spec fn abs_duration(d: Duration) -> Duration {
    Duration {
        years: abs64(d.years), months: abs64(d.months), weeks: abs64(d.weeks), days: abs64(d.days),
        hours: abs64(d.hours), minutes: abs64(d.minutes), seconds: abs64(d.seconds),
        milliseconds: abs64(d.milliseconds), microseconds: abs128(d.microseconds),
        nanoseconds: abs128(d.nanoseconds),
    }
}

/// Negating a duration twice gives it back (each field's negation wraps as
/// two's complement, so even the least value is restored).
pub proof fn lemma_negate_involution(d: Duration)
    ensures negate(negate(d)) == d,
{
    assert forall|x: i64| #[trigger] ((-((-x) as i64)) as i64) == x by {
        assert(((-((-x) as i64)) as i64) == x) by (bit_vector);
    }
    assert forall|x: i128| #[trigger] ((-((-x) as i128)) as i128) == x by {
        assert(((-((-x) as i128)) as i128) == x) by (bit_vector);
    }
}

/// Negating a duration within the limits every accepted duration keeps
/// flips its sign.
pub proof fn lemma_sign_of_negate(d: Duration)
    requires within_duration_limits(d),
    ensures sign_of(negate(d)) == -sign_of(d),
{
}

/// The absolute value of a duration within the limits has no negative
/// field, so its sign is never negative; it is the duration itself or its
/// negation, for a duration whose fields share one sign.
pub proof fn lemma_abs_duration(d: Duration)
    requires within_duration_limits(d),
    ensures
        abs_duration(d).years >= 0 && abs_duration(d).months >= 0 && abs_duration(d).weeks >= 0
            && abs_duration(d).days >= 0 && abs_duration(d).hours >= 0 && abs_duration(d).minutes >= 0
            && abs_duration(d).seconds >= 0 && abs_duration(d).milliseconds >= 0
            && abs_duration(d).microseconds >= 0 && abs_duration(d).nanoseconds >= 0,
        sign_of(abs_duration(d)) >= 0,
        sign_uniform(d) ==> abs_duration(d) == (if sign_of(d) < 0 { negate(d) } else { d }),
{
}

fn negate_exec(d: &Duration) -> (r: Duration)
    requires within_duration_limits(*d), d.hours > i64::MIN, d.days > i64::MIN,
    ensures r == negate(*d),
{
    Duration {
        years: -d.years, months: -d.months, weeks: -d.weeks, days: -d.days, hours: -d.hours,
        minutes: -d.minutes, seconds: -d.seconds, milliseconds: -d.milliseconds,
        microseconds: -d.microseconds, nanoseconds: -d.nanoseconds,
    }
}

/// The duration with the sign of every component flipped. Fails, as
/// reconstructing it in `temporal_rs` does, when `d` is not a valid duration.
pub fn duration_negated(d: Duration) -> (r: Result<Duration, Error>)
    ensures
        r is Ok == temporal_accepts_duration(d),
        r matches Ok(v) ==> v == negate(d),
{
    check_duration(&d)?;
    Ok(negate_exec(&d))
}

/// The duration with every component made non-negative. Fails when `d` is
/// not a valid duration.
pub fn duration_abs(d: Duration) -> (r: Result<Duration, Error>)
    ensures
        r is Ok == temporal_accepts_duration(d),
        r matches Ok(v) ==> v == abs_duration(d),
{
    check_duration(&d)?;
    if duration_sign(d) < 0 {
        Ok(negate_exec(&d))
    } else {
        Ok(d)
    }
}


// ---------------------------------------------------------------------------
// Text form
// ---------------------------------------------------------------------------

/// The duration `temporal_rs` reads from ISO 8601 duration text, if it reads one.
pub uninterp spec fn temporal_duration_from_text(text: Seq<char>) -> Option<Duration>;

/// The ISO 8601 text `temporal_rs` writes for a duration, if it writes one.
pub uninterp spec fn temporal_duration_text(d: Duration) -> Option<Seq<char>>;

/// Whether each sub-second field of `d` is under a thousand in magnitude, as
/// in every duration read from text.
pub open spec fn subseconds_balanced(d: Duration) -> bool {
    &&& -1000 < d.milliseconds < 1000
    &&& -1000 < d.microseconds < 1000
    &&& -1000 < d.nanoseconds < 1000
}

/// Reads ISO 8601 duration text.
///
/// Calls `temporal_rs::Duration::from_utf8` and reads back the ten signed
/// fields. Claimed: the result is `temporal_duration_from_text` of the text,
/// and a duration read is accepted (the parser builds it with `Duration::new`)
/// and has its sub-seconds balanced (the fraction of the last unit, at most
/// nine digits, is split into seconds, then milliseconds, microseconds and
/// nanoseconds by Euclidean division by a thousand).
#[verifier::external_body]
fn outside_duration_from_text(text: &str) -> (r: Result<Duration, temporal_rs::TemporalError>)
    ensures
        match r {
            Ok(d) => temporal_duration_from_text(text@) == Some(d) && temporal_accepts_duration(d)
                && subseconds_balanced(d),
            Err(_) => temporal_duration_from_text(text@) is None,
        },
{
    let t = TemporalDuration::from_utf8(text.as_bytes())?;
    Ok(Duration { years: t.years(), months: t.months(), weeks: t.weeks(), days: t.days(),
        hours: t.hours(), minutes: t.minutes(), seconds: t.seconds(),
        milliseconds: t.milliseconds(), microseconds: t.microseconds(), nanoseconds: t.nanoseconds() })
}

/// Writes a duration as ISO 8601 text.
///
/// Calls `temporal_rs::Duration::as_temporal_string` with the default options
/// on the duration built from `d`. Claimed: the result is
/// `temporal_duration_text(d)`, and there is one exactly when `d` is accepted
/// (with the default options `duration_to_formattable` cannot fail). From
/// its source, the text holds the sign, the non-zero date units, hours and
/// minutes as written, and the seconds with the sub-second fields as a
/// fraction of at most nine digits; so when those fields are balanced,
/// `from_utf8` reads the text back as `d`.
#[verifier::external_body]
fn outside_duration_text(d: &Duration) -> (r: Result<String, temporal_rs::TemporalError>)
    ensures
        match r {
            Ok(t) => temporal_duration_text(*d) == Some(t@),
            Err(_) => temporal_duration_text(*d) is None,
        },
        r is Ok == temporal_accepts_duration(*d),
        r matches Ok(t) ==> (subseconds_balanced(*d) ==> temporal_duration_from_text(t@) == Some(*d)),
{
    to_temporal_duration(d)?.as_temporal_string(temporal_rs::options::ToStringRoundingOptions::default())
}

impl Duration {
    /// Reads a duration from ISO 8601 text such as `P1Y2M3DT4H5M6S`,
    /// `PT0.000000001S` or `-P1Y`.
    pub fn parse(text: &str) -> (r: Result<Duration, Error>)
        ensures
            match r {
                Ok(d) => temporal_duration_from_text(text@) == Some(d) && temporal_accepts_duration(d)
                    && subseconds_balanced(d),
                Err(e) => temporal_duration_from_text(text@) is None && e is Temporal,
            },
    {
        match outside_duration_from_text(text) {
            Ok(d) => Ok(d),
            Err(e) => Err(from_temporal_error(e)),
        }
    }

    /// The ISO 8601 text of the duration.
    pub fn to_text(&self) -> (r: Result<String, Error>)
        ensures
            match r {
                Ok(t) => temporal_duration_text(*self) == Some(t@),
                Err(e) => temporal_duration_text(*self) is None && e is Temporal,
            },
            r is Ok == temporal_accepts_duration(*self),
            r matches Ok(t) ==> (subseconds_balanced(*self) ==> temporal_duration_from_text(t@) == Some(*self)),
    {
        match outside_duration_text(self) {
            Ok(t) => Ok(t),
            Err(e) => Err(from_temporal_error(e)),
        }
    }
}

// ---------------------------------------------------------------------------
// Time-only arithmetic
// ---------------------------------------------------------------------------

/// The rank of the largest non-zero time field of `d` (5 hours, 4 minutes,
/// 3 seconds, 2 milliseconds, 1 microseconds, 0 nanoseconds or none).
pub open spec fn largest_time_rank(d: Duration) -> int {
    if d.hours != 0 { 5 } else if d.minutes != 0 { 4 } else if d.seconds != 0 { 3 }
    else if d.milliseconds != 0 { 2 } else if d.microseconds != 0 { 1 } else { 0 }
}

/// The larger of two ranks.
pub open spec fn max_rank(a: int, b: int) -> int {
    if a >= b { a } else { b }
}

/// A time duration of `t` nanoseconds spread over the units from the one of
/// rank `largest` down, each field below the largest reduced to its natural
/// range (Temporal's `BalanceTimeDuration`); all fields carry the sign of `t`.
pub open spec fn balance_time(t: int, largest: int) -> Duration {
    let sg = if t < 0 { -1int } else { 1int };
    let n = if t < 0 { -t } else { t };
    let hours = if largest >= 5 { n / 3_600_000_000_000 } else { 0 };
    let minutes = if largest >= 5 { (n / 60_000_000_000) % 60 }
        else if largest == 4 { n / 60_000_000_000 } else { 0 };
    let seconds = if largest >= 4 { (n / 1_000_000_000) % 60 }
        else if largest == 3 { n / 1_000_000_000 } else { 0 };
    let millis = if largest >= 3 { (n / 1_000_000) % 1000 }
        else if largest == 2 { n / 1_000_000 } else { 0 };
    let micros = if largest >= 2 { (n / 1000) % 1000 } else if largest == 1 { n / 1000 } else { 0 };
    let nanos = if largest >= 1 { n % 1000 } else { n };
    Duration {
        years: 0, months: 0, weeks: 0, days: 0,
        hours: (sg * hours) as i64, minutes: (sg * minutes) as i64, seconds: (sg * seconds) as i64,
        milliseconds: (sg * millis) as i64, microseconds: (sg * micros) as i128,
        nanoseconds: (sg * nanos) as i128,
    }
}

/// The quotients of a time within Temporal's bound by each unit fit the
/// fields that hold them.
proof fn lemma_time_quotients(n: int)
    requires 0 <= n <= MAX_TIME_DURATION,
    ensures
        0 <= n / 3_600_000_000_000 <= 2_502_000_000_000,
        0 <= n / 60_000_000_000 <= 150_119_987_579_017,
        0 <= n / 1_000_000_000 <= 9_007_199_254_740_991,
        0 <= n / 1_000_000 <= 9_007_199_254_740_991_999,
        0 <= n / 1000 <= 9_007_199_254_740_991_999_999,
{
    vstd::arithmetic::div_mod::lemma_div_is_ordered(n, MAX_TIME_DURATION as int, 3_600_000_000_000);
    vstd::arithmetic::div_mod::lemma_div_is_ordered(n, MAX_TIME_DURATION as int, 60_000_000_000);
    vstd::arithmetic::div_mod::lemma_div_is_ordered(n, MAX_TIME_DURATION as int, 1_000_000_000);
    vstd::arithmetic::div_mod::lemma_div_is_ordered(n, MAX_TIME_DURATION as int, 1_000_000);
    vstd::arithmetic::div_mod::lemma_div_is_ordered(n, MAX_TIME_DURATION as int, 1000);
    vstd::arithmetic::div_mod::lemma_div_pos_is_pos(n, 3_600_000_000_000);
    vstd::arithmetic::div_mod::lemma_div_pos_is_pos(n, 60_000_000_000);
    vstd::arithmetic::div_mod::lemma_div_pos_is_pos(n, 1_000_000_000);
    vstd::arithmetic::div_mod::lemma_div_pos_is_pos(n, 1_000_000);
    vstd::arithmetic::div_mod::lemma_div_pos_is_pos(n, 1000);
}

/// A field value and its opposite, each cast to a 64-bit field.
proof fn lemma_opposite_i64(x: int)
    requires 0 <= x <= 9_007_199_254_740_991_999,
    ensures ((-1int) * x) as i64 == (-((1int * x) as i64)) as i64,
{
}

/// A field value and its opposite, each cast to a 128-bit field.
proof fn lemma_opposite_i128(x: int)
    requires 0 <= x <= 9_007_199_254_740_991_999_999_999,
    ensures ((-1int) * x) as i128 == (-((1int * x) as i128)) as i128,
{
}

/// Balancing a negative time gives the negation of balancing its size.
proof fn lemma_balance_time_opposite(n: int, largest: int)
    requires 0 < n <= MAX_TIME_DURATION,
    ensures balance_time(-n, largest) == negate(balance_time(n, largest)),
{
    lemma_time_quotients(n);
    let hours = if largest >= 5 { n / 3_600_000_000_000 } else { 0 };
    let minutes = if largest >= 5 { (n / 60_000_000_000) % 60 }
        else if largest == 4 { n / 60_000_000_000 } else { 0 };
    let seconds = if largest >= 4 { (n / 1_000_000_000) % 60 }
        else if largest == 3 { n / 1_000_000_000 } else { 0 };
    let millis = if largest >= 3 { (n / 1_000_000) % 1000 }
        else if largest == 2 { n / 1_000_000 } else { 0 };
    let micros = if largest >= 2 { (n / 1000) % 1000 } else if largest == 1 { n / 1000 } else { 0 };
    let nanos = if largest >= 1 { n % 1000 } else { n };
    lemma_opposite_i64(hours);
    lemma_opposite_i64(minutes);
    lemma_opposite_i64(seconds);
    lemma_opposite_i64(millis);
    lemma_opposite_i128(micros);
    lemma_opposite_i128(nanos);
}

/// Balancing the opposite time gives the negated duration: every field
/// changes sign, none changes size (for a time within Temporal's bound,
/// where every field fits its type).
pub proof fn lemma_balance_time_negate(t: int, largest: int)
    requires time_within_bound(t),
    ensures balance_time(-t, largest) == negate(balance_time(t, largest)),
{
    if t > 0 {
        lemma_balance_time_opposite(t, largest);
    } else if t < 0 {
        lemma_balance_time_opposite(-t, largest);
        lemma_negate_involution(balance_time(t, largest));
    }
}

/// The length of a non-negative balanced time, unit by unit.
proof fn lemma_balance_time_length_nonneg(n: int, largest: int)
    requires 0 <= n <= MAX_TIME_DURATION,
    ensures time_ns(balance_time(n, largest)) == n,
{
    lemma_time_quotients(n);
    let q1 = n / 1000;
    let q2 = n / 1_000_000;
    let q3 = n / 1_000_000_000;
    let q4 = n / 60_000_000_000;
    let q5 = n / 3_600_000_000_000;
    vstd::arithmetic::div_mod::lemma_div_denominator(n, 1000, 1000);
    vstd::arithmetic::div_mod::lemma_div_denominator(n, 1_000_000, 1000);
    vstd::arithmetic::div_mod::lemma_div_denominator(n, 1_000_000_000, 60);
    vstd::arithmetic::div_mod::lemma_div_denominator(n, 60_000_000_000, 60);
    assert(q1 / 1000 == q2);
    assert(q2 / 1000 == q3);
    assert(q3 / 60 == q4);
    assert(q4 / 60 == q5);
    vstd::arithmetic::div_mod::lemma_fundamental_div_mod(n, 1000);
    vstd::arithmetic::div_mod::lemma_fundamental_div_mod(q1, 1000);
    vstd::arithmetic::div_mod::lemma_fundamental_div_mod(q2, 1000);
    vstd::arithmetic::div_mod::lemma_fundamental_div_mod(q3, 60);
    vstd::arithmetic::div_mod::lemma_fundamental_div_mod(q4, 60);
    vstd::arithmetic::div_mod::lemma_mod_bound(n, 1000);
    vstd::arithmetic::div_mod::lemma_mod_bound(q1, 1000);
    vstd::arithmetic::div_mod::lemma_mod_bound(q2, 1000);
    vstd::arithmetic::div_mod::lemma_mod_bound(q3, 60);
    vstd::arithmetic::div_mod::lemma_mod_bound(q4, 60);
}

/// Balancing a time keeps its length: the balanced duration is exactly the
/// given number of nanoseconds long, whichever largest unit is asked for.
pub proof fn lemma_balance_time_length(t: int, largest: int)
    requires time_within_bound(t),
    ensures time_ns(balance_time(t, largest)) == t,
{
    if t >= 0 {
        lemma_balance_time_length_nonneg(t, largest);
    } else {
        lemma_balance_time_length_nonneg(-t, largest);
        lemma_balance_time_negate(-t, largest);
        lemma_negate_involution(balance_time(t, largest));
        lemma_time_quotients(-t);
    }
}

/// Subtracting time-only durations keeps the length: what it gives is
/// exactly as long as the first duration less the second.
pub proof fn lemma_time_difference_length(a: Duration, b: Duration)
    ensures
        time_sum_result(a, b, time_ns(a) - time_ns(b)) matches Some(v) ==> time_ns(v) == time_ns(a) - time_ns(b),
        time_sum_result(a, b, time_ns(a) + time_ns(b)) matches Some(v) ==> time_ns(v) == time_ns(a) + time_ns(b),
{
    if time_within_bound(time_ns(a) - time_ns(b)) {
        lemma_balance_time_length(time_ns(a) - time_ns(b), max_rank(largest_time_rank(a), largest_time_rank(b)));
    }
    if time_within_bound(time_ns(a) + time_ns(b)) {
        lemma_balance_time_length(time_ns(a) + time_ns(b), max_rank(largest_time_rank(a), largest_time_rank(b)));
    }
}

/// Whether a time duration of `t` nanoseconds is within Temporal's bound.
pub open spec fn time_within_bound(t: int) -> bool {
    -MAX_TIME_DURATION <= t <= MAX_TIME_DURATION
}

/// What adding two time-only durations gives: the balanced sum of their
/// times, in the larger of their largest units, when every step is in range.
pub open spec fn time_sum_result(a: Duration, b: Duration, t: int) -> Option<Duration> {
    let res = balance_time(t, max_rank(largest_time_rank(a), largest_time_rank(b)));
    if temporal_accepts_duration(a) && temporal_accepts_duration(b) && time_within_bound(time_ns(a))
        && time_within_bound(time_ns(b)) && time_within_bound(t) && temporal_accepts_duration(res) {
        Some(res)
    } else {
        None
    }
}

/// Subtracts one duration without calendar units from another.
///
/// Calls `temporal_rs::Duration::subtract`, which adds the negation of `b`.
/// Claimed, from its source: both durations are built (each must be
/// accepted); each one's time in nanoseconds and their difference must stay
/// within `MAX_TIME_DURATION`; the difference is balanced into the larger of
/// the two largest units (`from_internal`), and that duration must itself be
/// accepted.
#[verifier::external_body]
fn outside_time_difference(a: &Duration, b: &Duration) -> (r: Result<Duration, temporal_rs::TemporalError>)
    requires !has_calendar_units(*a), !has_calendar_units(*b),
    ensures
        match r {
            Ok(v) => time_sum_result(*a, *b, time_ns(*a) - time_ns(*b)) == Some(v),
            Err(_) => time_sum_result(*a, *b, time_ns(*a) - time_ns(*b)) is None,
        },
{
    let t = to_temporal_duration(a)?.subtract(&to_temporal_duration(b)?)?;
    Ok(Duration { years: t.years(), months: t.months(), weeks: t.weeks(), days: t.days(),
        hours: t.hours(), minutes: t.minutes(), seconds: t.seconds(),
        milliseconds: t.milliseconds(), microseconds: t.microseconds(), nanoseconds: t.nanoseconds() })
}

/// Whether `v` fits an `i64`.
pub open spec fn fits_i64(v: int) -> bool {
    i64::MIN <= v <= i64::MAX
}

/// Whether `v` fits an `i128`.
pub open spec fn fits_i128(v: int) -> bool {
    i128::MIN <= v <= i128::MAX
}

/// The field-by-field sum of two durations, when each sum fits its field.
pub open spec fn field_sum(a: Duration, b: Duration) -> Option<Duration> {
    if fits_i64(a.years + b.years) && fits_i64(a.months + b.months) && fits_i64(a.weeks + b.weeks)
        && fits_i64(a.days + b.days) && fits_i64(a.hours + b.hours) && fits_i64(a.minutes + b.minutes)
        && fits_i64(a.seconds + b.seconds) && fits_i64(a.milliseconds + b.milliseconds)
        && fits_i128(a.microseconds + b.microseconds) && fits_i128(a.nanoseconds + b.nanoseconds) {
        Some(Duration {
            years: (a.years + b.years) as i64,
            months: (a.months + b.months) as i64,
            weeks: (a.weeks + b.weeks) as i64,
            days: (a.days + b.days) as i64,
            hours: (a.hours + b.hours) as i64,
            minutes: (a.minutes + b.minutes) as i64,
            seconds: (a.seconds + b.seconds) as i64,
            milliseconds: (a.milliseconds + b.milliseconds) as i64,
            microseconds: (a.microseconds + b.microseconds) as i128,
            nanoseconds: (a.nanoseconds + b.nanoseconds) as i128,
        })
    } else {
        None
    }
}

/// What adding two durations component-wise gives: the field-by-field sum,
/// when both durations are accepted, every field of the sum fits and the
/// sum is itself an accepted duration.
pub open spec fn component_sum_result(a: Duration, b: Duration) -> Option<Duration> {
    if temporal_accepts_duration(a) && temporal_accepts_duration(b) {
        match field_sum(a, b) {
            Some(s) => if temporal_accepts_duration(s) { Some(s) } else { None },
            None => None,
        }
    } else {
        None
    }
}

/// Adding durations component-wise keeps every component: each field of
/// the sum is the sum of the two fields, so the sum is exactly as long as
/// the two durations together.
pub proof fn lemma_component_sum(a: Duration, b: Duration)
    ensures
        component_sum_result(a, b) matches Some(v) ==> {
            &&& time_ns(v) == time_ns(a) + time_ns(b)
            &&& day_time_ns(v) == day_time_ns(a) + day_time_ns(b)
            &&& v.years == a.years + b.years && v.months == a.months + b.months && v.weeks == a.weeks + b.weeks
            &&& v.days == a.days + b.days && v.hours == a.hours + b.hours && v.minutes == a.minutes + b.minutes
            &&& v.seconds == a.seconds + b.seconds && v.milliseconds == a.milliseconds + b.milliseconds
            &&& v.microseconds == a.microseconds + b.microseconds && v.nanoseconds == a.nanoseconds + b.nanoseconds
        },
{
}

/// Adds two time-only durations component-wise: one hour plus ninety
/// minutes is 1 hour 90 minutes, not rebalanced. Durations with years,
/// months, weeks or days need a reference date and are refused; so are
/// durations that are not valid, and a sum whose components have mixed
/// signs or exceed Temporal's limits.
pub fn duration_add(a: Duration, b: Duration) -> (r: Result<Duration, Error>)
    ensures
        (has_calendar_units(a) || has_calendar_units(b)) ==> r matches Err(Error::CalendarComponents),
        !has_calendar_units(a) && !has_calendar_units(b) ==> match component_sum_result(a, b) {
            Some(v) => r == Ok::<Duration, Error>(v),
            None => r is Err,
        },
        !has_calendar_units(a) && !has_calendar_units(b)
            && !(temporal_accepts_duration(a) && temporal_accepts_duration(b)) ==> (r matches Err(e) && e is Temporal),
        r matches Ok(v) ==> time_ns(v) == time_ns(a) + time_ns(b) && v.seconds == a.seconds + b.seconds
            && v.hours == a.hours + b.hours && v.minutes == a.minutes + b.minutes
            && v.milliseconds == a.milliseconds + b.milliseconds
            && v.microseconds == a.microseconds + b.microseconds && v.nanoseconds == a.nanoseconds + b.nanoseconds,
{
    if has_calendar_components(a) || has_calendar_components(b) {
        return Err(Error::CalendarComponents);
    }
    check_duration(&a)?;
    check_duration(&b)?;
    let milliseconds = match a.milliseconds.checked_add(b.milliseconds) {
        Some(v) => v,
        None => { return Err(Error::DurationOutOfRange); },
    };
    let s = Duration {
        years: a.years + b.years,
        months: a.months + b.months,
        weeks: a.weeks + b.weeks,
        days: a.days + b.days,
        hours: a.hours + b.hours,
        minutes: a.minutes + b.minutes,
        seconds: a.seconds + b.seconds,
        milliseconds,
        microseconds: a.microseconds + b.microseconds,
        nanoseconds: a.nanoseconds + b.nanoseconds,
    };
    check_duration(&s)?;
    Ok(s)
}

/// Subtracts one time-only duration from another. Durations with years,
/// months, weeks or days need a reference date and are refused.
pub fn duration_subtract(a: Duration, b: Duration) -> (r: Result<Duration, Error>)
    ensures
        (has_calendar_units(a) || has_calendar_units(b)) ==> r matches Err(Error::CalendarComponents),
        !has_calendar_units(a) && !has_calendar_units(b) ==> match r {
            Ok(v) => time_sum_result(a, b, time_ns(a) - time_ns(b)) == Some(v),
            Err(e) => time_sum_result(a, b, time_ns(a) - time_ns(b)) is None && e is Temporal,
        },
        r matches Ok(v) ==> time_ns(v) == time_ns(a) - time_ns(b),
{
    if has_calendar_components(a) || has_calendar_components(b) {
        return Err(Error::CalendarComponents);
    }
    proof { lemma_time_difference_length(a, b); }
    match outside_time_difference(&a, &b) {
        Ok(v) => Ok(v),
        Err(e) => Err(from_temporal_error(e)),
    }
}

} // verus!
