//! `ZonedDateTime`: an instant together with the time zone and calendar in
//! which it is read, stored as epoch nanoseconds and two identifiers.
use vstd::prelude::*;
use temporal_rs::{Calendar, TimeZone, ZonedDateTime as TemporalZdt};
use temporal_rs::options::{DisplayCalendar, DisplayOffset, DisplayTimeZone, Disambiguation,
    OffsetDisambiguation, Overflow, ToStringRoundingOptions};
use crate::calendar::{calendar_identifier, temporal_calendar_id};
use crate::duration::{Duration, balance_time, from_temporal_duration, negate, temporal_accepts_duration,
    to_temporal_duration};
use crate::error::{Error, from_temporal_error};
use crate::gucs::DisambiguationGuc;
use crate::instant::instant_in_range;
use crate::order::{compare_text, lemma_lex_order_antisymmetric, lemma_lex_order_transitive,
    lemma_text_order_zero, text_order};
use crate::text::{decimal_of_int, i128_to_text, parse_i128_spec, parse_i128_trimmed, trim_spec};
use vstd::utf8::encode_utf8;

verus! {

/// A zoned date-time as stored: nanoseconds since the Unix epoch, the time
/// zone identifier and the calendar identifier.
#[derive(Clone, Debug)]
pub struct ZonedDateTime {
    pub instant_ns: i128,
    pub tz_id: String,
    pub calendar_id: String,
}

// ---------------------------------------------------------------------------
// Calls into temporal_rs
// ---------------------------------------------------------------------------

/// The identifier of the time zone `temporal_rs` reads from a name
/// (an IANA name or a UTC offset), if it reads one.
pub uninterp spec fn temporal_time_zone_id(text: Seq<char>) -> Option<Seq<char>>;

/// Whether `temporal_rs` rebuilds a zoned date-time from stored fields:
/// the time zone and calendar load, the instant is valid and its UTC offset
/// in the zone is known.
pub uninterp spec fn temporal_zoned_loads(ns: i128, tz: Seq<char>, cal: Seq<char>) -> bool;

/// The epoch nanoseconds, time zone identifier and calendar identifier of
/// the zoned date-time `temporal_rs` reads from text (wall-clock times in a
/// gap or fold resolved as `dis` says), if it reads one.
pub uninterp spec fn temporal_zoned_from_text(text: Seq<char>, dis: DisambiguationGuc) -> Option<(i128, Seq<char>, Seq<char>)>;

/// The text `temporal_rs` writes for stored zoned fields, if it writes one.
pub uninterp spec fn temporal_zoned_text(ns: i128, tz: Seq<char>, cal: Seq<char>) -> Option<Seq<char>>;

/// The stored fields of the sum of a zoned date-time and a duration
/// (wall-clock arithmetic for calendar units, constrained), if `temporal_rs`
/// computes one.
pub uninterp spec fn temporal_zoned_add(ns: i128, tz: Seq<char>, cal: Seq<char>, dur: Duration) -> Option<(i128, Seq<char>, Seq<char>)>;

/// The identifier of a time zone given by name.
///
/// Calls `temporal_rs::TimeZone::try_from_str` and `TimeZone::identifier`
/// (the compiled time-zone database). Claimed: the result is
/// `temporal_time_zone_id(text)`, an error exactly when there is none.
#[verifier::external_body]
fn outside_time_zone_identifier(text: &str) -> (r: Result<String, temporal_rs::TemporalError>)
    ensures
        match r {
            Ok(s) => temporal_time_zone_id(text@) == Some(s@),
            Err(_) => temporal_time_zone_id(text@) is None,
        },
{
    TimeZone::try_from_str(text)?.identifier()
}

/// Rebuilds a zoned date-time from stored fields and checks that it loads.
///
/// Calls `temporal_rs::TimeZone::try_from_str`, `Calendar::try_from_utf8`
/// and `ZonedDateTime::try_new`. Claimed: it succeeds exactly when
/// `temporal_zoned_loads`; an instant that loads is valid, and its calendar
/// loads.
#[verifier::external_body]
fn outside_zoned_check(ns: i128, tz: &str, cal: &str) -> (r: Result<(), temporal_rs::TemporalError>)
    ensures
        r is Ok == temporal_zoned_loads(ns, tz@, cal@),
        r is Ok ==> instant_in_range(ns as int) && temporal_calendar_id(cal@) is Some,
{
    TemporalZdt::try_new(ns, TimeZone::try_from_str(tz)?, Calendar::try_from_utf8(cal.as_bytes())?)?;
    Ok(())
}

/// Reads a zoned date-time from text.
///
/// Calls `temporal_rs::ZonedDateTime::from_utf8` with the disambiguation
/// given and offsets that disagree with the zone rejected, then reads the
/// epoch nanoseconds and the time zone and calendar identifiers. Claimed:
/// the result is `temporal_zoned_from_text`.
#[verifier::external_body]
fn outside_zoned_from_text(text: &str, dis: DisambiguationGuc) -> (r: Result<(i128, String, &'static str), temporal_rs::TemporalError>)
    ensures
        match r {
            Ok(v) => temporal_zoned_from_text(text@, dis) == Some((v.0, v.1@, v.2@)),
            Err(_) => temporal_zoned_from_text(text@, dis) is None,
        },
{
    let d = match dis {
        DisambiguationGuc::Compatible => Disambiguation::Compatible,
        DisambiguationGuc::Earlier => Disambiguation::Earlier,
        DisambiguationGuc::Later => Disambiguation::Later,
        DisambiguationGuc::Reject => Disambiguation::Reject,
    };
    let z = TemporalZdt::from_utf8(text.as_bytes(), d, OffsetDisambiguation::Reject)?;
    Ok((z.epoch_nanoseconds().as_i128(), z.time_zone().identifier()?, z.calendar().identifier()))
}

/// Writes stored zoned fields as text.
///
/// Calls `temporal_rs::ZonedDateTime::try_new` and `to_ixdtf_string` with
/// the default display options. Claimed: it can succeed only when the
/// fields load, and then the text is `temporal_zoned_text`. In the zone
/// `UTC`, with a calendar given by its own identifier, it succeeds when the
/// fields load (the offset is zero), and the text (the exact
/// wall-clock time, the offset `+00:00`, `[UTC]` and the calendar unless it
/// is ISO 8601) reads back through `from_utf8` as the same fields under
/// every disambiguation: the zone has a single candidate instant for each
/// wall-clock time, and its offset equals the written one. In other zones,
/// where the written offset is rounded to the minute and a wall-clock time
/// may have two candidates, reading back is not claimed.
#[verifier::external_body]
fn outside_zoned_text(ns: i128, tz: &str, cal: &str) -> (r: Result<String, temporal_rs::TemporalError>)
    ensures
        r is Ok ==> temporal_zoned_loads(ns, tz@, cal@),
        temporal_zoned_loads(ns, tz@, cal@) ==> match r {
            Ok(s) => temporal_zoned_text(ns, tz@, cal@) == Some(s@),
            Err(_) => temporal_zoned_text(ns, tz@, cal@) is None,
        },
        tz@ == "UTC"@ && temporal_zoned_loads(ns, tz@, cal@) ==> r is Ok,
        r matches Ok(s) ==> (tz@ == "UTC"@ && temporal_calendar_id(cal@) == Some(cal@)
            ==> forall|dis: DisambiguationGuc| #[trigger] temporal_zoned_from_text(s@, dis) == Some((ns, tz@, cal@))),
{
    TemporalZdt::try_new(ns, TimeZone::try_from_str(tz)?, Calendar::try_from_utf8(cal.as_bytes())?)?
        .to_ixdtf_string(DisplayOffset::default(), DisplayTimeZone::default(), DisplayCalendar::default(),
            ToStringRoundingOptions::default())
}

/// Adds a duration to stored zoned fields.
///
/// Calls `temporal_rs::ZonedDateTime::add` with `Overflow::Constrain`, then
/// reads the result's epoch nanoseconds and identifiers. Claimed: it can
/// succeed only when the fields load and the duration is accepted; then the
/// result is `temporal_zoned_add`.
#[verifier::external_body]
fn outside_zoned_add(ns: i128, tz: &str, cal: &str, dur: &Duration) -> (r: Result<(i128, String, &'static str), temporal_rs::TemporalError>)
    ensures
        r is Ok ==> temporal_zoned_loads(ns, tz@, cal@) && temporal_accepts_duration(*dur),
        temporal_zoned_loads(ns, tz@, cal@) && temporal_accepts_duration(*dur) ==> match r {
            Ok(v) => temporal_zoned_add(ns, tz@, cal@, *dur) == Some((v.0, v.1@, v.2@)),
            Err(_) => temporal_zoned_add(ns, tz@, cal@, *dur) is None,
        },
{
    let z = TemporalZdt::try_new(ns, TimeZone::try_from_str(tz)?, Calendar::try_from_utf8(cal.as_bytes())?)?
        .add(&to_temporal_duration(dur)?, Some(Overflow::Constrain))?;
    Ok((z.epoch_nanoseconds().as_i128(), z.time_zone().identifier()?, z.calendar().identifier()))
}

/// Subtracts a duration from stored zoned fields.
///
/// Calls `temporal_rs::ZonedDateTime::subtract` with `Overflow::Constrain`,
/// which adds the negated duration. Claimed as for `outside_zoned_add`, with
/// the duration negated.
#[verifier::external_body]
fn outside_zoned_subtract(ns: i128, tz: &str, cal: &str, dur: &Duration) -> (r: Result<(i128, String, &'static str), temporal_rs::TemporalError>)
    ensures
        r is Ok ==> temporal_zoned_loads(ns, tz@, cal@) && temporal_accepts_duration(negate(*dur)),
        temporal_zoned_loads(ns, tz@, cal@) && temporal_accepts_duration(negate(*dur)) ==> match r {
            Ok(v) => temporal_zoned_add(ns, tz@, cal@, negate(*dur)) == Some((v.0, v.1@, v.2@)),
            Err(_) => temporal_zoned_add(ns, tz@, cal@, negate(*dur)) is None,
        },
{
    let z = TemporalZdt::try_new(ns, TimeZone::try_from_str(tz)?, Calendar::try_from_utf8(cal.as_bytes())?)?
        .subtract(&to_temporal_duration(dur)?, Some(Overflow::Constrain))?;
    Ok((z.epoch_nanoseconds().as_i128(), z.time_zone().identifier()?, z.calendar().identifier()))
}

/// The duration from one stored zoned date-time to another.
///
/// Calls `temporal_rs::ZonedDateTime::until` with the default settings.
/// Claimed, from its source (`diff_internal_with_provider`): the largest
/// unit is hours, a time unit, so the result is the difference of the epoch
/// nanoseconds balanced in hours; it fails only when a value does not load
/// or the calendars differ (two values with the same calendar identifier
/// have the same calendar).
#[verifier::external_body]
fn outside_zoned_until(a: i128, tz_a: &str, cal_a: &str, b: i128, tz_b: &str, cal_b: &str)
    -> (r: Result<Duration, temporal_rs::TemporalError>)
    ensures
        r is Ok ==> temporal_zoned_loads(a, tz_a@, cal_a@) && temporal_zoned_loads(b, tz_b@, cal_b@),
        temporal_zoned_loads(a, tz_a@, cal_a@) && temporal_zoned_loads(b, tz_b@, cal_b@) && cal_a@ == cal_b@ ==> r is Ok,
        r matches Ok(d) ==> d == balance_time(b - a, 5),
{
    let x = TemporalZdt::try_new(a, TimeZone::try_from_str(tz_a)?, Calendar::try_from_utf8(cal_a.as_bytes())?)?;
    let y = TemporalZdt::try_new(b, TimeZone::try_from_str(tz_b)?, Calendar::try_from_utf8(cal_b.as_bytes())?)?;
    Ok(from_temporal_duration(&x.until(&y, Default::default())?))
}

/// The duration elapsed from one stored zoned date-time to another.
///
/// Calls `temporal_rs::ZonedDateTime::since` with the default settings.
/// Claimed, from its source: as `until`, negated.
#[verifier::external_body]
fn outside_zoned_since(a: i128, tz_a: &str, cal_a: &str, b: i128, tz_b: &str, cal_b: &str)
    -> (r: Result<Duration, temporal_rs::TemporalError>)
    ensures
        r is Ok ==> temporal_zoned_loads(a, tz_a@, cal_a@) && temporal_zoned_loads(b, tz_b@, cal_b@),
        temporal_zoned_loads(a, tz_a@, cal_a@) && temporal_zoned_loads(b, tz_b@, cal_b@) && cal_a@ == cal_b@ ==> r is Ok,
        r matches Ok(d) ==> d == negate(balance_time(b - a, 5)),
{
    let x = TemporalZdt::try_new(a, TimeZone::try_from_str(tz_a)?, Calendar::try_from_utf8(cal_a.as_bytes())?)?;
    let y = TemporalZdt::try_new(b, TimeZone::try_from_str(tz_b)?, Calendar::try_from_utf8(cal_b.as_bytes())?)?;
    Ok(from_temporal_duration(&x.since(&y, Default::default())?))
}

/// The text of stored zoned fields, when they load and `temporal_rs` writes one.
pub open spec fn zoned_text_of(ns: i128, tz: Seq<char>, cal: Seq<char>) -> Option<Seq<char>> {
    if temporal_zoned_loads(ns, tz, cal) { temporal_zoned_text(ns, tz, cal) } else { None }
}

// ---------------------------------------------------------------------------
// Construction, text and accessors
// ---------------------------------------------------------------------------

/// Builds a zoned date-time from epoch nanoseconds written in decimal
/// (surrounding white space allowed), a time zone name and a calendar name.
/// The time zone and calendar are stored by the identifiers `temporal_rs`
/// gives them; the count is stored as given.
pub fn make_zoneddatetime(epoch_ns: &str, tz: &str, cal: &str) -> (r: Result<ZonedDateTime, Error>)
    ensures
        parse_i128_spec(trim_spec(epoch_ns@)) is None ==> r matches Err(Error::NotAnInteger),
        parse_i128_spec(trim_spec(epoch_ns@)) matches Some(ns) ==> match (temporal_time_zone_id(tz@), temporal_calendar_id(cal@)) {
            (Some(t), Some(c)) => r matches Ok(z) && z.instant_ns == ns && z.tz_id@ == t && z.calendar_id@ == c,
            _ => r matches Err(e) && e is Temporal,
        },
{
    let ns = match parse_i128_trimmed(epoch_ns) {
        Some(v) => v,
        None => { return Err(Error::NotAnInteger); },
    };
    let tz_id = match outside_time_zone_identifier(tz) {
        Ok(s) => s,
        Err(e) => { return Err(from_temporal_error(e)); },
    };
    let cal_id = calendar_identifier(cal)?;
    Ok(ZonedDateTime { instant_ns: ns, tz_id, calendar_id: String::from_str(cal_id) })
}

/// The time zone identifier.
pub fn zoned_datetime_timezone(z: ZonedDateTime) -> (r: String)
    ensures r@ == z.tz_id@,
{
    z.tz_id
}

/// The calendar identifier.
pub fn zoned_datetime_calendar(z: ZonedDateTime) -> (r: String)
    ensures r@ == z.calendar_id@,
{
    z.calendar_id
}

/// The epoch nanoseconds, in decimal (SQL has no 128-bit integer).
pub fn zoned_datetime_epoch_ns(z: ZonedDateTime) -> (r: String)
    ensures r@ == decimal_of_int(z.instant_ns as int),
{
    i128_to_text(z.instant_ns)
}

impl ZonedDateTime {
    /// Reads a zoned date-time from its text form
    /// (`2025-03-01T11:16:10+09:00[Asia/Tokyo]`, ...); a wall-clock time in a
    /// gap or fold is resolved as `dis` says, and an offset that disagrees
    /// with the zone is refused.
    pub fn parse(text: &str, dis: DisambiguationGuc) -> (r: Result<ZonedDateTime, Error>)
        ensures
            match temporal_zoned_from_text(text@, dis) {
                Some(v) => r matches Ok(z) && z.instant_ns == v.0 && z.tz_id@ == v.1 && z.calendar_id@ == v.2,
                None => r matches Err(e) && e is Temporal,
            },
    {
        match outside_zoned_from_text(text, dis) {
            Ok(v) => Ok(ZonedDateTime { instant_ns: v.0, tz_id: v.1, calendar_id: String::from_str(v.2) }),
            Err(e) => Err(from_temporal_error(e)),
        }
    }

    /// The text form, with the offset, the time zone and (unless ISO 8601)
    /// the calendar.
    pub fn to_text(&self) -> (r: Result<String, Error>)
        ensures
            match zoned_text_of(self.instant_ns, self.tz_id@, self.calendar_id@) {
                Some(s) => r matches Ok(v) && v@ == s,
                None => r is Err,
            },
            self.tz_id@ == "UTC"@ && temporal_calendar_id(self.calendar_id@) == Some(self.calendar_id@)
                && temporal_zoned_loads(self.instant_ns, self.tz_id@, self.calendar_id@)
                ==> (r matches Ok(s) && forall|dis: DisambiguationGuc| #[trigger] temporal_zoned_from_text(s@, dis)
                    == Some((self.instant_ns, self.tz_id@, self.calendar_id@))),
    {
        match outside_zoned_text(self.instant_ns, self.tz_id.as_str(), self.calendar_id.as_str()) {
            Ok(s) => Ok(s),
            Err(e) => Err(from_temporal_error(e)),
        }
    }

    /// Checks that the stored fields load in `temporal_rs`.
    pub fn check(&self) -> (r: Result<(), Error>)
        ensures r is Ok == temporal_zoned_loads(self.instant_ns, self.tz_id@, self.calendar_id@),
    {
        match outside_zoned_check(self.instant_ns, self.tz_id.as_str(), self.calendar_id.as_str()) {
            Ok(()) => Ok(()),
            Err(e) => Err(from_temporal_error(e)),
        }
    }
}

// ---------------------------------------------------------------------------
// Order
// ---------------------------------------------------------------------------

/// -1, 0 or 1 as `a` is before or after `b`: by instant, then time zone
/// identifier, then calendar identifier (each text in byte order). Zero
/// only for identical values.
pub open spec fn zoned_order(a: ZonedDateTime, b: ZonedDateTime) -> int {
    if a.instant_ns != b.instant_ns { if a.instant_ns < b.instant_ns { -1 } else { 1 } }
    else if text_order(a.tz_id@, b.tz_id@) != 0 { text_order(a.tz_id@, b.tz_id@) }
    else { text_order(a.calendar_id@, b.calendar_id@) }
}

/// Whether two zoned date-times are the same value: same instant, time zone
/// identifier and calendar identifier.
pub open spec fn same_zoned(a: ZonedDateTime, b: ZonedDateTime) -> bool {
    a.instant_ns == b.instant_ns && a.tz_id@ == b.tz_id@ && a.calendar_id@ == b.calendar_id@
}

/// Compares two zoned date-times (the order of the SQL operators and of
/// `ORDER BY`).
pub fn zoned_datetime_compare(a: ZonedDateTime, b: ZonedDateTime) -> (r: i32)
    ensures r == zoned_order(a, b),
{
    if a.instant_ns != b.instant_ns {
        if a.instant_ns < b.instant_ns { -1 } else { 1 }
    } else {
        let t = compare_text(a.tz_id.as_str(), b.tz_id.as_str());
        if t != 0 {
            t as i32
        } else {
            compare_text(a.calendar_id.as_str(), b.calendar_id.as_str()) as i32
        }
    }
}

/// `a < b`.
pub fn zoned_datetime_lt(a: ZonedDateTime, b: ZonedDateTime) -> (r: bool)
    ensures r == (zoned_order(a, b) < 0),
{
    zoned_datetime_compare(a, b) < 0
}

/// `a <= b`.
pub fn zoned_datetime_le(a: ZonedDateTime, b: ZonedDateTime) -> (r: bool)
    ensures r == (zoned_order(a, b) <= 0),
{
    zoned_datetime_compare(a, b) <= 0
}

/// `a = b`.
pub fn zoned_datetime_eq(a: ZonedDateTime, b: ZonedDateTime) -> (r: bool)
    ensures r == (zoned_order(a, b) == 0),
{
    zoned_datetime_compare(a, b) == 0
}

/// `a <> b`.
pub fn zoned_datetime_ne(a: ZonedDateTime, b: ZonedDateTime) -> (r: bool)
    ensures r == (zoned_order(a, b) != 0),
{
    zoned_datetime_compare(a, b) != 0
}

/// `a >= b`.
pub fn zoned_datetime_ge(a: ZonedDateTime, b: ZonedDateTime) -> (r: bool)
    ensures r == (zoned_order(a, b) >= 0),
{
    zoned_datetime_compare(a, b) >= 0
}

/// `a > b`.
pub fn zoned_datetime_gt(a: ZonedDateTime, b: ZonedDateTime) -> (r: bool)
    ensures r == (zoned_order(a, b) > 0),
{
    zoned_datetime_compare(a, b) > 0
}

/// Equality of zoned date-times is identity: they compare equal exactly when
/// instant, time zone and calendar all match, so two readings of one instant
/// in different zones are not equal.
pub proof fn lemma_zoned_equality_is_identity(a: ZonedDateTime, b: ZonedDateTime)
    ensures (zoned_order(a, b) == 0) <==> same_zoned(a, b),
{
    lemma_text_order_zero(a.tz_id@, b.tz_id@);
    lemma_text_order_zero(a.calendar_id@, b.calendar_id@);
}

/// The order of zoned date-times flips with its arguments and is transitive.
pub proof fn lemma_zoned_order(a: ZonedDateTime, b: ZonedDateTime, c: ZonedDateTime)
    ensures
        zoned_order(a, b) == -zoned_order(b, a),
        zoned_order(a, b) < 0 && zoned_order(b, c) < 0 ==> zoned_order(a, c) < 0,
{
    lemma_lex_order_antisymmetric(encode_utf8(a.tz_id@), encode_utf8(b.tz_id@));
    lemma_lex_order_antisymmetric(encode_utf8(a.calendar_id@), encode_utf8(b.calendar_id@));
    lemma_lex_order_antisymmetric(encode_utf8(b.tz_id@), encode_utf8(c.tz_id@));
    lemma_lex_order_antisymmetric(encode_utf8(b.calendar_id@), encode_utf8(c.calendar_id@));
    lemma_lex_order_antisymmetric(encode_utf8(a.tz_id@), encode_utf8(c.tz_id@));
    lemma_text_order_zero(a.tz_id@, b.tz_id@);
    lemma_text_order_zero(b.tz_id@, c.tz_id@);
    lemma_text_order_zero(a.calendar_id@, b.calendar_id@);
    lemma_text_order_zero(b.calendar_id@, c.calendar_id@);
    if zoned_order(a, b) < 0 && zoned_order(b, c) < 0 {
        if a.instant_ns == b.instant_ns && b.instant_ns == c.instant_ns {
            if text_order(a.tz_id@, b.tz_id@) < 0 && text_order(b.tz_id@, c.tz_id@) < 0 {
                lemma_lex_order_transitive(encode_utf8(a.tz_id@), encode_utf8(b.tz_id@), encode_utf8(c.tz_id@));
            } else if text_order(a.tz_id@, b.tz_id@) == 0 && text_order(b.tz_id@, c.tz_id@) == 0 {
                lemma_lex_order_transitive(encode_utf8(a.calendar_id@), encode_utf8(b.calendar_id@),
                    encode_utf8(c.calendar_id@));
            }
        }
    }
}

/// Zoned date-times are ordered by the instants they stand for: of two with
/// different instants, the earlier comes first, whatever their time zones
/// and calendars; the identifiers only separate values at the same instant.
pub proof fn lemma_zoned_order_follows_instants(a: ZonedDateTime, b: ZonedDateTime)
    ensures
        a.instant_ns < b.instant_ns ==> zoned_order(a, b) < 0,
        a.instant_ns > b.instant_ns ==> zoned_order(a, b) > 0,
{
}

// ---------------------------------------------------------------------------
// Arithmetic
// ---------------------------------------------------------------------------

/// The stored fields of `dur` added to zoned fields, when the fields load,
/// the duration is accepted and `temporal_rs` computes a sum.
pub open spec fn zoned_plus(ns: i128, tz: Seq<char>, cal: Seq<char>, dur: Duration) -> Option<(i128, Seq<char>, Seq<char>)> {
    if temporal_zoned_loads(ns, tz, cal) && temporal_accepts_duration(dur) {
        temporal_zoned_add(ns, tz, cal, dur)
    } else {
        None
    }
}

/// Whether stored zoned fields are the given triple.
pub open spec fn zoned_is(z: ZonedDateTime, v: (i128, Seq<char>, Seq<char>)) -> bool {
    z.instant_ns == v.0 && z.tz_id@ == v.1 && z.calendar_id@ == v.2
}

pub(crate) fn add_to_zoned(z: &ZonedDateTime, dur: &Duration) -> (r: Result<ZonedDateTime, Error>)
    ensures
        match zoned_plus(z.instant_ns, z.tz_id@, z.calendar_id@, *dur) {
            Some(v) => r matches Ok(w) && zoned_is(w, v),
            None => r is Err,
        },
{
    match outside_zoned_add(z.instant_ns, z.tz_id.as_str(), z.calendar_id.as_str(), dur) {
        Ok(v) => Ok(ZonedDateTime { instant_ns: v.0, tz_id: v.1, calendar_id: String::from_str(v.2) }),
        Err(e) => Err(from_temporal_error(e)),
    }
}

pub(crate) fn subtract_from_zoned(z: &ZonedDateTime, dur: &Duration) -> (r: Result<ZonedDateTime, Error>)
    ensures
        match zoned_plus(z.instant_ns, z.tz_id@, z.calendar_id@, negate(*dur)) {
            Some(v) => r matches Ok(w) && zoned_is(w, v),
            None => r is Err,
        },
{
    match outside_zoned_subtract(z.instant_ns, z.tz_id.as_str(), z.calendar_id.as_str(), dur) {
        Ok(v) => Ok(ZonedDateTime { instant_ns: v.0, tz_id: v.1, calendar_id: String::from_str(v.2) }),
        Err(e) => Err(from_temporal_error(e)),
    }
}

pub(crate) fn until_zoned(z: &ZonedDateTime, other: &ZonedDateTime) -> (r: Result<Duration, Error>)
    ensures
        r is Ok ==> temporal_zoned_loads(z.instant_ns, z.tz_id@, z.calendar_id@)
            && temporal_zoned_loads(other.instant_ns, other.tz_id@, other.calendar_id@),
        temporal_zoned_loads(z.instant_ns, z.tz_id@, z.calendar_id@)
            && temporal_zoned_loads(other.instant_ns, other.tz_id@, other.calendar_id@)
            && z.calendar_id@ == other.calendar_id@ ==> r is Ok,
        r matches Ok(d) ==> d == balance_time(other.instant_ns - z.instant_ns, 5),
{
    match outside_zoned_until(z.instant_ns, z.tz_id.as_str(), z.calendar_id.as_str(), other.instant_ns,
        other.tz_id.as_str(), other.calendar_id.as_str()) {
        Ok(d) => Ok(d),
        Err(e) => Err(from_temporal_error(e)),
    }
}

/// Adds a duration to a zoned date-time; calendar units follow the wall
/// clock of the zone, and a day of month is constrained to a valid one.
pub fn zoned_datetime_add(z: ZonedDateTime, dur: Duration) -> (r: Result<ZonedDateTime, Error>)
    ensures
        match zoned_plus(z.instant_ns, z.tz_id@, z.calendar_id@, dur) {
            Some(v) => r matches Ok(w) && zoned_is(w, v),
            None => r is Err,
        },
{
    add_to_zoned(&z, &dur)
}

/// Subtracts a duration from a zoned date-time, as adding its negation.
pub fn zoned_datetime_subtract(z: ZonedDateTime, dur: Duration) -> (r: Result<ZonedDateTime, Error>)
    ensures
        match zoned_plus(z.instant_ns, z.tz_id@, z.calendar_id@, negate(dur)) {
            Some(v) => r matches Ok(w) && zoned_is(w, v),
            None => r is Err,
        },
{
    subtract_from_zoned(&z, &dur)
}

/// The duration from `z` to `other`, in hours and smaller units: the
/// difference of their instants. Both must load and share a calendar.
pub fn zoned_datetime_until(z: ZonedDateTime, other: ZonedDateTime) -> (r: Result<Duration, Error>)
    ensures
        r is Ok ==> temporal_zoned_loads(z.instant_ns, z.tz_id@, z.calendar_id@)
            && temporal_zoned_loads(other.instant_ns, other.tz_id@, other.calendar_id@),
        temporal_zoned_loads(z.instant_ns, z.tz_id@, z.calendar_id@)
            && temporal_zoned_loads(other.instant_ns, other.tz_id@, other.calendar_id@)
            && z.calendar_id@ == other.calendar_id@ ==> r is Ok,
        r matches Ok(d) ==> d == balance_time(other.instant_ns - z.instant_ns, 5),
{
    until_zoned(&z, &other)
}

/// The duration elapsed from `other` to `z`: the negation of `z` until `other`.
pub fn zoned_datetime_since(z: ZonedDateTime, other: ZonedDateTime) -> (r: Result<Duration, Error>)
    ensures
        r is Ok ==> temporal_zoned_loads(z.instant_ns, z.tz_id@, z.calendar_id@)
            && temporal_zoned_loads(other.instant_ns, other.tz_id@, other.calendar_id@),
        temporal_zoned_loads(z.instant_ns, z.tz_id@, z.calendar_id@)
            && temporal_zoned_loads(other.instant_ns, other.tz_id@, other.calendar_id@)
            && z.calendar_id@ == other.calendar_id@ ==> r is Ok,
        r matches Ok(d) ==> d == negate(balance_time(other.instant_ns - z.instant_ns, 5)),
{
    match outside_zoned_since(z.instant_ns, z.tz_id.as_str(), z.calendar_id.as_str(), other.instant_ns,
        other.tz_id.as_str(), other.calendar_id.as_str()) {
        Ok(d) => Ok(d),
        Err(e) => Err(from_temporal_error(e)),
    }
}

} // verus!
