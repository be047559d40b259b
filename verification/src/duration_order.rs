//! Comparing durations: by their length, directly when they have no
//! calendar units, else relative to a starting point.
use vstd::prelude::*;
use temporal_rs::{Calendar, PlainDateTime as TemporalPdt, TimeZone, ZonedDateTime as TemporalZdt};
use temporal_rs::options::RelativeTo;
use crate::calendar::temporal_calendar_id;
use crate::duration::{Duration, day_time_ns, has_ymw_units, signum, temporal_accepts_duration, time_within_bound,
    to_temporal_duration};
use crate::error::{Error, from_temporal_error};
use crate::iso_date::accepts_date_time;
use crate::plain_date::{stored_calendar, stored_name};
use crate::plain_datetime::{PlainDateTime, date_time_loads, time_of_date_time};
use crate::plain_time::TimeOfDay;
use crate::zoned_datetime::{ZonedDateTime, temporal_zoned_loads};

verus! {

/// The order of two durations without a reference point: 0 for equal
/// fields; refused (`None`) when either has years, months or weeks; else
/// the order of their lengths with days taken as 24 hours, each of which
/// must be within the time-duration bound.
pub open spec fn duration_order(a: Duration, b: Duration) -> Option<int> {
    if a == b {
        Some(0)
    } else if has_ymw_units(a) || has_ymw_units(b) {
        None
    } else if !time_within_bound(day_time_ns(a)) || !time_within_bound(day_time_ns(b)) {
        None
    } else {
        Some(signum(day_time_ns(a) - day_time_ns(b)))
    }
}

/// An order (-1, 0 or 1) as an `i8`.
pub open spec fn order_code(v: int) -> i8 {
    v as i8
}

/// The order `temporal_rs` gives two durations relative to stored zoned
/// fields (-1, 0 or 1), if it gives one.
pub uninterp spec fn temporal_duration_order_zoned(a: Duration, b: Duration, ns: i128, tz: Seq<char>, cal: Seq<char>) -> Option<i8>;

/// The order `temporal_rs` gives two durations relative to an ISO date in
/// the named calendar (-1, 0 or 1), if it gives one.
pub uninterp spec fn temporal_duration_order_plain(a: Duration, b: Duration, y: i32, m: u8, d: u8, cal: Seq<char>) -> Option<i8>;

/// Compares two durations without a reference point.
///
/// Calls `temporal_rs::Duration::compare` with no relative-to value.
/// Claimed, from its source (`compare_with_provider`): it can succeed only
/// for accepted durations; then equal durations compare equal, durations
/// with years, months or weeks are refused, and otherwise the lengths with
/// 24-hour days are compared, each length within the time-duration bound
/// (`add_days`).
#[verifier::external_body]
fn outside_duration_compare(a: &Duration, b: &Duration) -> (r: Result<i8, temporal_rs::TemporalError>)
    ensures
        r is Ok ==> temporal_accepts_duration(*a) && temporal_accepts_duration(*b),
        temporal_accepts_duration(*a) && temporal_accepts_duration(*b) ==> match duration_order(*a, *b) {
            Some(v) => r == Ok::<i8, temporal_rs::TemporalError>(order_code(v)),
            None => r is Err,
        },
{
    match to_temporal_duration(a)?.compare(&to_temporal_duration(b)?, None)? {
        core::cmp::Ordering::Less => Ok(-1),
        core::cmp::Ordering::Equal => Ok(0),
        core::cmp::Ordering::Greater => Ok(1),
    }
}

/// Compares two durations relative to stored zoned fields.
///
/// Calls `temporal_rs::ZonedDateTime::try_new` and `Duration::compare` with
/// it as the relative-to value. Claimed: it can succeed only when both
/// durations are accepted and the zoned fields load; then the result is
/// `temporal_duration_order_zoned`, which is 0 for equal durations.
#[verifier::external_body]
fn outside_duration_compare_zoned(a: &Duration, b: &Duration, ns: i128, tz: &str, cal: &str)
    -> (r: Result<i8, temporal_rs::TemporalError>)
    ensures
        r is Ok ==> temporal_accepts_duration(*a) && temporal_accepts_duration(*b) && temporal_zoned_loads(ns, tz@, cal@),
        temporal_accepts_duration(*a) && temporal_accepts_duration(*b) && temporal_zoned_loads(ns, tz@, cal@) ==>
            match r {
                Ok(v) => temporal_duration_order_zoned(*a, *b, ns, tz@, cal@) == Some(v),
                Err(_) => temporal_duration_order_zoned(*a, *b, ns, tz@, cal@) is None,
            },
        r matches Ok(v) ==> (*a == *b ==> v == 0),
{
    let x = to_temporal_duration(a)?;
    let y = to_temporal_duration(b)?;
    let z = TemporalZdt::try_new(ns, TimeZone::try_from_str(tz)?, Calendar::try_from_utf8(cal.as_bytes())?)?;
    match x.compare(&y, Some(RelativeTo::from(z)))? {
        core::cmp::Ordering::Less => Ok(-1),
        core::cmp::Ordering::Equal => Ok(0),
        core::cmp::Ordering::Greater => Ok(1),
    }
}

/// Compares two durations relative to the date of a stored date-time.
///
/// Calls `temporal_rs::PlainDateTime::try_new_iso`, `with_calendar`,
/// `to_plain_date` and `Duration::compare` with that date as the relative-to
/// value. Claimed: it can succeed only when both durations are accepted, the
/// calendar loads and the date-time is accepted; then the result is
/// `temporal_duration_order_plain` of its date, which is 0 for equal durations.
#[verifier::external_body]
fn outside_duration_compare_plain(a: &Duration, b: &Duration, y: i32, m: u8, d: u8, t: &TimeOfDay, cal: &str)
    -> (r: Result<i8, temporal_rs::TemporalError>)
    ensures
        r is Ok ==> temporal_accepts_duration(*a) && temporal_accepts_duration(*b)
            && temporal_calendar_id(cal@) is Some && accepts_date_time(y, m, d, *t),
        temporal_accepts_duration(*a) && temporal_accepts_duration(*b) && temporal_calendar_id(cal@) is Some
            && accepts_date_time(y, m, d, *t) ==>
            match r {
                Ok(v) => temporal_duration_order_plain(*a, *b, y, m, d, cal@) == Some(v),
                Err(_) => temporal_duration_order_plain(*a, *b, y, m, d, cal@) is None,
            },
        r matches Ok(v) ==> (*a == *b ==> v == 0),
{
    let x = to_temporal_duration(a)?;
    let w = to_temporal_duration(b)?;
    let c = Calendar::try_from_utf8(cal.as_bytes())?;
    let p = TemporalPdt::try_new_iso(y, m, d, t.hour, t.minute, t.second, t.millisecond, t.microsecond,
        t.nanosecond)?.with_calendar(c).to_plain_date();
    match x.compare(&w, Some(RelativeTo::from(p)))? {
        core::cmp::Ordering::Less => Ok(-1),
        core::cmp::Ordering::Equal => Ok(0),
        core::cmp::Ordering::Greater => Ok(1),
    }
}

/// Compares two durations by length: -1, 0 or 1. Durations with years,
/// months or weeks have no length without a reference point and are refused.
pub fn duration_compare(a: Duration, b: Duration) -> (r: Result<i32, Error>)
    ensures
        r is Ok ==> temporal_accepts_duration(a) && temporal_accepts_duration(b),
        temporal_accepts_duration(a) && temporal_accepts_duration(b) ==> match duration_order(a, b) {
            Some(v) => r == Ok::<i32, Error>(v as i32),
            None => r is Err,
        },
{
    match outside_duration_compare(&a, &b) {
        Ok(v) => Ok(v as i32),
        Err(e) => Err(from_temporal_error(e)),
    }
}

/// Compares two durations by the instants they reach from a zoned date-time.
pub fn duration_compare_zoned(a: Duration, b: Duration, relative_to: ZonedDateTime) -> (r: Result<i32, Error>)
    ensures ({
        let (ns, tz, cal) = (relative_to.instant_ns, relative_to.tz_id@, relative_to.calendar_id@);
        &&& r is Ok ==> temporal_accepts_duration(a) && temporal_accepts_duration(b) && temporal_zoned_loads(ns, tz, cal)
        &&& temporal_accepts_duration(a) && temporal_accepts_duration(b) && temporal_zoned_loads(ns, tz, cal) ==>
            match temporal_duration_order_zoned(a, b, ns, tz, cal) {
                Some(v) => r == Ok::<i32, Error>(v as i32),
                None => r is Err,
            }
    }),
{
    match outside_duration_compare_zoned(&a, &b, relative_to.instant_ns, relative_to.tz_id.as_str(),
        relative_to.calendar_id.as_str()) {
        Ok(v) => Ok(v as i32),
        Err(e) => Err(from_temporal_error(e)),
    }
}

/// Compares two durations by the dates they reach from the date of a plain
/// date-time.
pub fn duration_compare_plain(a: Duration, b: Duration, relative_to: PlainDateTime) -> (r: Result<i32, Error>)
    ensures ({
        let p = relative_to;
        &&& r is Ok ==> temporal_accepts_duration(a) && temporal_accepts_duration(b) && date_time_loads(p)
        &&& temporal_accepts_duration(a) && temporal_accepts_duration(b) && date_time_loads(p) ==>
            match temporal_duration_order_plain(a, b, p.year, p.month, p.day, stored_name(p.cal_idx)) {
                Some(v) => r == Ok::<i32, Error>(v as i32),
                None => r is Err,
            }
    }),
{
    let p = relative_to;
    let name = stored_calendar(p.cal_idx)?;
    let t = time_of_date_time(&p);
    match outside_duration_compare_plain(&a, &b, p.year, p.month, p.day, &t, name) {
        Ok(v) => Ok(v as i32),
        Err(e) => Err(from_temporal_error(e)),
    }
}

/// Comparing without a reference point is antisymmetric: swapping the two
/// durations negates the order, and it is 0 exactly for equal durations.
pub proof fn lemma_duration_order_antisymmetric(a: Duration, b: Duration)
    ensures
        duration_order(a, b) is Some <==> duration_order(b, a) is Some,
        duration_order(a, b) matches Some(v) ==> duration_order(b, a) == Some(-v),
        duration_order(a, b) == Some(0int) ==> day_time_ns(a) == day_time_ns(b),
{
}

} // verus!
