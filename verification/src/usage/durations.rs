//! Durations: reading and writing, fields, sign, arithmetic and rounding.
use vstd::prelude::*;
use crate::duration::{Duration, balance_time, abs_duration, duration_add, duration_abs, duration_days, duration_hours,
    duration_is_zero, duration_milliseconds, duration_minutes, duration_months, duration_negated,
    duration_seconds, duration_sign, duration_subtract, duration_weeks, duration_years, has_calendar_units,
    is_blank, negate, sign_of, subseconds_balanced, temporal_accepts_duration, temporal_duration_from_text, temporal_duration_text, time_ns, time_sum_result, component_sum_result};
use crate::duration_relative::{Unit, duration_add_plain, duration_add_zoned, duration_round,
    duration_round_plain, duration_round_zoned, duration_subtract_plain, duration_subtract_zoned,
    lemma_unit_names, rounded, rounded_plain, rounded_zoned, plain_end, zoned_end};
use crate::error::Error;
use crate::gucs::DisambiguationGuc;
use crate::plain_datetime::{PlainDateTime, date_time_difference, temporal_date_time_from_text,
    pack_date_time};
use crate::calendar::index_spec;
use crate::usage::outcome::{gives, gives_text, then, then2};
use crate::zoned_datetime::{ZonedDateTime, temporal_zoned_from_text, temporal_zoned_loads};

verus! {

/// The duration read from text, written back.
pub open spec fn duration_text_again(t: Seq<char>) -> Option<Seq<char>> {
    then(temporal_duration_from_text(t), |d: Duration| temporal_duration_text(d))
}

/// A field of the duration read from text.
pub open spec fn duration_field(t: Seq<char>, f: spec_fn(Duration) -> i64) -> Option<i64> {
    then(temporal_duration_from_text(t), |d: Duration| Some(f(d)))
}

/// The component-wise sum (or, with `minus`, the balanced difference) of
/// two time-only durations.
pub open spec fn duration_sum(a: Duration, b: Duration, minus: bool) -> Option<Duration> {
    if has_calendar_units(a) || has_calendar_units(b) {
        None
    } else if minus {
        time_sum_result(a, b, time_ns(a) - time_ns(b))
    } else {
        component_sum_result(a, b)
    }
}

fn read(text: &str) -> (r: Result<Duration, Error>)
    ensures
        gives(r, temporal_duration_from_text(text@)),
        r matches Ok(d) ==> crate::duration::temporal_accepts_duration(d),
{
    Duration::parse(text)
}

/// `d::text::duration` is `d` for every accepted duration whose
/// milliseconds, microseconds and nanoseconds are each under a thousand in
/// magnitude (every duration read from text).
pub fn dur_text_round_trip(d: Duration) -> (r: Result<Duration, Error>)
    ensures
        temporal_accepts_duration(d) && subseconds_balanced(d) ==> r == Ok::<Duration, Error>(d),
        !temporal_accepts_duration(d) ==> r is Err,
{
    let t = d.to_text()?;
    Duration::parse(t.as_str())
}

/// The text written for a duration read from `text` reads back as the same
/// duration.
pub fn dur_reread(text: &str) -> (r: Result<Duration, Error>)
    ensures
        match temporal_duration_from_text(text@) {
            Some(d) => r == Ok::<Duration, Error>(d),
            None => r is Err,
        },
{
    let d = Duration::parse(text)?;
    let t = d.to_text()?;
    Duration::parse(t.as_str())
}

fn read_and_write(text: &str) -> (r: Result<String, Error>)
    ensures gives_text(r, duration_text_again(text@)),
{
    Duration::parse(text)?.to_text()
}

/// `'PT1H30M'::duration::text` is `PT1H30M`.
pub fn dur_roundtrip_time_only() -> (r: Result<String, Error>)
    ensures gives_text(r, duration_text_again("PT1H30M"@)),
{
    read_and_write("PT1H30M")
}

/// `'P1Y2M3DT4H5M6S'::duration::text` is `P1Y2M3DT4H5M6S`.
pub fn dur_roundtrip_full() -> (r: Result<String, Error>)
    ensures gives_text(r, duration_text_again("P1Y2M3DT4H5M6S"@)),
{
    read_and_write("P1Y2M3DT4H5M6S")
}

/// `'-P1Y'::duration::text` is `-P1Y`.
pub fn dur_roundtrip_negative() -> (r: Result<String, Error>)
    ensures gives_text(r, duration_text_again("-P1Y"@)),
{
    read_and_write("-P1Y")
}

/// `'PT0.001S'::duration::text` keeps the millisecond.
pub fn dur_roundtrip_millisecond_fraction() -> (r: Result<String, Error>)
    ensures gives_text(r, duration_text_again("PT0.001S"@)),
{
    read_and_write("PT0.001S")
}

/// `duration_years('P1Y2M3DT4H5M6S')` is 1.
pub fn dur_accessor_years() -> (r: Result<i64, Error>)
    ensures gives(r, duration_field("P1Y2M3DT4H5M6S"@, |d: Duration| d.years)),
{
    Ok(duration_years(read("P1Y2M3DT4H5M6S")?))
}

/// `duration_months('P1Y2M3DT4H5M6S')` is 2.
pub fn dur_accessor_months() -> (r: Result<i64, Error>)
    ensures gives(r, duration_field("P1Y2M3DT4H5M6S"@, |d: Duration| d.months)),
{
    Ok(duration_months(read("P1Y2M3DT4H5M6S")?))
}

/// `duration_days('P1Y2M3DT4H5M6S')` is 3.
pub fn dur_accessor_days() -> (r: Result<i64, Error>)
    ensures gives(r, duration_field("P1Y2M3DT4H5M6S"@, |d: Duration| d.days)),
{
    Ok(duration_days(read("P1Y2M3DT4H5M6S")?))
}

/// `duration_hours('P1Y2M3DT4H5M6S')` is 4.
pub fn dur_accessor_hours() -> (r: Result<i64, Error>)
    ensures gives(r, duration_field("P1Y2M3DT4H5M6S"@, |d: Duration| d.hours)),
{
    Ok(duration_hours(read("P1Y2M3DT4H5M6S")?))
}

/// `duration_minutes('P1Y2M3DT4H5M6S')` is 5.
pub fn dur_accessor_minutes() -> (r: Result<i64, Error>)
    ensures gives(r, duration_field("P1Y2M3DT4H5M6S"@, |d: Duration| d.minutes)),
{
    Ok(duration_minutes(read("P1Y2M3DT4H5M6S")?))
}

/// `duration_seconds('P1Y2M3DT4H5M6S')` is 6.
pub fn dur_accessor_seconds() -> (r: Result<i64, Error>)
    ensures gives(r, duration_field("P1Y2M3DT4H5M6S"@, |d: Duration| d.seconds)),
{
    Ok(duration_seconds(read("P1Y2M3DT4H5M6S")?))
}

/// `duration_milliseconds('PT1H30M45.123S')` is 123.
pub fn dur_accessor_milliseconds_from_time_duration() -> (r: Result<i64, Error>)
    ensures gives(r, duration_field("PT1H30M45.123S"@, |d: Duration| d.milliseconds)),
{
    Ok(duration_milliseconds(read("PT1H30M45.123S")?))
}

/// `duration_years('-P3Y')` is -3.
pub fn dur_accessor_years_negative() -> (r: Result<i64, Error>)
    ensures gives(r, duration_field("-P3Y"@, |d: Duration| d.years)),
{
    Ok(duration_years(read("-P3Y")?))
}

/// `duration_weeks('P1W')` is 1.
pub fn dur_accessor_weeks() -> (r: Result<i64, Error>)
    ensures gives(r, duration_field("P1W"@, |d: Duration| d.weeks)),
{
    Ok(duration_weeks(read("P1W")?))
}

/// `'not a duration'::duration` is refused.
pub fn dur_reject_input_garbage() -> (r: Result<Duration, Error>)
    ensures gives(r, temporal_duration_from_text("not a duration"@)),
{
    read("not a duration")
}

/// A date-time is not a duration.
pub fn dur_reject_input_datetime_string() -> (r: Result<Duration, Error>)
    ensures gives(r, temporal_duration_from_text("2025-03-01T11:16:10"@)),
{
    read("2025-03-01T11:16:10")
}

/// `duration_negated('PT1H30M')::text` is `-PT1H30M`.
pub fn dur_negated_positive_to_negative() -> (r: Result<String, Error>)
    ensures gives_text(r, then(temporal_duration_from_text("PT1H30M"@), |d: Duration| temporal_duration_text(negate(d)))),
{
    duration_negated(read("PT1H30M")?)?.to_text()
}

/// `duration_negated('-PT1H')::text` is `PT1H`.
pub fn dur_negated_negative_to_positive() -> (r: Result<String, Error>)
    ensures gives_text(r, then(temporal_duration_from_text("-PT1H"@), |d: Duration| temporal_duration_text(negate(d)))),
{
    duration_negated(read("-PT1H")?)?.to_text()
}

/// `duration_abs('-PT2H')::text` is `PT2H`.
pub fn dur_abs_negative() -> (r: Result<String, Error>)
    ensures gives_text(r, then(temporal_duration_from_text("-PT2H"@), |d: Duration| temporal_duration_text(abs_duration(d)))),
{
    duration_abs(read("-PT2H")?)?.to_text()
}

/// `duration_sign('PT1H')` is 1.
pub fn dur_sign_positive() -> (r: Result<i32, Error>)
    ensures gives(r, then(temporal_duration_from_text("PT1H"@), |d: Duration| Some(sign_of(d) as i32))),
{
    Ok(duration_sign(read("PT1H")?))
}

/// `duration_sign('-P1Y')` is -1.
pub fn dur_sign_negative() -> (r: Result<i32, Error>)
    ensures gives(r, then(temporal_duration_from_text("-P1Y"@), |d: Duration| Some(sign_of(d) as i32))),
{
    Ok(duration_sign(read("-P1Y")?))
}

/// `duration_sign('PT0S')` is 0.
pub fn dur_sign_zero() -> (r: Result<i32, Error>)
    ensures gives(r, then(temporal_duration_from_text("PT0S"@), |d: Duration| Some(sign_of(d) as i32))),
{
    Ok(duration_sign(read("PT0S")?))
}

/// `duration_is_zero('PT0S')` is true.
pub fn dur_is_zero_true() -> (r: Result<bool, Error>)
    ensures gives(r, then(temporal_duration_from_text("PT0S"@), |d: Duration| Some(is_blank(d)))),
{
    Ok(duration_is_zero(read("PT0S")?))
}

/// `duration_is_zero('PT1S')` is false.
pub fn dur_is_zero_false() -> (r: Result<bool, Error>)
    ensures gives(r, then(temporal_duration_from_text("PT1S"@), |d: Duration| Some(is_blank(d)))),
{
    Ok(duration_is_zero(read("PT1S")?))
}

/// `duration_add('PT1H', 'PT30M')::text` is `PT1H30M`.
pub fn dur_add_time_components() -> (r: Result<String, Error>)
    ensures gives_text(r, then2(temporal_duration_from_text("PT1H"@), temporal_duration_from_text("PT30M"@),
        |a: Duration, b: Duration| then(duration_sum(a, b, false), |d: Duration| temporal_duration_text(d)))),
{
    let a = read("PT1H")?;
    let b = read("PT30M")?;
    duration_add(a, b)?.to_text()
}

/// `duration_subtract('PT2H', 'PT30M')::text` is `PT1H30M`.
pub fn dur_subtract_time_components() -> (r: Result<String, Error>)
    ensures gives_text(r, then2(temporal_duration_from_text("PT2H"@), temporal_duration_from_text("PT30M"@),
        |a: Duration, b: Duration| then(duration_sum(a, b, true), |d: Duration| temporal_duration_text(d)))),
{
    let a = read("PT2H")?;
    let b = read("PT30M")?;
    duration_subtract(a, b)?.to_text()
}

/// `duration_round('PT1H30M', 'hour')::text` is `PT2H` (half rounds up).
pub fn dur_round_to_hour() -> (r: Result<String, Error>)
    ensures gives_text(r, then(temporal_duration_from_text("PT1H30M"@),
        |d: Duration| then(rounded(d, Unit::Hour), |v: Duration| temporal_duration_text(v)))),
{
    proof { lemma_unit_names(); }
    duration_round(read("PT1H30M")?, "hour")?.to_text()
}

/// `duration_round('PT1H29M', 'hour')::text` is `PT1H`.
pub fn dur_round_to_hour_down() -> (r: Result<String, Error>)
    ensures gives_text(r, then(temporal_duration_from_text("PT1H29M"@),
        |d: Duration| then(rounded(d, Unit::Hour), |v: Duration| temporal_duration_text(v)))),
{
    proof { lemma_unit_names(); }
    duration_round(read("PT1H29M")?, "hour")?.to_text()
}

/// `duration_round('PT1H', 'fortnight')` is refused: no such unit.
pub fn dur_round_invalid_unit() -> (r: Result<Duration, Error>)
    ensures r == Err::<Duration, Error>(Error::InvalidUnit) || (r is Err && temporal_duration_from_text("PT1H"@) is None),
{
    proof { lemma_unit_names(); }
    duration_round(read("PT1H")?, "fortnight")
}

/// The plain date-time read from text, as stored.
pub open spec fn stored_date_time_of(t: Seq<char>) -> Option<PlainDateTime> {
    then(temporal_date_time_from_text(t), |v: (i32, u8, u8, crate::plain_time::TimeOfDay, Seq<char>)|
        then(index_spec(v.4), |i: u8| Some(pack_date_time(v.0, v.1, v.2, v.3, i))))
}

fn read_date_time(text: &str) -> (r: Result<PlainDateTime, Error>)
    ensures gives(r, stored_date_time_of(text@)),
{
    PlainDateTime::parse(text)
}

/// `duration_round_plain('P1Y6M', 'year', '2025-01-01T00:00:00')::text` is
/// `P1Y`: the half year from 2026-01-01 is short of half of 2026.
pub fn dur_round_plain_to_year() -> (r: Result<String, Error>)
    ensures gives_text(r, then2(temporal_duration_from_text("P1Y6M"@), stored_date_time_of("2025-01-01T00:00:00"@),
        |d: Duration, p: PlainDateTime| then(rounded_plain(d, Unit::Year, p), |v: Duration| temporal_duration_text(v)))),
{
    proof { lemma_unit_names(); }
    let d = read("P1Y6M")?;
    let p = read_date_time("2025-01-01T00:00:00")?;
    duration_round_plain(d, "year", p)?.to_text()
}

/// `duration_round_plain('P1Y5M', 'year', '2025-01-01T00:00:00')::text` is `P1Y`.
pub fn dur_round_plain_to_year_down() -> (r: Result<String, Error>)
    ensures gives_text(r, then2(temporal_duration_from_text("P1Y5M"@), stored_date_time_of("2025-01-01T00:00:00"@),
        |d: Duration, p: PlainDateTime| then(rounded_plain(d, Unit::Year, p), |v: Duration| temporal_duration_text(v)))),
{
    proof { lemma_unit_names(); }
    let d = read("P1Y5M")?;
    let p = read_date_time("2025-01-01T00:00:00")?;
    duration_round_plain(d, "year", p)?.to_text()
}

/// `duration_round_zoned('PT36H', 'day', '2025-01-15T00:00:00+00:00[UTC]')::text`
/// is `P2D`.
pub fn dur_round_zoned_to_day() -> (r: Result<String, Error>)
    ensures
        match (temporal_duration_from_text("PT36H"@),
            temporal_zoned_from_text("2025-01-15T00:00:00+00:00[UTC]"@, DisambiguationGuc::Compatible)) {
            (Some(d), Some(z)) => gives_text(r, then(rounded_zoned(d, Unit::Day, z.0, z.1, z.2),
                |v: Duration| temporal_duration_text(v))),
            _ => r is Err,
        },
{
    proof { lemma_unit_names(); }
    let d = read("PT36H")?;
    let z = ZonedDateTime::parse("2025-01-15T00:00:00+00:00[UTC]", DisambiguationGuc::Compatible)?;
    duration_round_zoned(d, "day", z)?.to_text()
}

/// `duration_add_plain('P1Y', 'P6M', '2025-01-01T00:00:00')` is the days
/// from the start to a year and six months later.
pub fn dur_add_plain_calendar_components() -> (r: Result<String, Error>)
    ensures
        gives_text(r, then(stored_date_time_of("2025-01-01T00:00:00"@), |p: PlainDateTime|
            then2(temporal_duration_from_text("P1Y"@), temporal_duration_from_text("P6M"@), |a: Duration, b: Duration|
                then(then(plain_end(p, a, b), |e: PlainDateTime| date_time_difference(p, e)),
                    |d: Duration| temporal_duration_text(d))))),
{
    let p = read_date_time("2025-01-01T00:00:00")?;
    let a = read("P1Y")?;
    let b = read("P6M")?;
    duration_add_plain(a, b, p)?.to_text()
}

/// `duration_subtract_plain('P1Y', 'P6M', '2025-01-01T00:00:00')` is the
/// days from the start to a year later less six months.
pub fn dur_subtract_plain_calendar_components() -> (r: Result<String, Error>)
    ensures
        gives_text(r, then(stored_date_time_of("2025-01-01T00:00:00"@), |p: PlainDateTime|
            then2(temporal_duration_from_text("P1Y"@), temporal_duration_from_text("P6M"@), |a: Duration, b: Duration|
                then(then(plain_end(p, a, negate(b)), |e: PlainDateTime| date_time_difference(p, e)),
                    |d: Duration| temporal_duration_text(d))))),
{
    let p = read_date_time("2025-01-01T00:00:00")?;
    let a = read("P1Y")?;
    let b = read("P6M")?;
    duration_subtract_plain(a, b, p)?.to_text()
}

/// `duration_add_zoned('PT12H', 'PT12H', '2025-01-01T00:00:00+00:00[UTC]')`
/// is twenty-four hours, in hours.
pub fn dur_add_zoned_time_components() -> (r: Result<Duration, Error>)
    ensures
        match (temporal_duration_from_text("PT12H"@),
            temporal_zoned_from_text("2025-01-01T00:00:00+00:00[UTC]"@, DisambiguationGuc::Compatible)) {
            (Some(a), Some(z)) => match zoned_end(z.0, z.1, z.2, a, a) {
                Some(e) => {
                    &&& r matches Ok(d) ==> d == balance_time(e.0 - z.0, 5)
                    &&& r is Ok ==> temporal_zoned_loads(e.0, e.1, e.2)
                    &&& temporal_zoned_loads(e.0, e.1, e.2) && z.2 == e.2 ==> r is Ok
                },
                None => r is Err,
            },
            _ => r is Err,
        },
{
    let a = read("PT12H")?;
    let b = read("PT12H")?;
    let z = ZonedDateTime::parse("2025-01-01T00:00:00+00:00[UTC]", DisambiguationGuc::Compatible)?;
    duration_add_zoned(a, b, z)
}

/// `duration_subtract_zoned('PT12H', 'PT6H', '2025-01-01T00:00:00+00:00[UTC]')`
/// is six hours.
pub fn dur_subtract_zoned_time_components() -> (r: Result<Duration, Error>)
    ensures
        match (temporal_duration_from_text("PT12H"@), temporal_duration_from_text("PT6H"@),
            temporal_zoned_from_text("2025-01-01T00:00:00+00:00[UTC]"@, DisambiguationGuc::Compatible)) {
            (Some(a), Some(b), Some(z)) => match zoned_end(z.0, z.1, z.2, a, negate(b)) {
                Some(e) => {
                    &&& r matches Ok(d) ==> d == balance_time(e.0 - z.0, 5)
                    &&& r is Ok ==> temporal_zoned_loads(e.0, e.1, e.2)
                    &&& temporal_zoned_loads(e.0, e.1, e.2) && z.2 == e.2 ==> r is Ok
                },
                None => r is Err,
            },
            _ => r is Err,
        },
{
    let a = read("PT12H")?;
    let b = read("PT6H")?;
    let z = ZonedDateTime::parse("2025-01-01T00:00:00+00:00[UTC]", DisambiguationGuc::Compatible)?;
    duration_subtract_zoned(a, b, z)
}

} // verus!
