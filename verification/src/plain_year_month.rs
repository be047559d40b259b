//! `PlainYearMonth`: a year and month in a calendar, with no day, stored as
//! the ISO year and month and a calendar index.
use vstd::prelude::*;
use temporal_rs::{Calendar, PlainYearMonth as TemporalPym};
use temporal_rs::options::{DisplayCalendar, Overflow};
use crate::calendar::{CALENDAR_COUNT, ISO8601_INDEX, lemma_index_spec_of_stored, calendar_names, calendar_index, calendar_index_result, calendar_name,
    index_of, index_spec, lemma_calendar_names_distinct, temporal_calendar_id};
use crate::duration::{Duration, from_temporal_duration, negate, temporal_accepts_duration, to_temporal_duration};
use crate::error::{Error, Field, from_temporal_error};
use crate::plain_date::{calendar_loads, field_u8, stored_calendar, stored_name, temporal_date_fields};
use crate::text::{is_digit, lemma_padded_decimal, padded_decimal, parse_i128_spec,
    parse_i128_range, pow10};

verus! {

/// A plain year-month as stored: ISO year and month, and the calendar index.
#[derive(Clone, Copy, Debug, PartialEq, Eq, Structural)]
pub struct PlainYearMonth {
    pub year: i32,
    pub month: u8,
    pub cal_idx: u8,
}

/// Whether `temporal_rs` accepts an ISO year and month (taken on its first
/// day): a month 1–12 from -271821-04 through +275760-09.
pub open spec fn accepted_year_month(y: int, m: int) -> bool {
    &&& 1 <= m <= 12
    &&& -271821 <= y <= 275760
    &&& !(y == -271821 && m < 4)
    &&& !(y == 275760 && m > 9)
}

/// Whether a stored year-month can be rebuilt as a `temporal_rs` year-month.
pub open spec fn year_month_loads(p: PlainYearMonth) -> bool {
    calendar_loads(p.cal_idx) && accepted_year_month(p.year as int, p.month as int)
}

// ---------------------------------------------------------------------------
// The stored text form
// ---------------------------------------------------------------------------

/// The position of the last `-` in `s`, if any.
pub open spec fn last_dash(s: Seq<char>) -> Option<int> {
    if exists|i: int| 0 <= i < s.len() && s[i] == '-' {
        Some(choose|i: int| 0 <= i < s.len() && s[i] == '-'
            && forall|j: int| i < j < s.len() ==> #[trigger] s[j] != '-')
    } else {
        None
    }
}

/// The number of `+` that `s` starts with.
pub open spec fn leading_plus(s: Seq<char>) -> int
    decreases s.len(),
{
    if s.len() > 0 && s[0] == '+' { 1 + leading_plus(s.skip(1)) } else { 0 }
}

/// What `str::parse::<i32>` gives.
pub open spec fn parse_i32_spec(s: Seq<char>) -> Option<i32> {
    match parse_i128_spec(s) {
        Some(v) => if i32::MIN <= v <= i32::MAX { Some(v as i32) } else { None },
        None => None,
    }
}

/// What `str::parse::<u8>` gives (no `-` sign is allowed).
pub open spec fn parse_u8_spec(s: Seq<char>) -> Option<u8> {
    if s.len() > 0 && s[0] == '-' {
        None
    } else {
        match parse_i128_spec(s) {
            Some(v) => if 0 <= v <= 255 { Some(v as u8) } else { None },
            None => None,
        }
    }
}

/// The ISO year and month read from a year-month's text form `YYYY-MM`:
/// the text is split at its last `-`; the year part, less its leading `+`,
/// and the month part must each be integers of their types.
pub open spec fn year_month_of_text(s: Seq<char>) -> Option<(i32, u8)> {
    match last_dash(s) {
        None => None,
        Some(i) => {
            let year_part = s.subrange(0, i);
            let month_part = s.subrange(i + 1, s.len() as int);
            match (parse_i32_spec(year_part.skip(leading_plus(year_part))), parse_u8_spec(month_part)) {
                (Some(y), Some(m)) => Some((y, m)),
                _ => None,
            }
        },
    }
}

fn find_last_dash(s: &str) -> (r: Option<usize>)
    ensures
        match r {
            Some(i) => last_dash(s@) == Some(i as int) && i < s@.len() && s@[i as int] == '-'
                && forall|j: int| i < j < s@.len() ==> #[trigger] s@[j] != '-',
            None => last_dash(s@) is None,
        },
{
    let n = s.unicode_len();
    let mut i: usize = n;
    while i > 0
        invariant
            i <= n, n == s@.len(),
            forall|j: int| i <= j < n ==> #[trigger] s@[j] != '-',
        decreases i,
    {
        if s.get_char(i - 1) == '-' {
            let k = i - 1;
            proof {
                assert(exists|x: int| 0 <= x < s@.len() && s@[x] == '-') by { assert(s@[k as int] == '-'); }
                let c = choose|x: int| 0 <= x < s@.len() && s@[x] == '-'
                    && forall|j: int| x < j < s@.len() ==> #[trigger] s@[j] != '-';
                assert(0 <= k < s@.len() && s@[k as int] == '-'
                    && forall|j: int| k < j < s@.len() ==> #[trigger] s@[j] != '-');
                if c < k { assert(s@[k as int] != '-'); }
                if c > k { assert(s@[c] != '-'); }
            }
            return Some(k);
        }
        i = i - 1;
    }
    proof {
        assert(!(exists|x: int| 0 <= x < s@.len() && s@[x] == '-'));
    }
    None
}

/// The number of leading `+` of a prefix: its first non-`+` position.
proof fn lemma_leading_plus(s: Seq<char>, k: int)
    requires
        0 <= k <= s.len(),
        forall|j: int| 0 <= j < k ==> #[trigger] s[j] == '+',
        k == s.len() || s[k] != '+',
    ensures leading_plus(s) == k,
    decreases k,
{
    if k > 0 {
        let t = s.skip(1);
        assert forall|j: int| 0 <= j < k - 1 implies #[trigger] t[j] == '+' by {
            assert(t[j] == s[j + 1]);
        }
        if k - 1 < t.len() { assert(t[k - 1] == s[k]); }
        lemma_leading_plus(t, k - 1);
    }
}

/// Reads the ISO year and month from a year-month's text form.
pub fn parse_year_month_text(s: &str) -> (r: Option<(i32, u8)>)
    ensures r == year_month_of_text(s@),
{
    let dash = find_last_dash(s);
    let i = match dash {
        Some(i) => i,
        None => { return None; },
    };
    let n = s.unicode_len();
    let ghost year_part = s@.subrange(0, i as int);
    let mut start: usize = 0;
    while start < i && s.get_char(start) == '+'
        invariant
            start <= i < n, n == s@.len(),
            forall|j: int| 0 <= j < start ==> #[trigger] s@[j] == '+',
        decreases i - start,
    {
        start = start + 1;
    }
    proof {
        assert forall|j: int| 0 <= j < start implies #[trigger] year_part[j] == '+' by {
            assert(year_part[j] == s@[j]);
        }
        if start < i { assert(year_part[start as int] == s@[start as int]); }
        lemma_leading_plus(year_part, start as int);
        assert(year_part.skip(start as int) =~= s@.subrange(start as int, i as int));
    }
    let y = match parse_i128_range(s, start, i) {
        Some(v) => v,
        None => { return None; },
    };
    if y < i32::MIN as i128 || y > i32::MAX as i128 {
        return None;
    }
    let ghost month_part = s@.subrange(i + 1, n as int);
    proof {
        if i + 1 < n {
            assert(month_part[0] == s@[i + 1]);
        }
    }
    let m = match parse_i128_range(s, i + 1, n) {
        Some(v) => v,
        None => { return None; },
    };
    if m < 0 || m > 255 {
        return None;
    }
    Some((y as i32, m as u8))
}

/// A year as ISO 8601 text writes it: four digits for 0 through 9999, else a
/// sign and six digits.
pub open spec fn iso_year_text(y: int) -> Seq<char> {
    if 0 <= y <= 9999 {
        padded_decimal(y as nat, 4)
    } else if y < 0 {
        seq!['-'] + padded_decimal((-y) as nat, 6)
    } else {
        seq!['+'] + padded_decimal(y as nat, 6)
    }
}

/// The ISO 8601 text of a year and month: the year, `-`, and the month in two
/// digits.
pub open spec fn iso_year_month_text(y: int, m: int) -> Seq<char> {
    iso_year_text(y) + seq!['-'] + padded_decimal(m as nat, 2)
}

/// The number read by `parse_i128_spec` from a sign-less run of digits.
proof fn lemma_parse_digits(s: Seq<char>, n: nat, w: nat)
    requires w > 0, n < pow10(w), s == padded_decimal(n, w), n < 1000000,
    ensures parse_i128_spec(s) == Some(n as i128), is_digit(s[0]), s.len() == w,
{
    lemma_padded_decimal(n, w);
    assert(is_digit(s[0]));
}

/// The ISO 8601 text of an accepted year and month reads back as that year
/// and month.
proof fn lemma_iso_year_month_text_reads(y: i32, m: u8)
    requires accepted_year_month(y as int, m as int),
    ensures year_month_of_text(iso_year_month_text(y as int, m as int)) == Some((y, m)),
{
    assert(pow10(2) == 100 && pow10(4) == 10000 && pow10(6) == 1000000) by {
        reveal_with_fuel(pow10, 7);
    }
    let yt = iso_year_text(y as int);
    let mt = padded_decimal(m as nat, 2);
    let s = iso_year_month_text(y as int, m as int);
    lemma_parse_digits(mt, m as nat, 2);
    let k = yt.len() as int;
    // The year part, and what its digits read as.
    if 0 <= y <= 9999 {
        lemma_parse_digits(yt, y as nat, 4);
        assert(yt[0] != '+');
        lemma_leading_plus(yt, 0);
        assert(yt.skip(0) =~= yt);
    } else if y < 0 {
        let p = padded_decimal((-y) as nat, 6);
        lemma_parse_digits(p, (-y) as nat, 6);
        assert(yt[0] == '-');
        lemma_leading_plus(yt, 0);
        assert(yt.skip(0) =~= yt);
        assert(yt.skip(1) =~= p);
        lemma_padded_decimal((-y) as nat, 6);
    } else {
        let p = padded_decimal(y as nat, 6);
        lemma_parse_digits(p, y as nat, 6);
        assert(yt[0] == '+');
        assert(yt[1] == p[0]);
        lemma_leading_plus(yt, 1);
        assert(yt.skip(1) =~= p);
    }
    assert(parse_i32_spec(yt.skip(leading_plus(yt))) == Some(y));
    assert(mt[0] != '-');
    assert(parse_u8_spec(mt) == Some(m));
    // The last `-` is the one after the year.
    assert(s[k] == '-');
    assert forall|j: int| k < j < s.len() implies #[trigger] s[j] != '-' by {
        assert(s[j] == mt[j - k - 1]);
        lemma_padded_decimal(m as nat, 2);
        assert(is_digit(mt[j - k - 1]));
    }
    assert(exists|x: int| 0 <= x < s.len() && s[x] == '-') by { assert(s[k] == '-'); }
    let c = choose|x: int| 0 <= x < s.len() && s[x] == '-'
        && forall|j: int| x < j < s.len() ==> #[trigger] s[j] != '-';
    assert(0 <= k < s.len() && s[k] == '-' && forall|j: int| k < j < s.len() ==> #[trigger] s[j] != '-');
    if c < k { assert(s[k] != '-'); }
    if c > k { assert(s[c] != '-'); }
    assert(last_dash(s) == Some(k));
    assert(s.subrange(0, k) =~= yt);
    assert(s.subrange(k + 1, s.len() as int) =~= mt);
}

// ---------------------------------------------------------------------------
// Calls into temporal_rs
// ---------------------------------------------------------------------------

/// The stored text form (`to_ixdtf_string` with the calendar never shown)
/// and the calendar identifier of the year-month `temporal_rs` reads from
/// text, if it reads one.
pub uninterp spec fn temporal_year_month_from_text(text: Seq<char>) -> Option<(Seq<char>, Seq<char>)>;

/// The text `temporal_rs` writes for a stored year-month (calendar shown
/// unless it is ISO 8601).
pub uninterp spec fn temporal_year_month_text(y: i32, m: u8, cal: Seq<char>) -> Seq<char>;

/// The stored text form of the sum of a year-month in the named calendar and
/// a duration (constrained), if `temporal_rs` computes one.
pub uninterp spec fn temporal_year_month_add(y: i32, m: u8, cal: Seq<char>, dur: Duration) -> Option<Seq<char>>;

/// The duration from one year-month to another, each in its named calendar,
/// with years as the largest unit, if `temporal_rs` computes one.
pub uninterp spec fn temporal_year_month_until(a: (i32, u8), b: (i32, u8), cal_a: Seq<char>, cal_b: Seq<char>) -> Option<Duration>;

/// Checks an ISO year and month.
///
/// Calls `temporal_rs::PlainYearMonth::try_new_iso` with no reference day.
/// Claimed, from its source (`new_with_overflow` with `Reject`, day 1, then
/// `year_month_within_limits`): it succeeds exactly when `accepted_year_month`
/// holds. The calendar given to `try_new` plays no part in this check.
#[verifier::external_body]
fn outside_year_month_check(y: i32, m: u8) -> (r: Result<(), temporal_rs::TemporalError>)
    ensures r is Ok == accepted_year_month(y as int, m as int),
{
    TemporalPym::try_new_iso(y, m, None)?;
    Ok(())
}

/// The calendar year and month of a stored year-month.
///
/// Calls `temporal_rs::Calendar::try_from_utf8`, `PlainYearMonth::try_new`
/// (reference day 1) and the `year` and `month` getters, which read the ISO
/// date `(y, m, 1)` through the calendar as a plain date's do. Claimed: it
/// succeeds exactly when the calendar loads and the year-month is accepted;
/// the result is the first two of `temporal_date_fields(y, m, 1, cal)`; in
/// the ISO 8601 calendar those fields are the ISO ones.
#[verifier::external_body]
fn outside_year_month_fields(y: i32, m: u8, cal: &str) -> (r: Result<(i32, u8), temporal_rs::TemporalError>)
    ensures
        r is Ok == (temporal_calendar_id(cal@) is Some && accepted_year_month(y as int, m as int)),
        r matches Ok(v) ==> v.0 == temporal_date_fields(y, m, 1, cal@).0 && v.1 == temporal_date_fields(y, m, 1, cal@).1,
        r is Ok && (cal@ == "iso8601"@ || temporal_calendar_id(cal@) == Some("iso8601"@)) ==> temporal_date_fields(y, m, 1, cal@) == (y, m, 1u8),
{
    let p = TemporalPym::try_new(y, m, None, Calendar::try_from_utf8(cal.as_bytes())?)?;
    Ok((p.year(), p.month()))
}

/// Reads a year-month from text.
///
/// Calls `temporal_rs::PlainYearMonth::from_utf8`, then `to_ixdtf_string`
/// with `DisplayCalendar::Never` and `Calendar::identifier`. Claimed: the
/// result is `temporal_year_month_from_text`.
#[verifier::external_body]
fn outside_year_month_from_text(text: &str) -> (r: Result<(String, &'static str), temporal_rs::TemporalError>)
    ensures
        match r {
            Ok(v) => temporal_year_month_from_text(text@) == Some((v.0@, v.1@)),
            Err(_) => temporal_year_month_from_text(text@) is None,
        },
{
    let p = TemporalPym::from_utf8(text.as_bytes())?;
    Ok((p.to_ixdtf_string(DisplayCalendar::Never), p.calendar().identifier()))
}

/// Writes a stored year-month as text.
///
/// Calls `temporal_rs::PlainYearMonth::to_ixdtf_string` with
/// `DisplayCalendar::Auto`. Claimed: it succeeds exactly when the calendar
/// loads and the year-month is accepted; the text is `temporal_year_month_text`.
/// In the ISO 8601 calendar, from its source (`FormattableYearMonth`: the
/// year, `-`, the padded month, no day and no calendar annotation), the text
/// is `iso_year_month_text`; `from_utf8` reads it as the same ISO year and
/// month, which `to_ixdtf_string` with `DisplayCalendar::Never` writes the
/// same way, in the calendar `iso8601`.
#[verifier::external_body]
fn outside_year_month_text(y: i32, m: u8, cal: &str) -> (r: Result<String, temporal_rs::TemporalError>)
    ensures
        r is Ok == (temporal_calendar_id(cal@) is Some && accepted_year_month(y as int, m as int)),
        r matches Ok(s) ==> s@ == temporal_year_month_text(y, m, cal@),
        r matches Ok(s) ==> (cal@ == "iso8601"@ ==> s@ == iso_year_month_text(y as int, m as int)
            && temporal_year_month_from_text(s@) == Some((s@, cal@))),
{
    let p = TemporalPym::try_new(y, m, None, Calendar::try_from_utf8(cal.as_bytes())?)?;
    Ok(p.to_ixdtf_string(DisplayCalendar::default()))
}

/// Adds a duration to a stored year-month.
///
/// Calls `temporal_rs::PlainYearMonth::add` with `Overflow::Constrain`, then
/// `to_ixdtf_string` with `DisplayCalendar::Never`. Claimed: it can succeed
/// only when the calendar loads, the year-month and the duration are
/// accepted; then the result is `temporal_year_month_add`.
#[verifier::external_body]
fn outside_year_month_add(y: i32, m: u8, cal: &str, dur: &Duration) -> (r: Result<String, temporal_rs::TemporalError>)
    ensures
        r is Ok ==> temporal_calendar_id(cal@) is Some && accepted_year_month(y as int, m as int)
            && temporal_accepts_duration(*dur),
        temporal_calendar_id(cal@) is Some && accepted_year_month(y as int, m as int)
            && temporal_accepts_duration(*dur) ==> match r {
                Ok(s) => temporal_year_month_add(y, m, cal@, *dur) == Some(s@),
                Err(_) => temporal_year_month_add(y, m, cal@, *dur) is None,
            },
{
    let p = TemporalPym::try_new(y, m, None, Calendar::try_from_utf8(cal.as_bytes())?)?
        .add(&to_temporal_duration(dur)?, Overflow::Constrain)?;
    Ok(p.to_ixdtf_string(DisplayCalendar::Never))
}

/// Subtracts a duration from a stored year-month.
///
/// Calls `temporal_rs::PlainYearMonth::subtract` with `Overflow::Constrain`,
/// which adds the negated duration. Claimed as for `outside_year_month_add`,
/// with the duration negated.
#[verifier::external_body]
fn outside_year_month_subtract(y: i32, m: u8, cal: &str, dur: &Duration) -> (r: Result<String, temporal_rs::TemporalError>)
    ensures
        r is Ok ==> temporal_calendar_id(cal@) is Some && accepted_year_month(y as int, m as int)
            && temporal_accepts_duration(negate(*dur)),
        temporal_calendar_id(cal@) is Some && accepted_year_month(y as int, m as int)
            && temporal_accepts_duration(negate(*dur)) ==> match r {
                Ok(s) => temporal_year_month_add(y, m, cal@, negate(*dur)) == Some(s@),
                Err(_) => temporal_year_month_add(y, m, cal@, negate(*dur)) is None,
            },
{
    let p = TemporalPym::try_new(y, m, None, Calendar::try_from_utf8(cal.as_bytes())?)?
        .subtract(&to_temporal_duration(dur)?, Overflow::Constrain)?;
    Ok(p.to_ixdtf_string(DisplayCalendar::Never))
}

/// The duration from one stored year-month to another.
///
/// Calls `temporal_rs::PlainYearMonth::until` with the default settings.
/// Claimed: it can succeed only when both calendars load and both are
/// accepted; then the result is `temporal_year_month_until`.
#[verifier::external_body]
fn outside_year_month_until(a: (i32, u8), b: (i32, u8), cal_a: &str, cal_b: &str) -> (r: Result<Duration, temporal_rs::TemporalError>)
    ensures
        r is Ok ==> temporal_calendar_id(cal_a@) is Some && temporal_calendar_id(cal_b@) is Some
            && accepted_year_month(a.0 as int, a.1 as int) && accepted_year_month(b.0 as int, b.1 as int),
        temporal_calendar_id(cal_a@) is Some && temporal_calendar_id(cal_b@) is Some
            && accepted_year_month(a.0 as int, a.1 as int) && accepted_year_month(b.0 as int, b.1 as int) ==> match r {
                Ok(v) => temporal_year_month_until(a, b, cal_a@, cal_b@) == Some(v),
                Err(_) => temporal_year_month_until(a, b, cal_a@, cal_b@) is None,
            },
{
    let x = TemporalPym::try_new(a.0, a.1, None, Calendar::try_from_utf8(cal_a.as_bytes())?)?;
    let y = TemporalPym::try_new(b.0, b.1, None, Calendar::try_from_utf8(cal_b.as_bytes())?)?;
    Ok(from_temporal_duration(&x.until(&y, Default::default())?))
}

/// The duration elapsed from one stored year-month to another.
///
/// Calls `temporal_rs::PlainYearMonth::since` with the default settings.
/// Claimed, from its source (`diff`, no rounding at month precision): the
/// `until` result, negated.
#[verifier::external_body]
fn outside_year_month_since(a: (i32, u8), b: (i32, u8), cal_a: &str, cal_b: &str) -> (r: Result<Duration, temporal_rs::TemporalError>)
    ensures
        r is Ok ==> temporal_calendar_id(cal_a@) is Some && temporal_calendar_id(cal_b@) is Some
            && accepted_year_month(a.0 as int, a.1 as int) && accepted_year_month(b.0 as int, b.1 as int),
        temporal_calendar_id(cal_a@) is Some && temporal_calendar_id(cal_b@) is Some
            && accepted_year_month(a.0 as int, a.1 as int) && accepted_year_month(b.0 as int, b.1 as int) ==> match r {
                Ok(v) => temporal_year_month_until(a, b, cal_a@, cal_b@) == Some(negate(v)),
                Err(_) => temporal_year_month_until(a, b, cal_a@, cal_b@) is None,
            },
{
    let x = TemporalPym::try_new(a.0, a.1, None, Calendar::try_from_utf8(cal_a.as_bytes())?)?;
    let y = TemporalPym::try_new(b.0, b.1, None, Calendar::try_from_utf8(cal_b.as_bytes())?)?;
    Ok(from_temporal_duration(&x.since(&y, Default::default())?))
}

// ---------------------------------------------------------------------------
// Storage
// ---------------------------------------------------------------------------

/// The stored year-month of a text form and a calendar identifier: an
/// unreadable text is `BadYearMonthText`, a calendar outside the table
/// `UnsupportedCalendar`.
pub open spec fn stored_year_month(text: Seq<char>, cal_id: Seq<char>) -> Result<PlainYearMonth, Error> {
    match year_month_of_text(text) {
        None => Err(Error::BadYearMonthText),
        Some(v) => match index_spec(cal_id) {
            None => Err(Error::UnsupportedCalendar),
            Some(i) => Ok(PlainYearMonth { year: v.0, month: v.1, cal_idx: i }),
        },
    }
}

/// Stores a year-month from its text form and its calendar identifier.
pub fn store_year_month(text: &str, cal_id: &str) -> (r: Result<PlainYearMonth, Error>)
    ensures r == stored_year_month(text@, cal_id@),
{
    let (year, month) = match parse_year_month_text(text) {
        Some(v) => v,
        None => { return Err(Error::BadYearMonthText); },
    };
    match index_of(cal_id) {
        Some(i) => {
            proof {
                let k = choose|k: int| 0 <= k < CALENDAR_COUNT && calendar_names()[k] == cal_id@;
                lemma_calendar_names_distinct(k, i as int);
            }
            Ok(PlainYearMonth { year, month, cal_idx: i })
        },
        None => Err(Error::UnsupportedCalendar),
    }
}

// ---------------------------------------------------------------------------
// Construction, text and accessors
// ---------------------------------------------------------------------------

/// Builds a plain year-month from an ISO year and month and a calendar name
/// (`iso8601` by default).
///
/// A month outside `u8` is refused with `InvalidField`; then the calendar
/// must be known and have a stored index; then the year and month must be
/// accepted.
pub fn make_plainyearmonth(year: i32, month: i32, cal: &str) -> (r: Result<PlainYearMonth, Error>)
    ensures
        !(0 <= month <= 255) ==> r == Err::<PlainYearMonth, Error>(Error::InvalidField(Field::Month, month)),
        0 <= month <= 255 ==> match calendar_index_result(cal@) {
            None => r matches Err(e) && e is Temporal,
            Some(None) => r == Err::<PlainYearMonth, Error>(Error::UnsupportedCalendar),
            Some(Some(i)) => if accepted_year_month(year as int, month as int) {
                r == Ok::<PlainYearMonth, Error>(PlainYearMonth { year, month: month as u8, cal_idx: i })
            } else {
                r matches Err(e) && e is Temporal
            },
        },
{
    let m = field_u8(month, Field::Month)?;
    let cal_idx = calendar_index(cal)?;
    match outside_year_month_check(year, m) {
        Ok(()) => Ok(PlainYearMonth { year, month: m, cal_idx }),
        Err(e) => Err(from_temporal_error(e)),
    }
}

/// The calendar year and month of a stored year-month, when it loads.
pub open spec fn year_month_fields_result(p: PlainYearMonth) -> Option<(i32, u8)> {
    if year_month_loads(p) {
        let f = temporal_date_fields(p.year, p.month, 1, stored_name(p.cal_idx));
        Some((f.0, f.1))
    } else {
        None
    }
}

fn year_month_fields(p: &PlainYearMonth) -> (r: Result<(i32, u8), Error>)
    ensures
        p.cal_idx >= CALENDAR_COUNT ==> r == Err::<(i32, u8), Error>(Error::UnknownCalendarIndex(p.cal_idx)),
        r is Ok && (p.cal_idx == ISO8601_INDEX || temporal_calendar_id(stored_name(p.cal_idx)) == Some("iso8601"@))
            ==> r == Ok::<(i32, u8), Error>((p.year, p.month)),
        match year_month_fields_result(*p) {
            Some(v) => r == Ok::<(i32, u8), Error>(v),
            None => r is Err,
        },
{
    let name = stored_calendar(p.cal_idx)?;
    proof {
        reveal_strlit("iso8601");
        assert(calendar_names()[12] == "iso8601"@);
    }
    match outside_year_month_fields(p.year, p.month, name) {
        Ok(v) => Ok(v),
        Err(e) => Err(from_temporal_error(e)),
    }
}

/// The year in the year-month's calendar.
pub fn plain_year_month_year(p: PlainYearMonth) -> (r: Result<i32, Error>)
    ensures
        p.cal_idx >= CALENDAR_COUNT ==> r == Err::<i32, Error>(Error::UnknownCalendarIndex(p.cal_idx)),
        r is Ok && (p.cal_idx == ISO8601_INDEX || temporal_calendar_id(stored_name(p.cal_idx)) == Some("iso8601"@)) ==> r == Ok::<i32, Error>(p.year as i32),
        match year_month_fields_result(p) {
            Some(v) => r == Ok::<i32, Error>(v.0),
            None => r is Err,
        },
{
    let v = year_month_fields(&p)?;
    Ok(v.0)
}

/// The month (1-based) in the year-month's calendar.
pub fn plain_year_month_month(p: PlainYearMonth) -> (r: Result<i32, Error>)
    ensures
        p.cal_idx >= CALENDAR_COUNT ==> r == Err::<i32, Error>(Error::UnknownCalendarIndex(p.cal_idx)),
        r is Ok && (p.cal_idx == ISO8601_INDEX || temporal_calendar_id(stored_name(p.cal_idx)) == Some("iso8601"@)) ==> r == Ok::<i32, Error>(p.month as i32),
        match year_month_fields_result(p) {
            Some(v) => r == Ok::<i32, Error>(v.1 as i32),
            None => r is Err,
        },
{
    let v = year_month_fields(&p)?;
    Ok(v.1 as i32)
}

/// The identifier of the year-month's calendar.
pub fn plain_year_month_calendar(p: PlainYearMonth) -> (r: Result<String, Error>)
    ensures
        p.cal_idx < CALENDAR_COUNT ==> (r matches Ok(s) && s@ == stored_name(p.cal_idx)),
        p.cal_idx >= CALENDAR_COUNT ==> r == Err::<String, Error>(Error::UnknownCalendarIndex(p.cal_idx)),
{
    calendar_name(p.cal_idx)
}

/// Whether reading `s` back with `PlainYearMonth::parse` gives `p`.
pub open spec fn year_month_reads_back(p: PlainYearMonth, s: Seq<char>) -> bool {
    match temporal_year_month_from_text(s) {
        Some(v) => stored_year_month(v.0, v.1) == Ok::<PlainYearMonth, Error>(p),
        None => false,
    }
}

impl PlainYearMonth {
    /// Reads a year-month from its text form (`2025-03`, ...).
    pub fn parse(text: &str) -> (r: Result<PlainYearMonth, Error>)
        ensures
            match temporal_year_month_from_text(text@) {
                None => r matches Err(e) && e is Temporal,
                Some(v) => r == stored_year_month(v.0, v.1),
            },
    {
        match outside_year_month_from_text(text) {
            Ok(v) => store_year_month(v.0.as_str(), v.1),
            Err(e) => Err(from_temporal_error(e)),
        }
    }

    /// The text form of the year-month; the calendar is shown unless it is ISO 8601.
    pub fn to_text(&self) -> (r: Result<String, Error>)
        ensures
            self.cal_idx >= CALENDAR_COUNT ==> r == Err::<String, Error>(Error::UnknownCalendarIndex(self.cal_idx)),
            r is Ok <==> year_month_loads(*self),
            r matches Ok(s) ==> s@ == temporal_year_month_text(self.year, self.month, stored_name(self.cal_idx)),
            r matches Ok(s) ==> (self.cal_idx == ISO8601_INDEX ==> year_month_reads_back(*self, s@)),
    {
        proof {
            reveal_strlit("iso8601");
            assert(calendar_names()[12] == "iso8601"@);
            lemma_index_spec_of_stored(ISO8601_INDEX);
        }
        let name = stored_calendar(self.cal_idx)?;
        match outside_year_month_text(self.year, self.month, name) {
            Ok(s) => {
                proof {
                    if self.cal_idx == ISO8601_INDEX {
                        lemma_iso_year_month_text_reads(self.year, self.month);
                    }
                }
                Ok(s)
            },
            Err(e) => Err(from_temporal_error(e)),
        }
    }
}

// ---------------------------------------------------------------------------
// Order
// ---------------------------------------------------------------------------

/// -1, 0 or 1 as `a` is before, equal to or after `b`: by ISO year, month,
/// then calendar index.
pub open spec fn year_month_order(a: PlainYearMonth, b: PlainYearMonth) -> int {
    if a.year != b.year { if a.year < b.year { -1 } else { 1 } }
    else if a.month != b.month { if a.month < b.month { -1 } else { 1 } }
    else if a.cal_idx != b.cal_idx { if a.cal_idx < b.cal_idx { -1 } else { 1 } }
    else { 0 }
}

/// Compares two plain year-months (the order of the SQL operators and of
/// `ORDER BY`).
pub fn plain_year_month_compare(a: PlainYearMonth, b: PlainYearMonth) -> (r: i32)
    ensures r == year_month_order(a, b),
{
    if a.year != b.year { if a.year < b.year { -1 } else { 1 } }
    else if a.month != b.month { if a.month < b.month { -1 } else { 1 } }
    else if a.cal_idx != b.cal_idx { if a.cal_idx < b.cal_idx { -1 } else { 1 } }
    else { 0 }
}

/// The order of plain year-months is a total order: zero exactly on equal
/// values, flipped with its arguments, and transitive.
pub proof fn lemma_year_month_order(a: PlainYearMonth, b: PlainYearMonth, c: PlainYearMonth)
    ensures
        year_month_order(a, b) == 0 <==> a == b,
        year_month_order(a, b) == -year_month_order(b, a),
        year_month_order(a, b) < 0 && year_month_order(b, c) < 0 ==> year_month_order(a, c) < 0,
{
}

/// Plain year-months are ordered as their ISO months fall in time: an
/// earlier year, or the same year and an earlier month, comes first; the
/// calendar only separates values with the same ISO year and month.
pub proof fn lemma_year_month_order_chronological(a: PlainYearMonth, b: PlainYearMonth)
    ensures
        a.year < b.year || (a.year == b.year && a.month < b.month) ==> year_month_order(a, b) < 0,
{
}

// ---------------------------------------------------------------------------
// Arithmetic
// ---------------------------------------------------------------------------

/// What adding `dur` to a stored year-month gives, when `temporal_rs`
/// computes a sum: the year-month stored from the sum's text form and the
/// identifier of the calendar it was rebuilt with.
pub open spec fn year_month_plus(p: PlainYearMonth, dur: Duration) -> Option<Result<PlainYearMonth, Error>> {
    if year_month_loads(p) && temporal_accepts_duration(dur) {
        match (temporal_year_month_add(p.year, p.month, stored_name(p.cal_idx), dur),
            temporal_calendar_id(stored_name(p.cal_idx))) {
            (Some(s), Some(id)) => Some(stored_year_month(s, id)),
            _ => None,
        }
    } else {
        None
    }
}

fn rebuilt_calendar_id(name: &str) -> (r: Result<&'static str, Error>)
    requires temporal_calendar_id(name@) is Some,
    ensures r matches Ok(id) && temporal_calendar_id(name@) == Some(id@),
{
    match crate::calendar::calendar_identifier(name) {
        Ok(id) => Ok(id),
        Err(e) => Err(e),
    }
}

/// Adds a duration to a plain year-month (only years and months may be
/// non-zero, per Temporal); the result is constrained to a valid month.
pub fn plain_year_month_add(p: PlainYearMonth, dur: Duration) -> (r: Result<PlainYearMonth, Error>)
    ensures
        p.cal_idx >= CALENDAR_COUNT ==> r == Err::<PlainYearMonth, Error>(Error::UnknownCalendarIndex(p.cal_idx)),
        match year_month_plus(p, dur) {
            Some(v) => r == v,
            None => r is Err,
        },
{
    let name = stored_calendar(p.cal_idx)?;
    match outside_year_month_add(p.year, p.month, name, &dur) {
        Ok(s) => {
            let id = rebuilt_calendar_id(name)?;
            store_year_month(s.as_str(), id)
        },
        Err(e) => Err(from_temporal_error(e)),
    }
}

/// Subtracts a duration from a plain year-month, as adding its negation.
pub fn plain_year_month_subtract(p: PlainYearMonth, dur: Duration) -> (r: Result<PlainYearMonth, Error>)
    ensures
        p.cal_idx >= CALENDAR_COUNT ==> r == Err::<PlainYearMonth, Error>(Error::UnknownCalendarIndex(p.cal_idx)),
        match year_month_plus(p, negate(dur)) {
            Some(v) => r == v,
            None => r is Err,
        },
{
    let name = stored_calendar(p.cal_idx)?;
    match outside_year_month_subtract(p.year, p.month, name, &dur) {
        Ok(s) => {
            let id = rebuilt_calendar_id(name)?;
            store_year_month(s.as_str(), id)
        },
        Err(e) => Err(from_temporal_error(e)),
    }
}

/// The duration from `p` to `other`, when both load.
pub open spec fn year_month_difference(p: PlainYearMonth, other: PlainYearMonth) -> Option<Duration> {
    if year_month_loads(p) && year_month_loads(other) {
        temporal_year_month_until((p.year, p.month), (other.year, other.month),
            stored_name(p.cal_idx), stored_name(other.cal_idx))
    } else {
        None
    }
}

/// The duration from `p` to `other`, with years as the largest unit.
pub fn plain_year_month_until(p: PlainYearMonth, other: PlainYearMonth) -> (r: Result<Duration, Error>)
    ensures
        p.cal_idx >= CALENDAR_COUNT ==> r == Err::<Duration, Error>(Error::UnknownCalendarIndex(p.cal_idx)),
        p.cal_idx < CALENDAR_COUNT && other.cal_idx >= CALENDAR_COUNT
            ==> r == Err::<Duration, Error>(Error::UnknownCalendarIndex(other.cal_idx)),
        match year_month_difference(p, other) {
            Some(d) => r == Ok::<Duration, Error>(d),
            None => r is Err,
        },
{
    let a = stored_calendar(p.cal_idx)?;
    let b = stored_calendar(other.cal_idx)?;
    match outside_year_month_until((p.year, p.month), (other.year, other.month), a, b) {
        Ok(d) => Ok(d),
        Err(e) => Err(from_temporal_error(e)),
    }
}

/// The duration elapsed from `other` to `p`: the negation of `p` until `other`.
pub fn plain_year_month_since(p: PlainYearMonth, other: PlainYearMonth) -> (r: Result<Duration, Error>)
    ensures
        p.cal_idx >= CALENDAR_COUNT ==> r == Err::<Duration, Error>(Error::UnknownCalendarIndex(p.cal_idx)),
        p.cal_idx < CALENDAR_COUNT && other.cal_idx >= CALENDAR_COUNT
            ==> r == Err::<Duration, Error>(Error::UnknownCalendarIndex(other.cal_idx)),
        match year_month_difference(p, other) {
            Some(d) => r matches Ok(v) && d == negate(v),
            None => r is Err,
        },
{
    let a = stored_calendar(p.cal_idx)?;
    let b = stored_calendar(other.cal_idx)?;
    match outside_year_month_since((p.year, p.month), (other.year, other.month), a, b) {
        Ok(d) => Ok(d),
        Err(e) => Err(from_temporal_error(e)),
    }
}

} // verus!
