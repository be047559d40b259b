use pg_temporal::calendar::{calendar_identifier, name_of};
use pg_temporal::usage::instants::instant_text_round_trip;
use pg_temporal::usage::plain_date_times::pdt_text_round_trip;
use pg_temporal::usage::plain_dates::pd_text_round_trip;
use pg_temporal::usage::plain_times::pt_text_round_trip;
use pg_temporal::usage::durations::{dur_reread, dur_text_round_trip};
use pg_temporal::usage::settings::zdt_text_round_trip;
use pg_temporal::usage::plain_month_days::pmd_text_round_trip;
use pg_temporal::usage::plain_year_months::pym_text_round_trip;
use pg_temporal::duration::{duration_abs, duration_negated, duration_sign, Duration};
use pg_temporal::duration_order::duration_compare;
use pg_temporal::gucs::DisambiguationGuc;
use pg_temporal::instant::{
    instant_add, instant_compare, instant_from_epoch_ns, instant_since, instant_subtract, instant_to_timestamptz,
    instant_until, make_instant, timestamptz_to_instant, Instant,
};
use pg_temporal::plain_date::{plain_date_compare, PlainDate};
use pg_temporal::plain_month_day::{plain_month_day_compare, PlainMonthDay};
use pg_temporal::plain_time::{plaintime_add, plaintime_since, plaintime_subtract, plaintime_until, PlainTime};
use pg_temporal::plain_year_month::{plain_year_month_compare, PlainYearMonth};
use pg_temporal::zoned_datetime::{zoned_datetime_compare, zoned_datetime_eq, ZonedDateTime};

fn dur(text: &str) -> Duration {
    Duration::parse(text).unwrap()
}

fn instant(text: &str) -> Instant {
    Instant::parse(text).unwrap()
}

fn time(text: &str) -> PlainTime {
    PlainTime::parse(text).unwrap()
}

#[test]
fn instant_subtract_undoes_add() {
    let i = instant("2025-03-01T02:16:10.123456789Z");
    for d in ["PT1H", "PT36H15M", "-PT0.000000001S", "PT100000S"] {
        let moved = instant_add(i, dur(d)).unwrap();
        assert_eq!(instant_subtract(moved, dur(d)).unwrap().epoch_ns(), i.epoch_ns());
    }
    assert!(instant_add(i, dur("P1D")).is_err());
}

#[test]
fn instant_until_is_since_reversed() {
    let a = instant("1970-01-01T00:00:00Z");
    let b = instant("2025-03-01T02:16:10.5Z");
    assert_eq!(instant_until(a, b), instant_since(b, a));
    assert_eq!(instant_until(b, a), instant_since(a, b));
    assert_eq!(instant_until(a, b).to_text().unwrap(), "PT1740795370.5S");
}

#[test]
fn timestamptz_round_trip() {
    for us in [0i64, 1, -1, 794_147_696_789_012, -1_262_304_000_000_000, 9_000_000_000_000_000] {
        assert_eq!(instant_to_timestamptz(timestamptz_to_instant(us).unwrap()), us);
    }
    assert!(timestamptz_to_instant(i64::MAX).is_err());
    let late = instant_from_epoch_ns(946_684_800_000_000_999).unwrap();
    assert_eq!(instant_to_timestamptz(late), 0);
    let early = instant_from_epoch_ns(946_684_799_999_999_001).unwrap();
    assert_eq!(instant_to_timestamptz(early), 0);
}

#[test]
fn instant_range_is_checked() {
    assert!(make_instant("8640000000000000000000").is_ok());
    assert!(make_instant("8640000000000000000001").is_err());
    assert!(matches!(make_instant("12x"), Err(pg_temporal::error::Error::NotAnInteger)));
    assert_eq!(instant_compare(make_instant(" 5 ").unwrap(), make_instant("6").unwrap()), -1);
}

#[test]
fn plaintime_subtract_undoes_add() {
    let t = time("23:59:59.999999999");
    for d in ["PT1H", "PT49H30M", "-PT3H", "PT0.000000001S"] {
        let moved = plaintime_add(t, dur(d)).unwrap();
        assert_eq!(plaintime_subtract(moved, dur(d)).unwrap(), t);
    }
    assert_eq!(plaintime_add(t, dur("PT0.000000001S")).unwrap(), time("00:00:00"));
}

#[test]
fn plaintime_until_is_since_reversed() {
    let a = time("08:15:00");
    let b = time("17:45:30.25");
    assert_eq!(plaintime_until(a, b).unwrap(), plaintime_since(b, a).unwrap());
    assert_eq!(plaintime_until(a, b).unwrap().to_text().unwrap(), "PT9H30M30.25S");
    assert_eq!(plaintime_until(b, a).unwrap().to_text().unwrap(), "-PT9H30M30.25S");
}

#[test]
fn negation_is_an_involution_that_flips_the_sign() {
    for text in ["P1Y2M", "-PT1H30M", "PT0S", "P3W"] {
        let d = dur(text);
        let n = duration_negated(d).unwrap();
        assert_eq!(duration_negated(n).unwrap(), d);
        assert_eq!(duration_sign(n), -duration_sign(d));
        let a = duration_abs(d).unwrap();
        assert!(duration_sign(a) >= 0);
        assert_eq!(a, if duration_sign(d) < 0 { n } else { d });
    }
}

#[test]
fn duration_order_is_antisymmetric() {
    let a = dur("PT1H30M");
    let b = dur("PT5400.5S");
    assert_eq!(duration_compare(a, b).unwrap(), -1);
    assert_eq!(duration_compare(b, a).unwrap(), 1);
    assert_eq!(duration_compare(a, dur("PT90M")).unwrap(), 0);
    assert!(duration_compare(dur("P1M"), a).is_err());
}

#[test]
fn orders_are_antisymmetric_and_reflexive() {
    let d1 = PlainDate::parse("2024-02-29").unwrap();
    let d2 = PlainDate::parse("2024-03-01").unwrap();
    assert_eq!(plain_date_compare(d1, d2), -plain_date_compare(d2, d1));
    assert_eq!(plain_date_compare(d1, d1), 0);
    let m1 = PlainMonthDay::parse("02-29").unwrap();
    let m2 = PlainMonthDay::parse("12-25").unwrap();
    assert_eq!(plain_month_day_compare(m1, m2), -1);
    assert_eq!(plain_month_day_compare(m2, m1), 1);
    let y1 = PlainYearMonth::parse("2024-12").unwrap();
    let y2 = PlainYearMonth::parse("2025-01").unwrap();
    assert_eq!(plain_year_month_compare(y1, y2), -1);
    assert_eq!(plain_year_month_compare(y2, y2), 0);
}

#[test]
fn zoned_equality_needs_instant_zone_and_calendar() {
    let utc = ZonedDateTime::parse("2025-03-01T02:16:10+00:00[UTC]", DisambiguationGuc::Compatible).unwrap();
    let tokyo = ZonedDateTime::parse("2025-03-01T11:16:10+09:00[Asia/Tokyo]", DisambiguationGuc::Compatible).unwrap();
    let again = ZonedDateTime::parse("2025-03-01T02:16:10+00:00[UTC]", DisambiguationGuc::Compatible).unwrap();
    assert!(!zoned_datetime_eq(utc.clone(), tokyo.clone()));
    assert_ne!(zoned_datetime_compare(utc.clone(), tokyo.clone()), 0);
    assert_eq!(zoned_datetime_compare(utc.clone(), tokyo.clone()), -zoned_datetime_compare(tokyo, utc.clone()));
    assert!(zoned_datetime_eq(utc, again));
}

#[test]
fn text_round_trips() {
    for text in ["1970-01-01T00:00:00Z", "-271821-04-20T00:00:00Z", "+275760-09-13T00:00:00Z",
        "2025-03-01T02:16:10.000000001Z", "1969-12-31T23:59:59.5Z"] {
        let i = instant(text);
        assert_eq!(instant_text_round_trip(i).unwrap().epoch_ns(), i.epoch_ns(), "{text}");
    }
    for text in ["00:00:00", "23:59:59.999999999", "12:00:00.1", "07:08:09.000001"] {
        let t = time(text);
        assert_eq!(pt_text_round_trip(t).unwrap(), t, "{text}");
    }
    for text in ["2025-03-01", "2025-03-01[u-ca=japanese]", "-000001-01-01", "+275760-09-13",
        "2024-02-29[u-ca=hebrew]", "2025-03-01[u-ca=islamic-civil]"] {
        let d = PlainDate::parse(text).unwrap();
        assert_eq!(pd_text_round_trip(d).unwrap(), d, "{text}");
    }
    let first = PlainDate { year: -271821, month: 4, day: 19, cal_idx: 12 };
    assert!(first.to_text().is_ok());
    assert!(pd_text_round_trip(first).is_err());
    for text in ["2025-03-01T11:16:10", "2025-03-01T00:00:00.000000001[u-ca=persian]", "-271821-04-19T00:00:00.000000001"] {
        let p = pg_temporal::plain_datetime::PlainDateTime::parse(text).unwrap();
        assert_eq!(pdt_text_round_trip(p).unwrap(), p, "{text}");
    }
    for text in ["03-01", "--12-31", "02-29", "1972-01-01"] {
        let p = PlainMonthDay::parse(text).unwrap();
        assert_eq!(pmd_text_round_trip(p).unwrap(), p, "{text}");
    }
    for text in ["2025-03", "0000-01", "9999-12", "+010000-06", "-000001-12", "-271821-04", "+275760-09"] {
        let p = PlainYearMonth::parse(text).unwrap();
        assert_eq!(p.to_text().unwrap(), text);
        assert_eq!(pym_text_round_trip(p).unwrap(), p, "{text}");
    }
    let ym = PlainYearMonth { year: 10000, month: 6, cal_idx: 12 };
    assert_eq!(ym.to_text().unwrap(), "+010000-06");
}

#[test]
fn stored_calendar_names_are_their_identifiers() {
    let mut unknown = Vec::new();
    for i in 0u8..17 {
        let name = name_of(i).unwrap();
        match calendar_identifier(name) {
            Ok(id) => assert_eq!(id, name),
            Err(_) => unknown.push(name),
        }
    }
    assert_eq!(unknown, vec!["julian"]);
}

fn fields(v: [i64; 8], us: i128, ns: i128) -> Duration {
    Duration { years: v[0], months: v[1], weeks: v[2], days: v[3], hours: v[4], minutes: v[5], seconds: v[6],
        milliseconds: v[7], microseconds: us, nanoseconds: ns }
}

#[test]
fn duration_text_reads_back() {
    let cases = [
        fields([0; 8], 0, 0),
        fields([1, 2, 3, 4, 5, 6, 7, 8], 9, 10),
        fields([-1, -2, 0, -4, 0, 0, -7, -999], -999, -999),
        fields([0, 0, 0, 0, 25, 61, 3601, 0], 0, 1),
        fields([0, 0, 0, 0, 0, 0, 0, 0], 0, 5),
        fields([4_294_967_295, 0, 0, 0, 0, 0, 0, 0], 0, 0),
        fields([0, 0, 0, 0, 0, 90, 0, 999], 0, 0),
    ];
    for d in cases {
        assert_eq!(dur_text_round_trip(d).unwrap(), d, "{d:?}");
    }
    // Sub-seconds of a thousand or more come back carried into larger units.
    let unbalanced = fields([0, 0, 0, 0, 0, 0, 0, 1500], 0, 0);
    assert_eq!(unbalanced.to_text().unwrap(), "PT1.5S");
    assert_eq!(dur_text_round_trip(unbalanced).unwrap(), fields([0, 0, 0, 0, 0, 0, 1, 500], 0, 0));
    assert!(dur_text_round_trip(fields([1, -1, 0, 0, 0, 0, 0, 0], 0, 0)).is_err());
    for text in ["PT1.5S", "P1Y2M3W4DT5H6M7.008009010S", "-PT0.000000001S", "PT1.5H", "PT0.25M", "P0D"] {
        assert_eq!(dur_reread(text).unwrap(), dur(text), "{text}");
    }
    assert!(dur_reread("P").is_err());
}

#[test]
fn utc_zoned_text_reads_back() {
    let cases = [
        (0i128, "iso8601"),
        (1_740_795_370_123_456_789, "iso8601"),
        (-1, "japanese"),
        (8_640_000_000_000_000_000_000, "iso8601"),
        (-8_640_000_000_000_000_000_000, "gregory"),
    ];
    for (ns, cal) in cases {
        let z = ZonedDateTime { instant_ns: ns, tz_id: "UTC".to_string(), calendar_id: cal.to_string() };
        for dis in [DisambiguationGuc::Compatible, DisambiguationGuc::Earlier, DisambiguationGuc::Later,
            DisambiguationGuc::Reject] {
            let w = zdt_text_round_trip(&z, dis).unwrap();
            assert_eq!((w.instant_ns, w.tz_id.as_str(), w.calendar_id.as_str()), (ns, "UTC", cal));
        }
    }
    let beyond = ZonedDateTime { instant_ns: 8_640_000_000_000_000_000_001, tz_id: "UTC".to_string(),
        calendar_id: "iso8601".to_string() };
    assert!(zdt_text_round_trip(&beyond, DisambiguationGuc::Compatible).is_err());
    let tokyo = ZonedDateTime::parse("2025-03-01T11:16:10+09:00[Asia/Tokyo]", DisambiguationGuc::Compatible).unwrap();
    assert_eq!(tokyo.to_text().unwrap(), "2025-03-01T11:16:10+09:00[Asia/Tokyo]");
    let again = ZonedDateTime::parse(&tokyo.to_text().unwrap(), DisambiguationGuc::Reject).unwrap();
    assert_eq!((again.instant_ns, again.tz_id, again.calendar_id), (tokyo.instant_ns, tokyo.tz_id, tokyo.calendar_id));
}

fn temporal_message(r: Result<(), pg_temporal::error::Error>) -> String {
    match r {
        Err(pg_temporal::error::Error::Temporal(m)) => m,
        other => panic!("not a temporal_rs error: {other:?}"),
    }
}

#[test]
fn refused_constructors_report_temporal_errors() {
    let kinds = ["Error", "TypeError", "RangeError", "SyntaxError", "ImplementationError"];
    let messages = [
        temporal_message(pg_temporal::usage::plain_dates::pd_make_invalid_date_errors().map(|_| ())),
        temporal_message(pg_temporal::usage::plain_month_days::pmd_make_invalid_day_errors().map(|_| ())),
        temporal_message(pg_temporal::usage::plain_year_months::pym_make_invalid_month_errors().map(|_| ())),
        temporal_message(Duration::parse("P").map(|_| ())),
    ];
    for m in messages {
        assert!(kinds.iter().any(|k| m == *k || m.starts_with(&format!("{k}: "))), "{m}");
    }
}

#[test]
fn duration_add_is_component_wise() {
    let sum = pg_temporal::duration::duration_add(dur("PT1H"), dur("PT90M")).unwrap();
    assert_eq!(sum, fields([0, 0, 0, 0, 1, 90, 0, 0], 0, 0));
    assert_eq!(sum.to_text().unwrap(), "PT1H90M");
    let sum = pg_temporal::duration::duration_add(dur("PT0.9S"), dur("PT0.2S")).unwrap();
    assert_eq!(sum, fields([0, 0, 0, 0, 0, 0, 0, 1100], 0, 0));
    // Mixed signs are not a duration.
    assert!(pg_temporal::duration::duration_add(dur("PT1H"), dur("-PT30M")).is_err());
    assert!(pg_temporal::duration::duration_add(dur("P1D"), dur("PT1H")).is_err());
    let big = fields([0, 0, 0, 0, 0, 0, 0, 5_000_000_000_000_000_000], 0, 0);
    assert!(pg_temporal::duration::duration_add(big, big).is_err());
    // Subtraction balances, as its documented example shows.
    assert_eq!(pg_temporal::duration::duration_subtract(dur("PT2H"), dur("PT30M")).unwrap().to_text().unwrap(), "PT1H30M");
}

#[test]
fn month_day_fields_are_in_their_calendar() {
    assert_eq!(pg_temporal::usage::plain_month_days::pmd_accessor_month_persian().unwrap(), 1);
    let p = PlainMonthDay::parse("1972-03-21[u-ca=persian]").unwrap();
    assert_eq!(pg_temporal::plain_month_day::plain_month_day_day(p).unwrap(), 1);
    let iso = PlainMonthDay::parse("12-25").unwrap();
    assert_eq!(pg_temporal::plain_month_day::plain_month_day_month(iso).unwrap(), 12);
    assert_eq!(pg_temporal::plain_month_day::plain_month_day_day(iso).unwrap(), 25);
}

#[test]
fn month_days_differing_in_reference_year_differ() {
    let a = PlainMonthDay { iso_year: 1972, month: 3, day: 1, cal_idx: 12 };
    let b = PlainMonthDay { iso_year: 1973, month: 3, day: 1, cal_idx: 12 };
    assert_eq!(plain_month_day_compare(a, b), -1);
    assert_eq!(plain_month_day_compare(b, a), 1);
    assert!(!pg_temporal::plain_month_day::plain_month_day_eq(a, b));
    assert_eq!(plain_month_day_compare(a, a), 0);
}

#[test]
fn iso_calendar_accessors_give_the_stored_fields() {
    assert_eq!(pg_temporal::calendar::calendar_index("iso8601").unwrap(), 12);
    assert_eq!(pg_temporal::calendar::calendar_identifier("iso8601").unwrap(), "iso8601");
    let d = PlainDate { year: 2024, month: 2, day: 29, cal_idx: 12 };
    assert_eq!(pg_temporal::plain_date::plain_date_year(d).unwrap(), 2024);
    assert_eq!(pg_temporal::plain_date::plain_date_month(d).unwrap(), 2);
    assert_eq!(pg_temporal::plain_date::plain_date_day(d).unwrap(), 29);
    let ym = PlainYearMonth { year: -5, month: 11, cal_idx: 12 };
    assert_eq!(pg_temporal::plain_year_month::plain_year_month_year(ym).unwrap(), -5);
    assert_eq!(pg_temporal::plain_year_month::plain_year_month_month(ym).unwrap(), 11);
    let p = pg_temporal::plain_datetime::PlainDateTime::parse("2025-12-31T23:59:59").unwrap();
    assert_eq!(pg_temporal::plain_datetime::plain_datetime_day(p).unwrap(), 31);
}

#[test]
fn instant_arithmetic_stays_in_range() {
    let last = pg_temporal::instant::instant_from_epoch_ns(8_640_000_000_000_000_000_000).unwrap();
    assert!(instant_add(last, dur("PT0.000000001S")).is_err());
    assert_eq!(instant_subtract(last, dur("PT0.000000001S")).unwrap().epoch_ns(), 8_639_999_999_999_999_999_999);
    assert!(pg_temporal::instant::instant_from_epoch_ns(8_640_000_000_000_000_000_001).is_err());
}
