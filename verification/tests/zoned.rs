use pg_temporal::duration::Duration;
use pg_temporal::gucs::DisambiguationGuc;
use pg_temporal::zoned_datetime::{
    make_zoneddatetime, zoned_datetime_add, zoned_datetime_calendar, zoned_datetime_compare, zoned_datetime_epoch_ns,
    zoned_datetime_eq, zoned_datetime_lt, zoned_datetime_since, zoned_datetime_subtract, zoned_datetime_timezone,
    zoned_datetime_until, ZonedDateTime,
};

fn zdt(text: &str) -> ZonedDateTime {
    ZonedDateTime::parse(text, DisambiguationGuc::Compatible).unwrap()
}

fn text_of(text: &str) -> String {
    zdt(text).to_text().unwrap()
}

#[test]
fn zoned_roundtrip_basic() {
    assert_eq!(text_of("2025-03-01T11:16:10+09:00[Asia/Tokyo]"), "2025-03-01T11:16:10+09:00[Asia/Tokyo]");
    assert_eq!(text_of("2025-03-01T00:00:00+00:00[UTC]"), "2025-03-01T00:00:00+00:00[UTC]");
    assert!(text_of("1970-01-01T00:00:00.001+00:00[UTC]").contains("00:00:00.001"));
    assert!(text_of("1970-01-01T00:00:00.000000001+00:00[UTC]").contains("00:00:00.000000001"));
}

#[test]
fn zoned_accessors() {
    let z = zdt("2025-03-01T11:16:10+09:00[Asia/Tokyo]");
    assert_eq!(zoned_datetime_timezone(z.clone()), "Asia/Tokyo");
    assert_eq!(zoned_datetime_calendar(z), "iso8601");
    assert_eq!(zoned_datetime_calendar(zdt("2025-03-01T11:16:10+09:00[Asia/Tokyo][u-ca=iso8601]")), "iso8601");
    assert_eq!(zoned_datetime_epoch_ns(zdt("1970-01-01T00:00:00+00:00[UTC]")), "0");
    assert_eq!(zoned_datetime_epoch_ns(zdt("2025-03-01T00:00:00+00:00[UTC]")), "1740787200000000000");
    assert_eq!(
        zoned_datetime_epoch_ns(zdt("2025-03-01T02:16:10+00:00[UTC]")),
        zoned_datetime_epoch_ns(zdt("2025-03-01T11:16:10+09:00[Asia/Tokyo]"))
    );
}

#[test]
fn zoned_rejects_bad_text() {
    for text in ["2025-03-01T11:16:10+09:00", "not a datetime", "2025-03-01T11:16:10+00:00[Asia/Tokyo]"] {
        assert!(ZonedDateTime::parse(text, DisambiguationGuc::Compatible).is_err(), "{text}");
    }
}

#[test]
fn zoned_order() {
    let a = zdt("2025-03-01T00:00:00+00:00[UTC]");
    let b = zdt("2025-03-02T00:00:00+00:00[UTC]");
    assert_eq!(zoned_datetime_compare(a.clone(), a.clone()), 0);
    assert!(zoned_datetime_compare(a.clone(), b.clone()) < 0);
    assert!(zoned_datetime_lt(a.clone(), b));
    assert!(zoned_datetime_eq(a.clone(), a.clone()));
    assert!(!zoned_datetime_eq(a, zdt("2025-03-01T00:00:00+00:00[UTC][u-ca=japanese]")));
}

#[test]
fn zoned_arithmetic() {
    let a = zdt("2025-03-01T00:00:00+00:00[UTC]");
    let hour = Duration::parse("PT1H").unwrap();
    assert_eq!(zoned_datetime_add(a.clone(), hour).unwrap().to_text().unwrap(), "2025-03-01T01:00:00+00:00[UTC]");
    let b = zdt("2025-03-01T01:00:00+00:00[UTC]");
    assert_eq!(zoned_datetime_subtract(b, hour).unwrap().to_text().unwrap(), "2025-03-01T00:00:00+00:00[UTC]");
    let c = zdt("2025-03-01T02:00:00+00:00[UTC]");
    assert_eq!(zoned_datetime_until(a.clone(), c.clone()).unwrap().to_text().unwrap(), "PT2H");
    assert_eq!(zoned_datetime_since(c, a).unwrap().to_text().unwrap(), "PT2H");
}

#[test]
fn zoned_calendars_round_trip() {
    let j = text_of("2025-03-01T11:16:10+09:00[Asia/Tokyo][u-ca=japanese]");
    assert!(j.contains("2025-03-01T11:16:10") && j.contains("[Asia/Tokyo]") && j.contains("[u-ca=japanese]"));
    let p = text_of("2025-03-01T00:00:00+00:00[UTC][u-ca=persian]");
    assert!(p.contains("2025-03-01") && p.contains("[u-ca=persian]"));
    assert_eq!(zoned_datetime_calendar(zdt("2025-03-01T11:16:10+09:00[Asia/Tokyo][u-ca=japanese]")), "japanese");
}

#[test]
fn zoned_make() {
    assert_eq!(zoned_datetime_epoch_ns(make_zoneddatetime("1609459200000000000", "UTC", "iso8601").unwrap()),
        "1609459200000000000");
    assert_eq!(zoned_datetime_timezone(make_zoneddatetime("0", "America/New_York", "iso8601").unwrap()),
        "America/New_York");
    assert_eq!(zoned_datetime_calendar(make_zoneddatetime("0", "UTC", "iso8601").unwrap()), "iso8601");
    let text = make_zoneddatetime("1609459200000000000", "UTC", "iso8601").unwrap().to_text().unwrap();
    assert!(text.contains("2021-01-01") && text.contains("[UTC]"));
    assert!(make_zoneddatetime("0", "Not/ATimezone", "iso8601").is_err());
    assert!(matches!(make_zoneddatetime("not_a_number", "UTC", "iso8601"),
        Err(pg_temporal::error::Error::NotAnInteger)));
}

#[test]
fn wall_clock_in_zone() {
    let p = pg_temporal::plain_datetime::plaindatetime_in_zone(1_740_795_370_000_000_000, "Asia/Tokyo").unwrap();
    assert_eq!(p.to_text().unwrap(), "2025-03-01T11:16:10");
    assert!(pg_temporal::plain_datetime::plaindatetime_in_zone(0, "Not/AZone").is_err());
}
