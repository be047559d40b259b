use pg_temporal::duration::Duration;
use pg_temporal::error::{Error, Field};
use pg_temporal::plain_time::{
    make_plaintime, plaintime_add, plaintime_compare, plaintime_recv, plaintime_send, plaintime_since,
    plaintime_subtract, plaintime_until, time_to_plaintime, PlainTime,
};

fn time(text: &str) -> PlainTime {
    PlainTime::parse(text).unwrap()
}

fn dur(text: &str) -> Duration {
    Duration::parse(text).unwrap()
}

#[test]
fn time_text_round_trip() {
    assert_eq!(time("11:16:10").to_text().unwrap(), "11:16:10");
    assert_eq!(time("00:00:00").to_text().unwrap(), "00:00:00");
    assert!(time("11:16:10.000000001").to_text().unwrap().contains("11:16:10.000000001"));
}

#[test]
fn time_garbage_is_refused() {
    assert!(matches!(PlainTime::parse("not a time"), Err(Error::Temporal(_))));
}

#[test]
fn time_add_wraps_midnight() {
    let t = plaintime_add(time("23:00:00"), dur("PT2H")).unwrap();
    assert_eq!(t.to_text().unwrap(), "01:00:00");
    let t = plaintime_subtract(time("00:30:00"), dur("PT1H")).unwrap();
    assert_eq!(t.to_text().unwrap(), "23:30:00");
}

#[test]
fn time_difference_in_hours() {
    let d = plaintime_until(time("10:00:00"), time("12:00:00")).unwrap();
    assert_eq!(d.to_text().unwrap(), "PT2H");
    let d = plaintime_since(time("12:00:00"), time("10:00:00")).unwrap();
    assert_eq!(d.to_text().unwrap(), "PT2H");
}

#[test]
fn time_make_checks_fields() {
    let t = make_plaintime(12, 30, 45, 123, 456, 789).unwrap();
    assert_eq!(t.subsecond_ns, 123_456_789);
    assert!(matches!(make_plaintime(25, 0, 0, 0, 0, 0), Err(Error::Temporal(_))));
    assert!(matches!(make_plaintime(300, 0, 0, 0, 0, 0), Err(Error::InvalidField(Field::Hour, 300))));
    assert!(matches!(make_plaintime(1, 0, 0, -1, 0, 0), Err(Error::InvalidField(Field::Millisecond, -1))));
}

#[test]
fn time_order() {
    assert_eq!(plaintime_compare(time("12:00:00"), time("12:00:00")), 0);
    assert!(plaintime_compare(time("00:00:00"), time("01:00:00")) < 0);
    assert!(plaintime_compare(time("00:00:00.5"), time("00:00:00.25")) > 0);
}

#[test]
fn time_binary_round_trip() {
    let t = time("11:16:10.123456789");
    let bytes = plaintime_send(t);
    assert_eq!(bytes, vec![0x07, 0x5B, 0xCD, 0x15, 11, 16, 10]);
    assert_eq!(plaintime_recv(&bytes).unwrap(), t);
    assert!(matches!(plaintime_recv(&bytes[..6]), Err(Error::BadBinaryLength)));
}

#[test]
fn time_from_pg_time() {
    let t = time_to_plaintime(10, 20, 30, 30_250_500).unwrap();
    assert_eq!(t.subsecond_ns, 250_500_000);
    assert!(time_to_plaintime(24, 0, 0, 0).is_err());
}
