use pg_temporal::usage::plain_times as scenario;

#[test]
fn pt_roundtrip_basic() {
    let r = scenario::pt_roundtrip_basic();
    assert_eq!(r.unwrap(), "11:16:10");
}

#[test]
fn pt_roundtrip_midnight() {
    let r = scenario::pt_roundtrip_midnight();
    assert_eq!(r.unwrap(), "00:00:00");
}

#[test]
fn pt_roundtrip_millisecond_precision() {
    let r = scenario::pt_roundtrip_millisecond_precision();
    let s = r.unwrap();
    assert!(s.contains("11:16:10.001"), "got: {s}");
}

#[test]
fn pt_roundtrip_nanosecond_precision() {
    let r = scenario::pt_roundtrip_nanosecond_precision();
    let s = r.unwrap();
    assert!(s.contains("11:16:10.000000001"), "got: {s}");
}

#[test]
fn pt_accessor_hour() {
    let r = scenario::pt_accessor_hour();
    assert_eq!(r.unwrap(), 11);
}

#[test]
fn pt_accessor_minute() {
    let r = scenario::pt_accessor_minute();
    assert_eq!(r.unwrap(), 16);
}

#[test]
fn pt_accessor_second() {
    let r = scenario::pt_accessor_second();
    assert_eq!(r.unwrap(), 10);
}

#[test]
fn pt_accessor_millisecond() {
    let r = scenario::pt_accessor_millisecond();
    assert_eq!(r.unwrap(), 123);
}

#[test]
fn pt_accessor_microsecond() {
    let r = scenario::pt_accessor_microsecond();
    assert_eq!(r.unwrap(), 456);
}

#[test]
fn pt_accessor_nanosecond() {
    let r = scenario::pt_accessor_nanosecond();
    assert_eq!(r.unwrap(), 789);
}

#[test]
fn pt_reject_input_garbage() {
    let r = scenario::pt_reject_input_garbage();
    assert!(r.is_err());
}

#[test]
fn pt_compare_same_is_zero() {
    let r = scenario::pt_compare_same_is_zero();
    assert_eq!(r.unwrap(), 0);
}

#[test]
fn pt_compare_less() {
    let r = scenario::pt_compare_less();
    assert!(r.unwrap() < 0);
}

#[test]
fn pt_operator_lt() {
    let r = scenario::pt_operator_lt();
    assert_eq!(r.unwrap(), true);
}

#[test]
fn pt_operator_eq_true() {
    let r = scenario::pt_operator_eq_true();
    assert_eq!(r.unwrap(), true);
}

#[test]
fn pt_add_one_hour() {
    let r = scenario::pt_add_one_hour();
    assert_eq!(r.unwrap(), "13:00:00");
}

#[test]
fn pt_subtract_one_hour() {
    let r = scenario::pt_subtract_one_hour();
    assert_eq!(r.unwrap(), "12:00:00");
}

#[test]
fn pt_add_wraps_midnight() {
    let r = scenario::pt_add_wraps_midnight();
    assert_eq!(r.unwrap(), "01:00:00");
}

#[test]
fn pt_until_two_hours() {
    let r = scenario::pt_until_two_hours();
    assert_eq!(r.unwrap(), "PT2H");
}

#[test]
fn pt_since_two_hours() {
    let r = scenario::pt_since_two_hours();
    assert_eq!(r.unwrap(), "PT2H");
}

#[test]
fn pt_make_basic_roundtrip() {
    let r = scenario::pt_make_basic_roundtrip();
    assert_eq!(r.unwrap(), "12:30:45");
}

#[test]
fn pt_make_with_sub_second() {
    let r = scenario::pt_make_with_sub_second();
    let s = r.unwrap();
    assert!(s.contains("12:30:45.123456789"), "got: {s}");
}

#[test]
fn pt_make_invalid_hour_errors() {
    let r = scenario::pt_make_invalid_hour_errors();
    assert!(r.is_err());
}

#[test]
fn pt_order_by() {
    let r = scenario::pt_order_by();
    assert_eq!(r.unwrap(), "08:00:00,12:00:00,14:00:00");
}
