use pg_temporal::usage::plain_date_times as scenario;

#[test]
fn pdt_roundtrip_basic() {
    let r = scenario::pdt_roundtrip_basic();
    assert_eq!(r.unwrap(), "2025-03-01T11:16:10");
}

#[test]
fn pdt_roundtrip_midnight() {
    let r = scenario::pdt_roundtrip_midnight();
    assert_eq!(r.unwrap(), "2025-03-01T00:00:00");
}

#[test]
fn pdt_roundtrip_millisecond_precision() {
    let r = scenario::pdt_roundtrip_millisecond_precision();
    let s = r.unwrap();
    assert!(s.contains("11:16:10.001"), "got: {s}");
}

#[test]
fn pdt_roundtrip_nanosecond_precision() {
    let r = scenario::pdt_roundtrip_nanosecond_precision();
    let s = r.unwrap();
    assert!(s.contains("11:16:10.000000001"), "got: {s}");
}

#[test]
fn pdt_roundtrip_explicit_calendar_annotation() {
    let r = scenario::pdt_roundtrip_explicit_calendar_annotation();
    assert_eq!(r.unwrap(), "2025-03-01T11:16:10");
}

#[test]
fn pdt_accessor_year() {
    let r = scenario::pdt_accessor_year();
    assert_eq!(r.unwrap(), 2025);
}

#[test]
fn pdt_accessor_month() {
    let r = scenario::pdt_accessor_month();
    assert_eq!(r.unwrap(), 3);
}

#[test]
fn pdt_accessor_day() {
    let r = scenario::pdt_accessor_day();
    assert_eq!(r.unwrap(), 1);
}

#[test]
fn pdt_accessor_hour() {
    let r = scenario::pdt_accessor_hour();
    assert_eq!(r.unwrap(), 11);
}

#[test]
fn pdt_accessor_minute() {
    let r = scenario::pdt_accessor_minute();
    assert_eq!(r.unwrap(), 16);
}

#[test]
fn pdt_accessor_second() {
    let r = scenario::pdt_accessor_second();
    assert_eq!(r.unwrap(), 10);
}

#[test]
fn pdt_accessor_millisecond() {
    let r = scenario::pdt_accessor_millisecond();
    assert_eq!(r.unwrap(), 123);
}

#[test]
fn pdt_accessor_microsecond() {
    let r = scenario::pdt_accessor_microsecond();
    assert_eq!(r.unwrap(), 456);
}

#[test]
fn pdt_accessor_nanosecond() {
    let r = scenario::pdt_accessor_nanosecond();
    assert_eq!(r.unwrap(), 789);
}

#[test]
fn pdt_accessor_calendar_defaults_to_iso8601() {
    let r = scenario::pdt_accessor_calendar_defaults_to_iso8601();
    assert_eq!(r.unwrap(), "iso8601");
}

#[test]
fn pdt_reject_input_garbage() {
    let r = scenario::pdt_reject_input_garbage();
    assert!(r.is_err());
}

#[test]
fn pdt_compare_same_is_zero() {
    let r = scenario::pdt_compare_same_is_zero();
    assert_eq!(r.unwrap(), 0);
}

#[test]
fn pdt_compare_less() {
    let r = scenario::pdt_compare_less();
    assert!(r.unwrap() < 0);
}

#[test]
fn pdt_operator_lt() {
    let r = scenario::pdt_operator_lt();
    assert_eq!(r.unwrap(), true);
}

#[test]
fn pdt_operator_eq_true() {
    let r = scenario::pdt_operator_eq_true();
    assert_eq!(r.unwrap(), true);
}

#[test]
fn pdt_add_one_day() {
    let r = scenario::pdt_add_one_day();
    assert_eq!(r.unwrap(), "2025-03-02T12:00:00");
}

#[test]
fn pdt_subtract_one_day() {
    let r = scenario::pdt_subtract_one_day();
    assert_eq!(r.unwrap(), "2025-03-01T12:00:00");
}

#[test]
fn pdt_until_one_day() {
    let r = scenario::pdt_until_one_day();
    assert_eq!(r.unwrap(), "P1D");
}

#[test]
fn pdt_since_one_day() {
    let r = scenario::pdt_since_one_day();
    assert_eq!(r.unwrap(), "P1D");
}

#[test]
fn pdt_roundtrip_japanese_calendar() {
    let r = scenario::pdt_roundtrip_japanese_calendar();
    let s = r.unwrap();
    assert!(s.contains("2025-03-01T11:16:10"), "got: {s}");
    assert!(s.contains("[u-ca=japanese]"), "got: {s}");
}

#[test]
fn pdt_roundtrip_persian_calendar() {
    let r = scenario::pdt_roundtrip_persian_calendar();
    let s = r.unwrap();
    assert!(s.contains("2025-03-01"), "got: {s}");
    assert!(s.contains("[u-ca=persian]"), "got: {s}");
}

#[test]
fn pdt_multi_calendar_accessor_returns_correct_name() {
    let r = scenario::pdt_multi_calendar_accessor_returns_correct_name();
    assert_eq!(r.unwrap(), "japanese");
}

#[test]
fn pdt_year_accessor_returns_calendar_year_for_persian() {
    let r = scenario::pdt_year_accessor_returns_calendar_year_for_persian();
    let y = r.unwrap();
    assert!(y > 1000 && y < 2000, "got {y}");
}

#[test]
fn pdt_iso_calendar_year_month_day_match() {
    let r = scenario::pdt_iso_calendar_year_month_day_match();
    assert_eq!(r.unwrap(), (2025, 3, 1));
}

#[test]
fn pdt_make_basic_roundtrip() {
    let r = scenario::pdt_make_basic_roundtrip();
    assert_eq!(r.unwrap(), "2025-06-15T12:30:45");
}

#[test]
fn pdt_make_with_sub_second() {
    let r = scenario::pdt_make_with_sub_second();
    let s = r.unwrap();
    assert!(s.contains("12:30:45.123456789"), "got: {s}");
}

#[test]
fn pdt_make_defaults_match_explicit_zero() {
    let r = scenario::pdt_make_defaults_match_explicit_zero();
    assert_eq!(r.unwrap(), true);
}

#[test]
fn pdt_make_calendar_stored() {
    let r = scenario::pdt_make_calendar_stored();
    assert_eq!(r.unwrap(), "iso8601");
}

#[test]
fn pdt_make_invalid_date_errors() {
    let r = scenario::pdt_make_invalid_date_errors();
    assert!(r.is_err());
}

#[test]
fn pg_cast_timestamp_to_plaindatetime_basic() {
    let r = scenario::pg_cast_timestamp_to_plaindatetime_basic();
    assert_eq!(r.unwrap(), "2025-03-01T11:16:10");
}

#[test]
fn pg_cast_timestamp_to_plaindatetime_microseconds_parsed() {
    let r = scenario::pg_cast_timestamp_to_plaindatetime_microseconds_parsed();
    assert_eq!(r.unwrap(), (123, 456, 0));
}

#[test]
fn pg_cast_timestamp_microsecond_roundtrip() {
    let r = scenario::pg_cast_timestamp_microsecond_roundtrip();
    assert_eq!(r.unwrap(), true);
}

#[test]
fn pg_cast_timestamp_to_plaindatetime_midnight() {
    let r = scenario::pg_cast_timestamp_to_plaindatetime_midnight();
    assert_eq!(r.unwrap(), "2025-03-01T00:00:00");
}

#[test]
fn pg_cast_timestamp_to_plaindatetime_calendar_iso8601() {
    let r = scenario::pg_cast_timestamp_to_plaindatetime_calendar_iso8601();
    assert_eq!(r.unwrap(), "iso8601");
}

#[test]
fn pg_cast_plaindatetime_to_timestamp_basic() {
    let r = scenario::pg_cast_plaindatetime_to_timestamp_basic();
    assert_eq!(r.unwrap(), true);
}

#[test]
fn pg_cast_plaindatetime_to_timestamp_sub_micro_truncated() {
    let r = scenario::pg_cast_plaindatetime_to_timestamp_sub_micro_truncated();
    assert_eq!(r.unwrap(), (0, 999));
}

#[test]
fn pdt_order_by() {
    let r = scenario::pdt_order_by();
    assert_eq!(r.unwrap(), "2025-03-01T00:00:00,2025-03-02T00:00:00,2025-03-03T00:00:00");
}
