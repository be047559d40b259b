use pg_temporal::usage::plain_dates as scenario;

#[test]
fn pd_roundtrip_basic() {
    let r = scenario::pd_roundtrip_basic();
    assert_eq!(r.unwrap(), "2025-03-01");
}

#[test]
fn pd_roundtrip_explicit_calendar_annotation() {
    let r = scenario::pd_roundtrip_explicit_calendar_annotation();
    assert_eq!(r.unwrap(), "2025-03-01");
}

#[test]
fn pd_accessor_year() {
    let r = scenario::pd_accessor_year();
    assert_eq!(r.unwrap(), 2025);
}

#[test]
fn pd_accessor_month() {
    let r = scenario::pd_accessor_month();
    assert_eq!(r.unwrap(), 3);
}

#[test]
fn pd_accessor_day() {
    let r = scenario::pd_accessor_day();
    assert_eq!(r.unwrap(), 1);
}

#[test]
fn pd_accessor_calendar_defaults_to_iso8601() {
    let r = scenario::pd_accessor_calendar_defaults_to_iso8601();
    assert_eq!(r.unwrap(), "iso8601");
}

#[test]
fn pd_reject_input_garbage() {
    let r = scenario::pd_reject_input_garbage();
    assert!(r.is_err());
}

#[test]
fn pd_compare_same_is_zero() {
    let r = scenario::pd_compare_same_is_zero();
    assert_eq!(r.unwrap(), 0);
}

#[test]
fn pd_compare_less() {
    let r = scenario::pd_compare_less();
    assert!(r.unwrap() < 0);
}

#[test]
fn pd_operator_lt() {
    let r = scenario::pd_operator_lt();
    assert_eq!(r.unwrap(), true);
}

#[test]
fn pd_operator_eq_true() {
    let r = scenario::pd_operator_eq_true();
    assert_eq!(r.unwrap(), true);
}

#[test]
fn pd_add_one_day() {
    let r = scenario::pd_add_one_day();
    assert_eq!(r.unwrap(), "2025-03-02");
}

#[test]
fn pd_subtract_one_day() {
    let r = scenario::pd_subtract_one_day();
    assert_eq!(r.unwrap(), "2025-03-01");
}

#[test]
fn pd_until_one_day() {
    let r = scenario::pd_until_one_day();
    assert_eq!(r.unwrap(), "P1D");
}

#[test]
fn pd_since_one_day() {
    let r = scenario::pd_since_one_day();
    assert_eq!(r.unwrap(), "P1D");
}

#[test]
fn pd_roundtrip_japanese_calendar() {
    let r = scenario::pd_roundtrip_japanese_calendar();
    let s = r.unwrap();
    assert!(s.contains("2025-03-01"), "got: {s}");
    assert!(s.contains("[u-ca=japanese]"), "got: {s}");
}

#[test]
fn pd_multi_calendar_accessor_returns_correct_name() {
    let r = scenario::pd_multi_calendar_accessor_returns_correct_name();
    assert_eq!(r.unwrap(), "japanese");
}

#[test]
fn pd_year_accessor_returns_calendar_year_for_persian() {
    let r = scenario::pd_year_accessor_returns_calendar_year_for_persian();
    let y = r.unwrap();
    assert!(y > 1000 && y < 2000, "got {y}");
}

#[test]
fn pd_make_basic_roundtrip() {
    let r = scenario::pd_make_basic_roundtrip();
    assert_eq!(r.unwrap(), "2025-06-15");
}

#[test]
fn pd_make_calendar_stored() {
    let r = scenario::pd_make_calendar_stored();
    assert_eq!(r.unwrap(), "iso8601");
}

#[test]
fn pd_make_invalid_date_errors() {
    let r = scenario::pd_make_invalid_date_errors();
    assert!(r.is_err());
}

#[test]
fn pg_cast_date_to_plaindate_basic() {
    let r = scenario::pg_cast_date_to_plaindate_basic();
    assert_eq!(r.unwrap(), "2025-03-01");
}

#[test]
fn pg_cast_date_to_plaindate_calendar_iso8601() {
    let r = scenario::pg_cast_date_to_plaindate_calendar_iso8601();
    assert_eq!(r.unwrap(), "iso8601");
}

#[test]
fn pg_cast_plaindate_to_date_basic() {
    let r = scenario::pg_cast_plaindate_to_date_basic();
    assert_eq!(r.unwrap(), true);
}

#[test]
fn pg_cast_date_roundtrip() {
    let r = scenario::pg_cast_date_roundtrip();
    assert_eq!(r.unwrap(), true);
}

#[test]
fn pg_cast_date_to_plaindate_pre_epoch() {
    let r = scenario::pg_cast_date_to_plaindate_pre_epoch();
    assert_eq!(r.unwrap(), "1960-06-15");
}

#[test]
fn pg_cast_date_to_plaindate_end_of_month() {
    let r = scenario::pg_cast_date_to_plaindate_end_of_month();
    assert_eq!(r.unwrap(), "2025-01-31");
}

#[test]
fn pg_cast_date_to_plaindate_feb28_non_leap() {
    let r = scenario::pg_cast_date_to_plaindate_feb28_non_leap();
    assert_eq!(r.unwrap(), "2023-02-28");
}

#[test]
fn pg_cast_date_to_plaindate_feb29_leap() {
    let r = scenario::pg_cast_date_to_plaindate_feb29_leap();
    assert_eq!(r.unwrap(), "2024-02-29");
}

#[test]
fn pd_order_by() {
    let r = scenario::pd_order_by();
    assert_eq!(r.unwrap(), "2025-03-01,2025-03-02,2025-03-03");
}
