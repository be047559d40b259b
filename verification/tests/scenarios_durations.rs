use pg_temporal::usage::durations as scenario;

#[test]
fn dur_roundtrip_time_only() {
    let r = scenario::dur_roundtrip_time_only();
    assert_eq!(r.unwrap(), "PT1H30M");
}

#[test]
fn dur_roundtrip_full() {
    let r = scenario::dur_roundtrip_full();
    assert_eq!(r.unwrap(), "P1Y2M3DT4H5M6S");
}

#[test]
fn dur_roundtrip_negative() {
    let r = scenario::dur_roundtrip_negative();
    assert_eq!(r.unwrap(), "-P1Y");
}

#[test]
fn dur_roundtrip_millisecond_fraction() {
    let r = scenario::dur_roundtrip_millisecond_fraction();
    let s = r.unwrap();
    assert!(s.contains("0.001"), "got: {s}");
}

#[test]
fn dur_accessor_years() {
    let r = scenario::dur_accessor_years();
    assert_eq!(r.unwrap(), 1);
}

#[test]
fn dur_accessor_months() {
    let r = scenario::dur_accessor_months();
    assert_eq!(r.unwrap(), 2);
}

#[test]
fn dur_accessor_days() {
    let r = scenario::dur_accessor_days();
    assert_eq!(r.unwrap(), 3);
}

#[test]
fn dur_accessor_hours() {
    let r = scenario::dur_accessor_hours();
    assert_eq!(r.unwrap(), 4);
}

#[test]
fn dur_accessor_minutes() {
    let r = scenario::dur_accessor_minutes();
    assert_eq!(r.unwrap(), 5);
}

#[test]
fn dur_accessor_seconds() {
    let r = scenario::dur_accessor_seconds();
    assert_eq!(r.unwrap(), 6);
}

#[test]
fn dur_accessor_milliseconds_from_time_duration() {
    let r = scenario::dur_accessor_milliseconds_from_time_duration();
    assert_eq!(r.unwrap(), 123);
}

#[test]
fn dur_accessor_years_negative() {
    let r = scenario::dur_accessor_years_negative();
    assert_eq!(r.unwrap(), -3);
}

#[test]
fn dur_accessor_weeks() {
    let r = scenario::dur_accessor_weeks();
    assert_eq!(r.unwrap(), 1);
}

#[test]
fn dur_reject_input_garbage() {
    let r = scenario::dur_reject_input_garbage();
    assert!(r.is_err());
}

#[test]
fn dur_reject_input_datetime_string() {
    let r = scenario::dur_reject_input_datetime_string();
    assert!(r.is_err());
}

#[test]
fn dur_negated_positive_to_negative() {
    let r = scenario::dur_negated_positive_to_negative();
    assert_eq!(r.unwrap(), "-PT1H30M");
}

#[test]
fn dur_negated_negative_to_positive() {
    let r = scenario::dur_negated_negative_to_positive();
    assert_eq!(r.unwrap(), "PT1H");
}

#[test]
fn dur_abs_negative() {
    let r = scenario::dur_abs_negative();
    assert_eq!(r.unwrap(), "PT2H");
}

#[test]
fn dur_sign_positive() {
    let r = scenario::dur_sign_positive();
    assert_eq!(r.unwrap(), 1);
}

#[test]
fn dur_sign_negative() {
    let r = scenario::dur_sign_negative();
    assert_eq!(r.unwrap(), -1);
}

#[test]
fn dur_sign_zero() {
    let r = scenario::dur_sign_zero();
    assert_eq!(r.unwrap(), 0);
}

#[test]
fn dur_is_zero_true() {
    let r = scenario::dur_is_zero_true();
    assert_eq!(r.unwrap(), true);
}

#[test]
fn dur_is_zero_false() {
    let r = scenario::dur_is_zero_false();
    assert_eq!(r.unwrap(), false);
}

#[test]
fn dur_add_time_components() {
    let r = scenario::dur_add_time_components();
    assert_eq!(r.unwrap(), "PT1H30M");
}

#[test]
fn dur_subtract_time_components() {
    let r = scenario::dur_subtract_time_components();
    assert_eq!(r.unwrap(), "PT1H30M");
}

#[test]
fn dur_round_to_hour() {
    let r = scenario::dur_round_to_hour();
    assert_eq!(r.unwrap(), "PT2H");
}

#[test]
fn dur_round_to_hour_down() {
    let r = scenario::dur_round_to_hour_down();
    assert_eq!(r.unwrap(), "PT1H");
}

#[test]
fn dur_round_invalid_unit() {
    let r = scenario::dur_round_invalid_unit();
    assert!(r.is_err());
}

#[test]
fn dur_round_plain_to_year() {
    let r = scenario::dur_round_plain_to_year();
    assert_eq!(r.unwrap(), "P1Y");
}

#[test]
fn dur_round_plain_to_year_down() {
    let r = scenario::dur_round_plain_to_year_down();
    assert_eq!(r.unwrap(), "P1Y");
}

#[test]
fn dur_round_zoned_to_day() {
    let r = scenario::dur_round_zoned_to_day();
    assert_eq!(r.unwrap(), "P2D");
}

#[test]
fn dur_add_plain_calendar_components() {
    let r = scenario::dur_add_plain_calendar_components();
    let s = r.unwrap();
    assert!(s.starts_with('P'), "got: {s}");
}

#[test]
fn dur_subtract_plain_calendar_components() {
    let r = scenario::dur_subtract_plain_calendar_components();
    let s = r.unwrap();
    assert!(s.starts_with('P'), "got: {s}");
}

#[test]
fn dur_add_zoned_time_components() {
    let r = scenario::dur_add_zoned_time_components();
    let s = r.unwrap().to_text().unwrap();
    assert!(s.contains('H') || s.contains('D'), "got: {s}");
}

#[test]
fn dur_subtract_zoned_time_components() {
    let r = scenario::dur_subtract_zoned_time_components();
    let s = r.unwrap().to_text().unwrap();
    assert!(s.contains("PT6H"), "got: {s}");
}
