use pg_temporal::usage::plain_month_days as scenario;

#[test]
fn pmd_roundtrip_basic() {
    let r = scenario::pmd_roundtrip_basic();
    assert_eq!(r.unwrap(), "06-15");
}

#[test]
fn pmd_roundtrip_rfc3339_format() {
    let r = scenario::pmd_roundtrip_rfc3339_format();
    assert_eq!(r.unwrap(), "06-15");
}

#[test]
fn pmd_roundtrip_feb29() {
    let r = scenario::pmd_roundtrip_feb29();
    assert_eq!(r.unwrap(), "02-29");
}

#[test]
fn pmd_roundtrip_christmas() {
    let r = scenario::pmd_roundtrip_christmas();
    assert_eq!(r.unwrap(), "12-25");
}

#[test]
fn pmd_accessor_month() {
    let r = scenario::pmd_accessor_month();
    assert_eq!(r.unwrap(), 6);
}

#[test]
fn pmd_accessor_day() {
    let r = scenario::pmd_accessor_day();
    assert_eq!(r.unwrap(), 15);
}

#[test]
fn pmd_accessor_calendar_defaults_to_iso8601() {
    let r = scenario::pmd_accessor_calendar_defaults_to_iso8601();
    assert_eq!(r.unwrap(), "iso8601");
}

#[test]
fn pmd_reject_input_garbage() {
    let r = scenario::pmd_reject_input_garbage();
    assert!(r.is_err());
}

#[test]
fn pmd_reject_invalid_date() {
    let r = scenario::pmd_reject_invalid_date();
    assert!(r.is_err());
}

#[test]
fn pmd_compare_same_is_zero() {
    let r = scenario::pmd_compare_same_is_zero();
    assert_eq!(r.unwrap(), 0);
}

#[test]
fn pmd_compare_less() {
    let r = scenario::pmd_compare_less();
    assert!(r.unwrap() < 0);
}

#[test]
fn pmd_operator_lt() {
    let r = scenario::pmd_operator_lt();
    assert_eq!(r.unwrap(), true);
}

#[test]
fn pmd_operator_eq_true() {
    let r = scenario::pmd_operator_eq_true();
    assert_eq!(r.unwrap(), true);
}

#[test]
fn pmd_make_basic_roundtrip() {
    let r = scenario::pmd_make_basic_roundtrip();
    assert_eq!(r.unwrap(), "06-15");
}

#[test]
fn pmd_make_calendar_stored() {
    let r = scenario::pmd_make_calendar_stored();
    assert_eq!(r.unwrap(), "iso8601");
}

#[test]
fn pmd_make_feb29_valid() {
    let r = scenario::pmd_make_feb29_valid();
    assert_eq!(r.unwrap(), "02-29");
}

#[test]
fn pmd_make_invalid_day_errors() {
    let r = scenario::pmd_make_invalid_day_errors();
    assert!(r.is_err());
}

#[test]
fn pmd_order_by() {
    let r = scenario::pmd_order_by();
    assert_eq!(r.unwrap(), "01-01,07-04,12-25");
}
