use pg_temporal::usage::plain_year_months as scenario;

#[test]
fn pym_roundtrip_basic() {
    let r = scenario::pym_roundtrip_basic();
    assert_eq!(r.unwrap(), "2025-03");
}

#[test]
fn pym_roundtrip_explicit_calendar_annotation() {
    let r = scenario::pym_roundtrip_explicit_calendar_annotation();
    assert_eq!(r.unwrap(), "2025-03");
}

#[test]
fn pym_accessor_year() {
    let r = scenario::pym_accessor_year();
    assert_eq!(r.unwrap(), 2025);
}

#[test]
fn pym_accessor_month() {
    let r = scenario::pym_accessor_month();
    assert_eq!(r.unwrap(), 3);
}

#[test]
fn pym_accessor_calendar_defaults_to_iso8601() {
    let r = scenario::pym_accessor_calendar_defaults_to_iso8601();
    assert_eq!(r.unwrap(), "iso8601");
}

#[test]
fn pym_reject_input_garbage() {
    let r = scenario::pym_reject_input_garbage();
    assert!(r.is_err());
}

#[test]
fn pym_compare_same_is_zero() {
    let r = scenario::pym_compare_same_is_zero();
    assert_eq!(r.unwrap(), 0);
}

#[test]
fn pym_compare_less() {
    let r = scenario::pym_compare_less();
    assert!(r.unwrap() < 0);
}

#[test]
fn pym_add_one_month() {
    let r = scenario::pym_add_one_month();
    assert_eq!(r.unwrap(), "2025-04");
}

#[test]
fn pym_add_month_rolls_year() {
    let r = scenario::pym_add_month_rolls_year();
    assert_eq!(r.unwrap(), "2026-01");
}

#[test]
fn pym_subtract_one_month() {
    let r = scenario::pym_subtract_one_month();
    assert_eq!(r.unwrap(), "2025-02");
}

#[test]
fn pym_until_three_months() {
    let r = scenario::pym_until_three_months();
    assert_eq!(r.unwrap(), "P3M");
}

#[test]
fn pym_since_three_months() {
    let r = scenario::pym_since_three_months();
    assert_eq!(r.unwrap(), "P3M");
}

#[test]
fn pym_make_basic_roundtrip() {
    let r = scenario::pym_make_basic_roundtrip();
    assert_eq!(r.unwrap(), "2025-06");
}

#[test]
fn pym_make_calendar_stored() {
    let r = scenario::pym_make_calendar_stored();
    assert_eq!(r.unwrap(), "iso8601");
}

#[test]
fn pym_make_invalid_month_errors() {
    let r = scenario::pym_make_invalid_month_errors();
    assert!(r.is_err());
}

#[test]
fn pym_order_by() {
    let r = scenario::pym_order_by();
    assert_eq!(r.unwrap(), "2025-01,2025-02,2025-03");
}
