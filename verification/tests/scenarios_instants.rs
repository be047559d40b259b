use pg_temporal::usage::instants as scenario;

#[test]
fn instant_roundtrip_utc_zero() {
    let r = scenario::instant_roundtrip_utc_zero();
    assert_eq!(r.unwrap(), "1970-01-01T00:00:00Z");
}

#[test]
fn instant_roundtrip_utc_arbitrary() {
    let r = scenario::instant_roundtrip_utc_arbitrary();
    assert_eq!(r.unwrap(), "2025-03-01T02:16:10Z");
}

#[test]
fn instant_offset_normalised_to_utc() {
    let r = scenario::instant_offset_normalised_to_utc();
    assert_eq!(r.unwrap(), "2025-03-01T02:16:10Z");
}

#[test]
fn instant_roundtrip_millisecond_precision() {
    let r = scenario::instant_roundtrip_millisecond_precision();
    let s = r.unwrap();
    assert!(s.contains("00:00:00.001"), "got: {s}");
}

#[test]
fn instant_roundtrip_nanosecond_precision() {
    let r = scenario::instant_roundtrip_nanosecond_precision();
    let s = r.unwrap();
    assert!(s.contains("00:00:00.000000001"), "got: {s}");
}

#[test]
fn instant_epoch_ns_unix_epoch_is_zero() {
    let r = scenario::instant_epoch_ns_unix_epoch_is_zero();
    assert_eq!(r.unwrap(), "0");
}

#[test]
fn instant_epoch_ns_known_value() {
    let r = scenario::instant_epoch_ns_known_value();
    assert_eq!(r.unwrap(), "1740787200000000000");
}

#[test]
fn instant_epoch_ns_same_instant_different_offsets() {
    let r = scenario::instant_epoch_ns_same_instant_different_offsets();
    let (a, b) = r.unwrap();
    assert_eq!(a, b);
}

#[test]
fn instant_reject_input_missing_offset() {
    let r = scenario::instant_reject_input_missing_offset();
    assert!(r.is_err());
}

#[test]
fn instant_reject_input_garbage() {
    let r = scenario::instant_reject_input_garbage();
    assert!(r.is_err());
}

#[test]
fn instant_compare_same_is_zero() {
    let r = scenario::instant_compare_same_is_zero();
    assert_eq!(r.unwrap(), 0);
}

#[test]
fn instant_compare_less() {
    let r = scenario::instant_compare_less();
    assert!(r.unwrap() < 0);
}

#[test]
fn instant_operator_lt() {
    let r = scenario::instant_operator_lt();
    assert_eq!(r.unwrap(), true);
}

#[test]
fn instant_operator_eq_true() {
    let r = scenario::instant_operator_eq_true();
    assert_eq!(r.unwrap(), true);
}

#[test]
fn instant_add_one_hour() {
    let r = scenario::instant_add_one_hour();
    assert_eq!(r.unwrap(), "1970-01-01T01:00:00Z");
}

#[test]
fn instant_subtract_one_hour() {
    let r = scenario::instant_subtract_one_hour();
    assert_eq!(r.unwrap(), "1970-01-01T00:00:00Z");
}

#[test]
fn instant_until_two_hours() {
    let r = scenario::instant_until_two_hours();
    assert_eq!(r.unwrap(), "PT7200S");
}

#[test]
fn instant_since_two_hours() {
    let r = scenario::instant_since_two_hours();
    assert_eq!(r.unwrap(), "PT7200S");
}

#[test]
fn pg_cast_timestamptz_to_instant_unix_epoch() {
    let r = scenario::pg_cast_timestamptz_to_instant_unix_epoch();
    assert_eq!(r.unwrap(), "0");
}

#[test]
fn pg_cast_timestamptz_to_instant_pg_epoch() {
    let r = scenario::pg_cast_timestamptz_to_instant_pg_epoch();
    assert_eq!(r.unwrap(), "946684800000000000");
}

#[test]
fn pg_cast_timestamptz_roundtrip_epoch() {
    let r = scenario::pg_cast_timestamptz_roundtrip_epoch();
    assert_eq!(r.unwrap(), 794_102_400_000_000);
}

#[test]
fn pg_cast_timestamptz_microsecond_roundtrip() {
    let r = scenario::pg_cast_timestamptz_microsecond_roundtrip();
    assert_eq!(r.unwrap(), "946684800000001000");
}

#[test]
fn pg_cast_instant_nano_truncated_on_timestamptz_cast() {
    let r = scenario::pg_cast_instant_nano_truncated_on_timestamptz_cast();
    assert_eq!(r.unwrap(), "946684800000000000");
}

#[test]
fn pg_cast_timestamptz_to_instant_pre_unix_epoch() {
    let r = scenario::pg_cast_timestamptz_to_instant_pre_unix_epoch();
    let n: i128 = r.unwrap().parse().unwrap();
    assert!(n < 0, "got {n}");
}

#[test]
fn pg_cast_timestamptz_with_microseconds_roundtrip() {
    let r = scenario::pg_cast_timestamptz_with_microseconds_roundtrip();
    assert_eq!(r.unwrap(), 794_147_696_789_012);
}

#[test]
fn pg_cast_instant_to_timestamptz_pre_pg_epoch_sub_micro_truncated() {
    let r = scenario::pg_cast_instant_to_timestamptz_pre_pg_epoch_sub_micro_truncated();
    assert_eq!(r.unwrap(), "946684800000000000");
}

#[test]
fn instant_order_by() {
    let r = scenario::instant_order_by();
    assert_eq!(r.unwrap(), "2025-03-01T00:00:00Z,2025-03-02T00:00:00Z,2025-03-03T00:00:00Z");
}
