use pg_temporal::usage::settings as scenario;
use pg_temporal::gucs::{AliasPolicyGuc, DisambiguationGuc};

#[test]
fn guc_disambiguation_compatible_is_valid() {
    let r = scenario::guc_disambiguation_compatible_is_valid();
    assert_eq!(r, Some(DisambiguationGuc::Compatible));
}

#[test]
fn guc_disambiguation_earlier_is_valid() {
    let r = scenario::guc_disambiguation_earlier_is_valid();
    assert_eq!(r, Some(DisambiguationGuc::Earlier));
}

#[test]
fn guc_disambiguation_later_is_valid() {
    let r = scenario::guc_disambiguation_later_is_valid();
    assert_eq!(r, Some(DisambiguationGuc::Later));
}

#[test]
fn guc_disambiguation_reject_is_valid() {
    let r = scenario::guc_disambiguation_reject_is_valid();
    assert_eq!(r, Some(DisambiguationGuc::Reject));
}

#[test]
fn guc_disambiguation_invalid_value_rejected() {
    let r = scenario::guc_disambiguation_invalid_value_rejected();
    assert!(r.is_none());
}

#[test]
fn guc_disambiguation_earlier_picks_first_occurrence() {
    let r = scenario::guc_disambiguation_earlier_picks_first_occurrence();
    let s = r.unwrap();
    assert!(s.contains("-04:00"), "got: {s}");
}

#[test]
fn guc_disambiguation_later_picks_second_occurrence() {
    let r = scenario::guc_disambiguation_later_picks_second_occurrence();
    let s = r.unwrap();
    assert!(s.contains("-05:00"), "got: {s}");
}

#[test]
fn guc_disambiguation_reject_errors_on_ambiguous_time() {
    let r = scenario::guc_disambiguation_reject_errors_on_ambiguous_time();
    assert!(r.is_err());
}

#[test]
fn guc_alias_policy_iana_is_valid() {
    let r = scenario::guc_alias_policy_iana_is_valid();
    assert_eq!(r, Some(AliasPolicyGuc::Iana));
}

#[test]
fn guc_alias_policy_jodatime_is_valid() {
    let r = scenario::guc_alias_policy_jodatime_is_valid();
    assert_eq!(r, Some(AliasPolicyGuc::JodaTime));
}

#[test]
fn guc_alias_policy_invalid_value_rejected() {
    let r = scenario::guc_alias_policy_invalid_value_rejected();
    assert!(r.is_none());
}
