use pg_temporal::calendar::{calendar_identifier, calendar_index, calendar_name, index_of, name_of};
use pg_temporal::error::Error;
use pg_temporal::gucs::{AliasPolicyGuc, DisambiguationGuc};
use pg_temporal::order::{binary_search, build_tz_sorted, compare_bytes, compare_text, text_equal};
use pg_temporal::text::{i128_to_text, parse_i128_trimmed};

#[test]
fn calendar_table_round_trip() {
    for i in 0u8..17 {
        let name = name_of(i).unwrap();
        assert_eq!(index_of(name), Some(i));
        assert_eq!(calendar_name(i).unwrap(), name);
    }
    assert_eq!(name_of(17), None);
    assert!(matches!(calendar_name(200), Err(Error::UnknownCalendarIndex(200))));
    assert_eq!(name_of(12), Some("iso8601"));
}

#[test]
fn calendar_lookup_through_temporal() {
    assert_eq!(calendar_index("iso8601").unwrap(), 12);
    assert_eq!(name_of(calendar_index("japanese").unwrap()), Some("japanese"));
    assert_eq!(calendar_identifier("gregory").unwrap(), "gregory");
    assert!(matches!(calendar_index("klingon"), Err(Error::Temporal(_))));
}

#[test]
fn text_order_is_byte_order() {
    assert_eq!(compare_bytes(b"abc", b"abd"), -1);
    assert_eq!(compare_bytes(b"abc", b"ab"), 1);
    assert_eq!(compare_bytes(b"", b""), 0);
    assert_eq!(compare_text("Z", "a"), -1);
    assert_eq!(compare_text("é", "z"), 1);
    assert!(text_equal("Europe/Paris", "Europe/Paris"));
    assert!(!text_equal("Europe/Paris", "europe/paris"));
}

#[test]
fn sorted_table_finds_each_name() {
    let names = ["UTC", "Europe/London", "America/New_York", "Asia/Tokyo", "Africa/Abidjan"];
    let sorted = build_tz_sorted(&names);
    let order: Vec<&str> = sorted.iter().map(|e| e.0).collect();
    assert_eq!(order, vec!["Africa/Abidjan", "America/New_York", "Asia/Tokyo", "Europe/London", "UTC"]);
    for (i, name) in names.iter().enumerate() {
        assert_eq!(binary_search(&sorted, name), Some(i as u16));
    }
    assert_eq!(binary_search(&sorted, "Not/A/Zone"), None);
    assert_eq!(binary_search(&[], "UTC"), None);
}

#[test]
fn decimal_text() {
    assert_eq!(i128_to_text(0), "0");
    assert_eq!(i128_to_text(-1_740_787_200_000_000_000), "-1740787200000000000");
    assert_eq!(i128_to_text(i128::MIN), "-170141183460469231731687303715884105728");
    assert_eq!(parse_i128_trimmed("  42\n"), Some(42));
    assert_eq!(parse_i128_trimmed("-7"), Some(-7));
    assert_eq!(parse_i128_trimmed("+7"), Some(7));
    assert_eq!(parse_i128_trimmed("4 2"), None);
    assert_eq!(parse_i128_trimmed(""), None);
    assert_eq!(parse_i128_trimmed(&i128_to_text(i128::MAX)), Some(i128::MAX));
}

#[test]
fn setting_names_round_trip() {
    for g in [DisambiguationGuc::Compatible, DisambiguationGuc::Earlier, DisambiguationGuc::Later, DisambiguationGuc::Reject] {
        assert_eq!(DisambiguationGuc::from_name(g.name()), Some(g));
    }
    for g in [AliasPolicyGuc::Iana, AliasPolicyGuc::JodaTime] {
        assert_eq!(AliasPolicyGuc::from_name(g.name()), Some(g));
    }
    assert_eq!(DisambiguationGuc::from_name("EARLIER"), Some(DisambiguationGuc::Earlier));
    assert_eq!(DisambiguationGuc::from_name("sooner"), None);
}
