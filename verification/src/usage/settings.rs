//! The settings of the extension, set to their documented values.
use vstd::prelude::*;
use crate::error::Error;
use crate::gucs::{AliasPolicyGuc, DisambiguationGuc, alias_policy_of_name, disambiguation_of_name,
    lemma_alias_policy_name_round_trip, lemma_disambiguation_name_round_trip, lower_text};
use crate::calendar::temporal_calendar_id;
use crate::zoned_datetime::{ZonedDateTime, temporal_zoned_from_text, temporal_zoned_loads, zoned_text_of};

verus! {

/// The local time that occurs twice in New York when daylight saving time
/// ends in 2024.
pub open spec fn repeated_local_time() -> Seq<char> {
    "2024-11-03T01:30:00[America/New_York]"@
}

/// What reading the repeated local time with `dis` and writing it back gives.
pub open spec fn repeated_time_text(dis: DisambiguationGuc) -> Option<Seq<char>> {
    match temporal_zoned_from_text(repeated_local_time(), dis) {
        Some(v) => zoned_text_of(v.0, v.1, v.2),
        None => None,
    }
}

/// `SET pg_temporal.default_disambiguation = 'compatible'` is accepted.
pub fn guc_disambiguation_compatible_is_valid() -> (r: Option<DisambiguationGuc>)
    ensures r == Some(DisambiguationGuc::Compatible),
{
    proof { lemma_disambiguation_name_round_trip(DisambiguationGuc::Compatible); }
    DisambiguationGuc::from_name("compatible")
}

/// `SET pg_temporal.default_disambiguation = 'earlier'` is accepted.
pub fn guc_disambiguation_earlier_is_valid() -> (r: Option<DisambiguationGuc>)
    ensures r == Some(DisambiguationGuc::Earlier),
{
    proof { lemma_disambiguation_name_round_trip(DisambiguationGuc::Earlier); }
    DisambiguationGuc::from_name("earlier")
}

/// `SET pg_temporal.default_disambiguation = 'later'` is accepted.
pub fn guc_disambiguation_later_is_valid() -> (r: Option<DisambiguationGuc>)
    ensures r == Some(DisambiguationGuc::Later),
{
    proof { lemma_disambiguation_name_round_trip(DisambiguationGuc::Later); }
    DisambiguationGuc::from_name("later")
}

/// `SET pg_temporal.default_disambiguation = 'reject'` is accepted.
pub fn guc_disambiguation_reject_is_valid() -> (r: Option<DisambiguationGuc>)
    ensures r == Some(DisambiguationGuc::Reject),
{
    proof { lemma_disambiguation_name_round_trip(DisambiguationGuc::Reject); }
    DisambiguationGuc::from_name("reject")
}

/// `SET pg_temporal.default_disambiguation = 'typo'` is refused.
pub fn guc_disambiguation_invalid_value_rejected() -> (r: Option<DisambiguationGuc>)
    ensures r is None,
{
    proof {
        reveal_strlit("typo");
        reveal_strlit("compatible");
        reveal_strlit("earlier");
        reveal_strlit("later");
        reveal_strlit("reject");
        assert(lower_text("typo"@).len() == 4);
    }
    DisambiguationGuc::from_name("typo")
}

/// With `'earlier'`, the repeated local time reads as its first occurrence
/// (daylight time, offset -04:00).
pub fn guc_disambiguation_earlier_picks_first_occurrence() -> (r: Result<String, Error>)
    ensures
        match repeated_time_text(DisambiguationGuc::Earlier) {
            Some(s) => r matches Ok(v) && v@ == s,
            None => r is Err,
        },
{
    let z = ZonedDateTime::parse("2024-11-03T01:30:00[America/New_York]", DisambiguationGuc::Earlier)?;
    z.to_text()
}

/// With `'later'`, the repeated local time reads as its second occurrence
/// (standard time, offset -05:00).
pub fn guc_disambiguation_later_picks_second_occurrence() -> (r: Result<String, Error>)
    ensures
        match repeated_time_text(DisambiguationGuc::Later) {
            Some(s) => r matches Ok(v) && v@ == s,
            None => r is Err,
        },
{
    let z = ZonedDateTime::parse("2024-11-03T01:30:00[America/New_York]", DisambiguationGuc::Later)?;
    z.to_text()
}

/// With `'reject'`, reading the repeated local time is an error.
pub fn guc_disambiguation_reject_errors_on_ambiguous_time() -> (r: Result<ZonedDateTime, Error>)
    ensures
        match temporal_zoned_from_text(repeated_local_time(), DisambiguationGuc::Reject) {
            Some(v) => r matches Ok(z) && z.instant_ns == v.0 && z.tz_id@ == v.1 && z.calendar_id@ == v.2,
            None => r is Err,
        },
{
    ZonedDateTime::parse("2024-11-03T01:30:00[America/New_York]", DisambiguationGuc::Reject)
}

/// `SET pg_temporal.alias_policy = 'iana'` is accepted.
pub fn guc_alias_policy_iana_is_valid() -> (r: Option<AliasPolicyGuc>)
    ensures r == Some(AliasPolicyGuc::Iana),
{
    proof { lemma_alias_policy_name_round_trip(AliasPolicyGuc::Iana); }
    AliasPolicyGuc::from_name("iana")
}

/// `SET pg_temporal.alias_policy = 'jodatime'` is accepted.
pub fn guc_alias_policy_jodatime_is_valid() -> (r: Option<AliasPolicyGuc>)
    ensures r == Some(AliasPolicyGuc::JodaTime),
{
    proof { lemma_alias_policy_name_round_trip(AliasPolicyGuc::JodaTime); }
    AliasPolicyGuc::from_name("jodatime")
}

/// `SET pg_temporal.alias_policy = 'typo'` is refused.
pub fn guc_alias_policy_invalid_value_rejected() -> (r: Option<AliasPolicyGuc>)
    ensures r is None,
{
    proof {
        reveal_strlit("typo");
        reveal_strlit("iana");
        reveal_strlit("jodatime");
        assert(lower_text("typo"@).len() == 4);
        assert(lower_text("typo"@)[0] == 't');
    }
    AliasPolicyGuc::from_name("typo")
}

/// `z::text::zoneddatetime` is `z`, whatever the disambiguation setting, for
/// every zoned date-time in `UTC` that loads, with its calendar stored by
/// its identifier.
pub fn zdt_text_round_trip(z: &ZonedDateTime, dis: DisambiguationGuc) -> (r: Result<ZonedDateTime, Error>)
    ensures
        temporal_zoned_loads(z.instant_ns, z.tz_id@, z.calendar_id@) && z.tz_id@ == "UTC"@
            && temporal_calendar_id(z.calendar_id@) == Some(z.calendar_id@)
            ==> (r matches Ok(w) && w.instant_ns == z.instant_ns && w.tz_id@ == z.tz_id@
                && w.calendar_id@ == z.calendar_id@),
        !temporal_zoned_loads(z.instant_ns, z.tz_id@, z.calendar_id@) ==> r is Err,
{
    let s = z.to_text()?;
    proof {
        if z.tz_id@ == "UTC"@ && temporal_calendar_id(z.calendar_id@) == Some(z.calendar_id@)
            && temporal_zoned_loads(z.instant_ns, z.tz_id@, z.calendar_id@) {
            assert(temporal_zoned_from_text(s@, dis) == Some((z.instant_ns, z.tz_id@, z.calendar_id@)));
        }
    }
    ZonedDateTime::parse(s.as_str(), dis)
}

} // verus!
