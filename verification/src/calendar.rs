//! Calendars as stored: a compact index into a fixed, append-only table of
//! calendar identifiers.
use vstd::prelude::*;
use crate::error::{Error, from_temporal_error};
use crate::order::text_equal;

verus! {

/// The number of stored calendars.
pub const CALENDAR_COUNT: u8 = 17;

/// The calendar identifiers; a stored index is a position in this table.
pub open spec fn calendar_names() -> Seq<Seq<char>> {
    seq![
        "buddhist"@, "chinese"@, "coptic"@, "dangi"@, "ethioaa"@, "ethiopic"@, "gregory"@,
        "hebrew"@, "indian"@, "islamic-civil"@, "islamic-tbla"@, "islamic-umalqura"@,
        "iso8601"@, "japanese"@, "julian"@, "persian"@, "roc"@,
    ]
}

/// The index of the ISO 8601 calendar.
pub const ISO8601_INDEX: u8 = 12;

/// The identifier stored at `idx`, if `idx` is in the table.
pub fn name_of(idx: u8) -> (r: Option<&'static str>)
    ensures
        match r {
            Some(s) => idx < CALENDAR_COUNT && s@ == calendar_names()[idx as int],
            None => idx >= CALENDAR_COUNT,
        },
{
    match idx {
        0 => Some("buddhist"),
        1 => Some("chinese"),
        2 => Some("coptic"),
        3 => Some("dangi"),
        4 => Some("ethioaa"),
        5 => Some("ethiopic"),
        6 => Some("gregory"),
        7 => Some("hebrew"),
        8 => Some("indian"),
        9 => Some("islamic-civil"),
        10 => Some("islamic-tbla"),
        11 => Some("islamic-umalqura"),
        12 => Some("iso8601"),
        13 => Some("japanese"),
        14 => Some("julian"),
        15 => Some("persian"),
        16 => Some("roc"),
        _ => None,
    }
}

/// The stored index of a calendar identifier, if it is in the table.
pub fn index_of(id: &str) -> (r: Option<u8>)
    ensures
        match r {
            Some(i) => i < CALENDAR_COUNT && calendar_names()[i as int] == id@,
            None => forall|i: int| 0 <= i < CALENDAR_COUNT ==> calendar_names()[i] != id@,
        },
{
    let mut i: u8 = 0;
    while i < CALENDAR_COUNT
        invariant
            i <= CALENDAR_COUNT,
            forall|j: int| 0 <= j < i ==> calendar_names()[j] != id@,
        decreases CALENDAR_COUNT - i,
    {
        let name = name_of(i);
        match name {
            Some(n) => {
                if text_equal(n, id) {
                    return Some(i);
                }
            },
            None => {},
        }
        i = i + 1;
    }
    None
}

/// The table holds each identifier once, so an identifier's index is unique.
pub proof fn lemma_calendar_names_distinct(i: int, j: int)
    requires
        0 <= i < CALENDAR_COUNT, 0 <= j < CALENDAR_COUNT,
        calendar_names()[i] == calendar_names()[j],
    ensures i == j,
{
    reveal_strlit("buddhist");
    reveal_strlit("chinese");
    reveal_strlit("coptic");
    reveal_strlit("dangi");
    reveal_strlit("ethioaa");
    reveal_strlit("ethiopic");
    reveal_strlit("gregory");
    reveal_strlit("hebrew");
    reveal_strlit("indian");
    reveal_strlit("islamic-civil");
    reveal_strlit("islamic-tbla");
    reveal_strlit("islamic-umalqura");
    reveal_strlit("iso8601");
    reveal_strlit("japanese");
    reveal_strlit("julian");
    reveal_strlit("persian");
    reveal_strlit("roc");
    let a = calendar_names()[i];
    let b = calendar_names()[j];
    assert(a.len() == b.len() && a[0] == b[0]);
}

/// Looking up the identifier stored at an index gives the index back.
pub proof fn lemma_index_of_name(i: u8, found: Option<u8>)
    requires
        i < CALENDAR_COUNT,
        match found {
            Some(k) => k < CALENDAR_COUNT && calendar_names()[k as int] == calendar_names()[i as int],
            None => forall|k: int| 0 <= k < CALENDAR_COUNT ==> calendar_names()[k] != calendar_names()[i as int],
        },
    ensures found == Some(i),
{
    match found {
        Some(k) => lemma_calendar_names_distinct(k as int, i as int),
        None => {
            let k: int = i as int;
            assert(0 <= k < CALENDAR_COUNT);
            assert(calendar_names()[k] != calendar_names()[i as int]);
        },
    }
}

/// The calendar identifier that `temporal_rs` gives for a calendar name,
/// if it knows the name.
pub uninterp spec fn temporal_calendar_id(text: Seq<char>) -> Option<Seq<char>>;

/// The identifier of the calendar named by `text`.
///
/// Calls `temporal_rs::Calendar::try_from_utf8` (the name is matched without
/// regard to ASCII case) and `Calendar::identifier`. Claimed: the result is
/// `temporal_calendar_id(text)`, an error exactly when there is none; and,
/// from its source, `iso8601` loads as the ISO calendar, whose identifier is
/// `iso8601`.
#[verifier::external_body]
fn outside_calendar_identifier(text: &str) -> (r: Result<&'static str, temporal_rs::TemporalError>)
    ensures
        match r {
            Ok(s) => temporal_calendar_id(text@) == Some(s@),
            Err(_) => temporal_calendar_id(text@) is None,
        },
        text@ == "iso8601"@ ==> r is Ok,
        r matches Ok(s) ==> (text@ == "iso8601"@ ==> s@ == "iso8601"@),
{
    Ok(temporal_rs::Calendar::try_from_utf8(text.as_bytes())?.identifier())
}

/// The identifier `temporal_rs` gives for a calendar name.
pub fn calendar_identifier(text: &str) -> (r: Result<&'static str, Error>)
    ensures
        match temporal_calendar_id(text@) {
            Some(id) => r matches Ok(s) && s@ == id,
            None => r matches Err(e) && e is Temporal,
        },
        text@ == "iso8601"@ ==> (r matches Ok(s) && s@ == "iso8601"@),
{
    match outside_calendar_identifier(text) {
        Ok(id) => Ok(id),
        Err(e) => Err(from_temporal_error(e)),
    }
}

/// The stored index for a stored calendar identifier `id` (already resolved).
pub open spec fn index_spec(id: Seq<char>) -> Option<u8> {
    if exists|i: int| 0 <= i < CALENDAR_COUNT && calendar_names()[i] == id {
        Some((choose|i: int| 0 <= i < CALENDAR_COUNT && calendar_names()[i] == id) as u8)
    } else {
        None
    }
}

/// A stored index found for an identifier is in the table and holds it.
pub proof fn lemma_index_spec(id: Seq<char>)
    ensures index_spec(id) matches Some(i) ==> i < CALENDAR_COUNT && calendar_names()[i as int] == id,
{
    if exists|i: int| 0 <= i < CALENDAR_COUNT && calendar_names()[i] == id {
        let k = choose|i: int| 0 <= i < CALENDAR_COUNT && calendar_names()[i] == id;
        assert(0 <= k < CALENDAR_COUNT);
    }
}

/// The stored index of the identifier stored at an index is that index.
pub proof fn lemma_index_spec_of_stored(idx: u8)
    requires idx < CALENDAR_COUNT,
    ensures index_spec(calendar_names()[idx as int]) == Some(idx),
{
    let id = calendar_names()[idx as int];
    assert(exists|i: int| 0 <= i < CALENDAR_COUNT && calendar_names()[i] == id) by {
        assert(calendar_names()[idx as int] == id);
    }
    lemma_index_spec(id);
    let j = index_spec(id)->0;
    lemma_calendar_names_distinct(j as int, idx as int);
}

/// What `calendar_index` gives for a calendar name: `temporal_rs`'s error
/// for an unknown name, `UnsupportedCalendar` for a calendar outside the
/// table, else its index.
pub open spec fn calendar_index_result(text: Seq<char>) -> Option<Option<u8>> {
    match temporal_calendar_id(text) {
        None => None,
        Some(id) => Some(index_spec(id)),
    }
}

/// Resolves a calendar name, as a user writes it, to its stored index.
pub fn calendar_index(text: &str) -> (r: Result<u8, Error>)
    ensures
        match calendar_index_result(text@) {
            None => r matches Err(e) && e is Temporal,
            Some(None) => r == Err::<u8, Error>(Error::UnsupportedCalendar),
            Some(Some(i)) => r == Ok::<u8, Error>(i),
        },
        r matches Ok(i) ==> i < CALENDAR_COUNT,
        text@ == "iso8601"@ ==> r == Ok::<u8, Error>(ISO8601_INDEX),
{
    proof {
        reveal_strlit("iso8601");
        assert(calendar_names()[12] == "iso8601"@);
    }
    match outside_calendar_identifier(text) {
        Ok(id) => match index_of(id) {
            Some(i) => {
                proof {
                    let k = choose|k: int| 0 <= k < CALENDAR_COUNT && calendar_names()[k] == id@;
                    lemma_calendar_names_distinct(k, i as int);
                    if text@ == "iso8601"@ {
                        lemma_calendar_names_distinct(12, i as int);
                    }
                }
                Ok(i)
            },
            None => Err(Error::UnsupportedCalendar),
        },
        Err(e) => Err(from_temporal_error(e)),
    }
}

/// The stored calendar identifier of an index, as an owned text; an index
/// outside the table is an error.
pub fn calendar_name(idx: u8) -> (r: Result<String, Error>)
    ensures
        idx < CALENDAR_COUNT ==> (r matches Ok(s) && s@ == calendar_names()[idx as int]),
        idx >= CALENDAR_COUNT ==> r == Err::<String, Error>(Error::UnknownCalendarIndex(idx)),
{
    match name_of(idx) {
        Some(s) => Ok(String::from_str(s)),
        None => Err(Error::UnknownCalendarIndex(idx)),
    }
}

} // verus!
