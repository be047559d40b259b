//! The errors of the library.
use vstd::prelude::*;

verus! {

/// The `temporal_rs` error type, carried opaquely.
#[verifier::external_type_specification]
#[verifier::external_body]
pub struct ExTemporalError(temporal_rs::TemporalError);

/// A field given to a constructor.
#[derive(Clone, Copy, Debug, PartialEq, Eq, Structural)]
pub enum Field {
    Month,
    Day,
    Hour,
    Minute,
    Second,
    Millisecond,
    Microsecond,
    Nanosecond,
}

/// A field of a PostgreSQL `interval`.
#[derive(Clone, Copy, Debug, PartialEq, Eq, Structural)]
pub enum IntervalPart {
    Months,
    Days,
    Time,
}

/// Why an operation of the library failed.
#[derive(Clone, Debug)]
pub enum Error {
    /// `temporal_rs` refused the operation; its message.
    Temporal(String),
    /// A constructor's field is outside the range of its storage type.
    InvalidField(Field, i32),
    /// Text that should hold an integer does not.
    NotAnInteger,
    /// A unit name that `temporal_rs` does not know.
    InvalidUnit,
    /// A calendar that has no stored index.
    UnsupportedCalendar,
    /// A stored calendar index that names no calendar.
    UnknownCalendarIndex(u8),
    /// Years, months, weeks or days where only time units are allowed.
    CalendarComponents,
    /// A duration component too large for a PostgreSQL `interval`.
    IntervalOutOfRange(IntervalPart),
    /// A component of a duration sum that does not fit its type.
    DurationOutOfRange,
    /// A binary value of the wrong length.
    BadBinaryLength,
    /// A year-month whose text form is not `YYYY-MM`.
    BadYearMonthText,
}

/// The names `temporal_rs` gives the kinds of its errors.
pub open spec fn is_error_kind_name(k: Seq<char>) -> bool {
    k == "Error"@ || k == "TypeError"@ || k == "RangeError"@ || k == "SyntaxError"@ || k == "ImplementationError"@
}

/// The form of a `temporal_rs` error's text: the name of its kind, then,
/// when it has a message, `: ` and the message.
pub open spec fn temporal_error_form(m: Seq<char>) -> bool {
    exists|k: Seq<char>| #[trigger] is_error_kind_name(k)
        && (m == k || (m.len() > k.len() + 2 && m.subrange(0, k.len() + 2int) == k + ": "@))
}

/// The text of a `temporal_rs` error.
///
/// Calls `TemporalError`'s `Display` (through `to_string`). Claimed, from its
/// source: the text is the kind's name (`Error`, `TypeError`, `RangeError`,
/// `SyntaxError` or `ImplementationError`), followed by `: ` and the message
/// when the message is not empty. Which kind and message an error carries is
/// not stated.
#[verifier::external_body]
fn temporal_error_text(e: &temporal_rs::TemporalError) -> (r: String)
    ensures temporal_error_form(r@),
{
    e.to_string()
}

/// The library's error for a failure reported by `temporal_rs`: its text.
pub fn from_temporal_error(e: temporal_rs::TemporalError) -> (r: Error)
    ensures r matches Error::Temporal(m) && temporal_error_form(m@),
{
    Error::Temporal(temporal_error_text(&e))
}

} // verus!
