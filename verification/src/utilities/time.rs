use vstd::prelude::*;

verus! {

/// A point in time in UTC: whole seconds since the Unix epoch and the nanoseconds past
/// that second.
#[derive(Debug, Clone, Copy, PartialEq, Eq)]
pub struct Timestamp {
    pub seconds: i64,
    pub nanos: u32,
}

/// A calendar date (proleptic Gregorian), without a time of day.
#[derive(Debug, Clone, Copy, PartialEq, Eq)]
pub struct CalendarDate {
    pub year: i32,
    pub month: u32,
    pub day: u32,
}

/// The Unix timestamp (in seconds) of the RFC 3339 date-time `s`, when chrono accepts it.
pub uninterp spec fn rfc3339_seconds(s: Seq<char>) -> Option<i64>;

/// The Unix timestamp (in seconds) of the RFC 2822 date-time `s`, when chrono accepts it.
pub uninterp spec fn rfc2822_seconds(s: Seq<char>) -> Option<i64>;

/// Reads an RFC 3339 date-time with chrono's `DateTime::parse_from_rfc3339` and gives its
/// Unix timestamp in seconds; `None` where chrono refuses the text.
#[verifier::external_body]
pub(crate) fn parse_rfc3339_seconds(s: &str) -> (r: Option<i64>)
    ensures
        r == rfc3339_seconds(s@),
{
    match chrono::DateTime::parse_from_rfc3339(s) {
        Ok(t) => Some(t.timestamp()),
        Err(_) => None,
    }
}

/// Reads an RFC 2822 date-time with chrono's `DateTime::parse_from_rfc2822` and gives its
/// Unix timestamp in seconds; `None` where chrono refuses the text.
#[verifier::external_body]
pub(crate) fn parse_rfc2822_seconds(s: &str) -> (r: Option<i64>)
    ensures
        r == rfc2822_seconds(s@),
{
    match chrono::DateTime::parse_from_rfc2822(s) {
        Ok(t) => Some(t.timestamp()),
        Err(_) => None,
    }
}

} // verus!
