//! Points in time: the `chrono` calls that the library makes.

use vstd::prelude::*;

verus! {

/// An RFC 3339 date and time.
#[derive(Debug, PartialEq, Eq)]
pub struct DateT(pub String);

/// The seconds since the Unix epoch that a date and time text stands for, if it is one.
pub uninterp spec fn utc_seconds(text: Seq<char>) -> Option<i64>;

/// Reads a date and time as `chrono::DateTime<chrono::Utc>` and takes its `timestamp`.
///
/// What is read depends on the text alone.
#[verifier::external_body]
pub(crate) fn parse_utc_seconds(text: &str) -> (r: Option<i64>)
    ensures
        r == utc_seconds(text@),
{
    text.parse::<chrono::DateTime<chrono::Utc>>().ok().map(|time| time.timestamp())
}

/// The current time as an RFC 3339 text, from `chrono::Utc::now` and `to_rfc3339`.
///
/// Nothing is promised of it.
#[verifier::external_body]
pub(crate) fn current_date() -> String {
    chrono::Utc::now().to_rfc3339()
}

/// The current time in seconds since the Unix epoch, from `chrono::Utc::now` and `timestamp`.
///
/// Nothing is promised of it.
#[verifier::external_body]
pub(crate) fn current_seconds() -> i64 {
    chrono::Utc::now().timestamp()
}

} // verus!
