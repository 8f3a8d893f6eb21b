//! Trusted boundary to `chrono`: the current time, and RFC-3339 parsing.
//!
//! Nothing is claimed of a clock reading beyond what `chrono` plainly
//! documents; the value of a parsed timestamp is given a name so that the
//! callers' contracts can speak of it exactly.

use vstd::prelude::*;

verus! {

/// The milliseconds-since-epoch value that `chrono` reads out of an
/// RFC-3339 timestamp string, or `None` where the string does not parse.
pub uninterp spec fn rfc3339_millis_of(s: Seq<char>) -> Option<i64>;

/// Relies on chrono's `DateTime::parse_from_rfc3339` and `timestamp_millis`:
/// the result is a function of the string alone.
#[verifier::external_body]
pub fn parse_rfc3339_millis(s: &str) -> (r: Option<i64>)
    ensures
        r == rfc3339_millis_of(s@),
{
    chrono::DateTime::parse_from_rfc3339(s).ok().map(|dt| dt.timestamp_millis())
}

/// Relies on chrono's `Utc::now` and `DateTime::to_rfc3339`: the rendering of
/// a date and time is never empty. Nothing else is claimed of a clock reading.
#[verifier::external_body]
pub fn now_rfc3339() -> (r: String)
    ensures
        r@.len() > 0,
{
    chrono::Utc::now().to_rfc3339()
}

/// Relies on chrono's `Utc::now` and `DateTime::format` with the fixed layout
/// `%Y-%m-%dT%H:%M:%SZ`: the rendering is never empty. Nothing else is
/// claimed of a clock reading.
#[verifier::external_body]
pub fn now_rfc3339_seconds() -> (r: String)
    ensures
        r@.len() > 0,
{
    format!("{}", chrono::Utc::now().format("%Y-%m-%dT%H:%M:%SZ"))
}

/// Relies on chrono's `Utc::now` and `DateTime::format` with the fixed layout
/// `%Y-%m-%d %H:%M:%S UTC`: the rendering is never empty. Nothing else is
/// claimed of a clock reading.
#[verifier::external_body]
pub fn now_status_timestamp() -> (r: String)
    ensures
        r@.len() > 0,
{
    format!("{}", chrono::Utc::now().format("%Y-%m-%d %H:%M:%S UTC"))
}

/// Relies on chrono's `Utc::now` and `DateTime::timestamp_millis`. Nothing is
/// claimed of a clock reading.
#[verifier::external_body]
pub fn now_millis() -> (r: i64)
{
    chrono::Utc::now().timestamp_millis()
}

} // verus!
