//! Timestamps. Instants are modelled as whole seconds since the Unix epoch;
//! the RFC 3339 parsing and printing that the session store's string fields
//! need is done by chrono behind trusted wrappers.

use vstd::prelude::*;

verus! {

/// Largest second count this library formats: 9999-12-31T23:59:59Z. Keeping
/// to four-digit years keeps chrono's printer and parser in their common
/// range.
pub const MAX_FORMAT_SECS: i64 = 253402300799;

/// The second count an RFC 3339 string denotes, if it parses: what
/// `chrono::DateTime::parse_from_rfc3339` accepts, floored to whole seconds
/// by `DateTime::timestamp`.
pub uninterp spec fn rfc3339_secs(s: Seq<char>) -> Option<i64>;

/// Relies on chrono's `DateTime::parse_from_rfc3339` and
/// `DateTime::timestamp`: both are pure functions of the text, so the
/// parsed second count depends on the characters alone.
#[verifier::external_body]
pub fn parse_rfc3339_secs(s: &str) -> (r: Option<i64>)
    ensures
        r == rfc3339_secs(s@),
{
    match chrono::DateTime::parse_from_rfc3339(s) {
        Ok(dt) => Some(dt.timestamp()),
        Err(_) => None,
    }
}

/// Relies on chrono's `DateTime::from_timestamp_secs` (documented to
/// round-trip with `DateTime::timestamp`, and in range for any
/// `0 <= secs <= MAX_FORMAT_SECS`) and `DateTime::to_rfc3339`, whose output
/// is a valid RFC 3339 string of the same instant, which
/// `DateTime::parse_from_rfc3339` therefore reads back to the same second
/// count.
#[verifier::external_body]
pub fn format_rfc3339_secs(secs: i64) -> (r: String)
    requires
        0 <= secs <= MAX_FORMAT_SECS,
    ensures
        rfc3339_secs(r@) == Some(secs),
{
    match chrono::DateTime::from_timestamp_secs(secs) {
        Some(dt) => dt.to_rfc3339(),
        None => String::new(),
    }
}

/// Relies on chrono's `Utc::now`: the current wall-clock time, of which
/// nothing is assumed.
#[verifier::external_body]
pub fn now_secs() -> (r: i64) {
    chrono::Utc::now().timestamp()
}

/// Relies on chrono's `Utc::now` and `DateTime::to_rfc3339`: an RFC 3339
/// rendering of the current wall-clock time, used for record timestamps, of
/// which nothing is assumed.
#[verifier::external_body]
pub fn now_rfc3339() -> (r: String) {
    chrono::Utc::now().to_rfc3339()
}

} // verus!
