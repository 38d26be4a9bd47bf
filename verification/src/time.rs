//! Timestamp parsing at the boundary to the date-time library.

use vstd::prelude::*;

verus! {

/// Epoch seconds denoted by an RFC 3339 timestamp string, when it parses;
/// a function of the string alone.
pub uninterp spec fn rfc3339_epoch_seconds(s: Seq<char>) -> Option<int>;

/// Relies on chrono::DateTime::parse_from_rfc3339, which parses all valid
/// RFC 3339 date-and-time strings and nothing besides, and on
/// chrono::DateTime::timestamp, which returns the parsed instant in whole
/// non-leap seconds since the Unix epoch. Both depend on the string alone.
#[verifier::external_body]
pub(crate) fn parse_rfc3339_seconds(s: &str) -> (r: Option<i64>)
    ensures
        r is Some <==> rfc3339_epoch_seconds(s@) is Some,
        r is Some ==> r->0 == rfc3339_epoch_seconds(s@)->0,
{
    match chrono::DateTime::parse_from_rfc3339(s) {
        Ok(dt) => Some(dt.timestamp()),
        Err(_) => None,
    }
}

} // verus!
