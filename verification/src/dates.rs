//! Timestamps arrive from outside callers as RFC 3339 strings; the logic
//! works on plain epoch seconds. The one conversion is chrono's parser,
//! trusted under a name since it is a function of the string alone.

use vstd::prelude::*;

verus! {

/// The epoch-second reading of an RFC 3339 timestamp string, or `None` when
/// the string is not one. Defined by chrono's parser.
pub uninterp spec fn rfc3339_epoch(s: Seq<char>) -> Option<int>;

/// Relies on `chrono::DateTime::parse_from_rfc3339` and
/// `chrono::DateTime::timestamp`: deterministic in the string, independent
/// of clock and zone (the offset is part of the string).
#[verifier::external_body]
pub fn parse_rfc3339(s: &str) -> (r: Option<i64>)
    ensures
        match r {
            Some(t) => rfc3339_epoch(s@) == Some(t as int),
            None => rfc3339_epoch(s@) is None,
        },
{
    chrono::DateTime::parse_from_rfc3339(s).ok().map(|d| d.timestamp())
}

} // verus!
