//! Instants and RFC 3339 parsing.
//!
//! An instant is a pair of seconds since the Unix epoch and a nanosecond
//! remainder, exactly the projection chrono exposes of a parsed timestamp;
//! comparing pairs lexicographically compares the underlying instants.

use vstd::prelude::*;

verus! {

/// What chrono's RFC 3339 parser makes of a text: the instant it denotes —
/// seconds since the Unix epoch and the sub-second nanoseconds — or the
/// parser's own description of why it rejects the text. A function of the
/// text alone.
pub uninterp spec fn rfc3339_parse_of(s: Seq<char>) -> Result<(i64, u32), Seq<char>>;

/// The instant an RFC 3339 timestamp denotes, or `None` when chrono rejects
/// the text.
pub open spec fn rfc3339_instant_of(s: Seq<char>) -> Option<(i64, u32)> {
    match rfc3339_parse_of(s) {
        Ok(t) => Some(t),
        Err(_) => None,
    }
}

/// Relies on chrono's DateTime::parse_from_rfc3339, on its timestamp and
/// timestamp_subsec_nanos accessors, which project the parsed value onto the
/// UTC instant it denotes, and on its parse error's display text.
#[verifier::external_body]
pub(crate) fn parse_rfc3339(s: &str) -> (r: Result<(i64, u32), String>)
    ensures
        match r {
            Ok(t) => rfc3339_parse_of(s@) == Ok::<(i64, u32), Seq<char>>(t),
            Err(c) => rfc3339_parse_of(s@) == Err::<(i64, u32), Seq<char>>(c@),
        },
{
    match chrono::DateTime::parse_from_rfc3339(s) {
        Ok(dt) => Ok((dt.timestamp(), dt.timestamp_subsec_nanos())),
        Err(e) => Err(e.to_string()),
    }
}

/// `a` is no later than `b`.
pub open spec fn spec_instant_le(a: (i64, u32), b: (i64, u32)) -> bool {
    a.0 < b.0 || (a.0 == b.0 && a.1 <= b.1)
}

/// Instant comparison, lexicographic on (seconds, nanoseconds).
pub fn instant_le(a: (i64, u32), b: (i64, u32)) -> (r: bool)
    ensures
        r == spec_instant_le(a, b),
{
    a.0 < b.0 || (a.0 == b.0 && a.1 <= b.1)
}

} // verus!
