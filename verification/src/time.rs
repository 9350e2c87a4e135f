//! Instants, and the reading of RFC 2822 dates.

use vstd::prelude::*;

verus! {

/// An instant on the UTC time line.
#[derive(Clone, Copy, Debug, PartialEq, Eq)]
pub struct Timestamp {
    /// Whole non-leap seconds since 1970-01-01T00:00:00Z.
    pub secs: i64,
    /// Nanoseconds since the last whole second; above 999,999,999 only
    /// within a leap second.
    pub nanos: u32,
}

/// The instant that `chrono` reads from an RFC 2822 date, as seconds since
/// the epoch and nanoseconds within the second; `None` where it rejects the
/// text.
pub uninterp spec fn rfc2822_instant(text: Seq<char>) -> Option<(i64, u32)>;

/// What [`parse_last_modified`] returns for a text.
pub open spec fn spec_last_modified(text: Seq<char>) -> Option<Timestamp> {
    match rfc2822_instant(text) {
        Some((secs, nanos)) => Some(Timestamp { secs, nanos }),
        None => None,
    }
}

/// Calls `chrono::DateTime::parse_from_rfc2822`, and reads the instant off
/// with `DateTime::timestamp` and `DateTime::timestamp_subsec_nanos`.
///
/// Trusted: the parser is a function of the text alone, so its outcome is
/// given the name [`rfc2822_instant`]; nothing is claimed of which texts it
/// accepts.
#[verifier::external_body]
fn chrono_rfc2822(text: &str) -> (r: Option<(i64, u32)>)
    ensures
        r == rfc2822_instant(text@),
{
    match chrono::DateTime::parse_from_rfc2822(text) {
        Ok(t) => Some((t.timestamp(), t.timestamp_subsec_nanos())),
        Err(_) => None,
    }
}

/// Reads a last-modified value such as `Mon, 25 Sep 2023 12:43:08 GMT`.
pub fn parse_last_modified(text: &str) -> (r: Option<Timestamp>)
    ensures
        r == spec_last_modified(text@),
{
    match chrono_rfc2822(text) {
        Some((secs, nanos)) => Some(Timestamp { secs, nanos }),
        None => None,
    }
}

} // verus!
