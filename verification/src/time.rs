//! Instants, as whole seconds since the Unix epoch and the nanoseconds past
//! them, and their reading from RFC 3339 text.

use chrono::DateTime;
use vstd::prelude::*;

verus! {

/// An instant on the UTC time line.
///
/// `secs` counts the non-leap seconds since 1970-01-01T00:00:00Z and `nanos`
/// the nanoseconds since the last second boundary; within a leap second
/// `nanos` goes beyond 999,999,999. Instants are ordered by `secs`, then by
/// `nanos`.
#[derive(Clone, Copy, Debug, PartialEq, Eq, PartialOrd, Ord, Hash, Structural)]
pub struct Timestamp {
    pub secs: i64,
    pub nanos: u32,
}

impl Timestamp {
    /// `self` comes strictly before `other`.
    pub open spec fn before(self, other: Timestamp) -> bool {
        self.secs < other.secs || (self.secs == other.secs && self.nanos < other.nanos)
    }

    /// Whether `self` comes strictly before `other`.
    pub fn is_before(&self, other: &Timestamp) -> (earlier: bool)
        ensures
            earlier == self.before(*other),
    {
        self.secs < other.secs || (self.secs == other.secs && self.nanos < other.nanos)
    }

    /// Reads an RFC 3339 date and time, such as `1996-12-19T16:39:57-08:00`.
    /// `None` when the text is not one.
    pub fn parse(text: &str) -> (parsed: Option<Timestamp>)
        ensures
            parsed == rfc3339_instant(text@),
    {
        parse_rfc3339(text)
    }
}

/// The instant that an RFC 3339 date and time denotes, as
/// `chrono::DateTime::parse_from_rfc3339` reads it; `None` for any other
/// text.
pub uninterp spec fn rfc3339_instant(text: Seq<char>) -> Option<Timestamp>;

/// Calls `chrono::DateTime::parse_from_rfc3339` and, on success, reads the
/// instant off with `timestamp` and `timestamp_subsec_nanos`.
///
/// Trusted: the outcome depends on the text alone, so that it is
/// [`rfc3339_instant`] of the text.
#[verifier::external_body]
fn parse_rfc3339(text: &str) -> (parsed: Option<Timestamp>)
    ensures
        parsed == rfc3339_instant(text@),
{
    match DateTime::parse_from_rfc3339(text) {
        Ok(instant) => Some(
            Timestamp { secs: instant.timestamp(), nanos: instant.timestamp_subsec_nanos() },
        ),
        Err(_) => None,
    }
}

} // verus!
