//! Instants, and reading them from RFC 3339 text.

use vstd::prelude::*;

verus! {

/// An instant: whole seconds since 1970-01-01T00:00:00Z, not counting leap
/// seconds, and the nanoseconds since that second began. During a leap
/// second the nanoseconds run on past 999,999,999.
#[derive(Debug, Clone, Copy, PartialEq, Eq, Structural)]
pub struct Timestamp {
    pub secs: i64,
    pub nanos: u32,
}

/// The error of `chrono`'s parsers. Nothing is known of what it holds.
#[verifier::external_type_specification]
#[verifier::external_body]
pub struct ExParseError(chrono::ParseError);

/// The instant that a text denotes when read as an RFC 3339 date and time,
/// as seconds and nanoseconds; `None` for a text that is no such date and
/// time.
pub uninterp spec fn rfc3339_instant(text: Seq<char>) -> Option<(i64, u32)>;

/// The instant that a text denotes, as a [`Timestamp`].
pub open spec fn parsed_instant(text: Seq<char>) -> Option<Timestamp> {
    match rfc3339_instant(text) {
        Some((secs, nanos)) => Some(Timestamp { secs, nanos }),
        None => None,
    }
}

/// Reads a text with `chrono::DateTime::parse_from_rfc3339`. Trusted: whether
/// the text is accepted, and the instant it then denotes, depend on the text
/// alone. The instant is handed back as `DateTime::timestamp` and
/// `DateTime::timestamp_subsec_nanos` give it, which do not depend on the
/// offset the text was written with.
#[verifier::external_body]
pub(crate) fn parse_rfc3339(text: &str) -> (parsed: Result<Timestamp, chrono::ParseError>)
    ensures
        parsed is Ok <==> rfc3339_instant(text@) is Some,
        parsed matches Ok(t) ==> rfc3339_instant(text@) == Some((t.secs, t.nanos)),
{
    match chrono::DateTime::parse_from_rfc3339(text) {
        Ok(at) => Ok(Timestamp { secs: at.timestamp(), nanos: at.timestamp_subsec_nanos() }),
        Err(e) => Err(e),
    }
}

impl Timestamp {
    /// Reads an RFC 3339 date and time, such as `1996-12-19T16:39:57-08:00`.
    pub fn from_rfc3339(text: &str) -> (at: Option<Timestamp>)
        ensures
            at == parsed_instant(text@),
    {
        match parse_rfc3339(text) {
            Ok(t) => Some(t),
            Err(_) => None,
        }
    }
}

} // verus!
