//! Instants in time, as the registry reports them.

use vstd::prelude::*;

verus! {

/// `chrono::ParseError`, carried through as an opaque value.
#[verifier::external_type_specification]
#[verifier::external_body]
pub struct ExChronoParseError(chrono::ParseError);

/// What `chrono::DateTime::parse_from_rfc3339` makes of `text`: the seconds
/// since the Unix epoch and the nanoseconds within the second of the instant
/// it returns, or `None` where it returns an error.
pub uninterp spec fn rfc3339_instant(text: Seq<char>) -> Option<(int, int)>;

/// An instant on the UTC time line.
#[derive(Debug, Clone, Copy, PartialEq, Eq, Structural)]
pub struct Timestamp {
    /// Whole seconds since 1970-01-01T00:00:00Z, leap seconds not counted.
    pub seconds: i64,
    /// Nanoseconds since the last whole second.
    pub nanos: u32,
}

impl View for Timestamp {
    type V = (int, int);

    open spec fn view(&self) -> (int, int) {
        (self.seconds as int, self.nanos as int)
    }
}

/// Calls `chrono::DateTime::parse_from_rfc3339` and reads the instant it
/// returns with `timestamp` and `timestamp_subsec_nanos`. The result is `Ok`
/// exactly where `rfc3339_instant` is `Some`, and then holds that instant;
/// otherwise it is the error of `chrono`.
#[verifier::external_body]
fn chrono_parse_rfc3339(text: &str) -> (parsed: Result<Timestamp, chrono::ParseError>)
    ensures
        parsed is Ok <==> rfc3339_instant(text@) is Some,
        parsed matches Ok(instant) ==> Some(instant@) == rfc3339_instant(text@),
{
    chrono::DateTime::parse_from_rfc3339(text).map(
        |d| Timestamp { seconds: d.timestamp(), nanos: d.timestamp_subsec_nanos() },
    )
}

impl Timestamp {
    /// Parses an RFC 3339 date and time, such as `2025-01-01T00:00:00Z`.
    pub fn parse_rfc3339(text: &str) -> (parsed: Result<Timestamp, chrono::ParseError>)
        ensures
            parsed is Ok <==> rfc3339_instant(text@) is Some,
            parsed matches Ok(instant) ==> Some(instant@) == rfc3339_instant(text@),
    {
        chrono_parse_rfc3339(text)
    }
}

} // verus!
