//! Points in time, as the registry reports them for each release.

use vstd::prelude::*;

verus! {

/// A point in time: whole seconds since 1970-01-01T00:00:00Z, and the
/// nanoseconds that have passed since the start of that second.  Within a
/// leap second the nanoseconds run on from 1,000,000,000.
#[derive(Clone, Copy, Debug, PartialEq, Eq, Structural)]
pub struct Timestamp {
    pub secs: i64,
    pub nanos: u32,
}

/// The error of chrono's parsers.  Nothing is read from it.
#[verifier::external_type_specification]
#[verifier::external_body]
pub struct ExParseError(chrono::ParseError);

/// The instant that chrono reads from `text` as a date and time with an
/// offset from UTC, or `None` where chrono rejects the text.
pub uninterp spec fn parsed_instant(text: Seq<char>) -> Option<Timestamp>;

/// Reads a date and time through chrono's `FromStr` for `DateTime<Utc>`.
///
/// That function accepts RFC 3339 in a relaxed form and brings the result to
/// UTC.  The contract claims only that its outcome depends on the text
/// alone.  The instant is handed on as chrono's `timestamp()` and
/// `timestamp_subsec_nanos()` report it.
#[verifier::external_body]
fn instant_from_text(text: &str) -> (r: Result<Timestamp, chrono::ParseError>)
    ensures
        match r {
            Ok(t) => parsed_instant(text@) == Some(t),
            Err(_) => parsed_instant(text@) is None,
        },
{
    let instant: chrono::DateTime<chrono::Utc> = std::str::FromStr::from_str(text)?;
    Ok(Timestamp { secs: instant.timestamp(), nanos: instant.timestamp_subsec_nanos() })
}

impl Timestamp {
    /// `self` is strictly earlier than `other`.
    pub open spec fn earlier(self, other: Timestamp) -> bool {
        self.secs < other.secs || (self.secs == other.secs && self.nanos < other.nanos)
    }

    /// The instant `secs` seconds and `nanos` nanoseconds after the epoch.
    pub fn new(secs: i64, nanos: u32) -> (t: Timestamp)
        ensures
            t == (Timestamp { secs, nanos }),
    {
        Timestamp { secs, nanos }
    }

    /// Reads an RFC 3339 date and time, such as `2020-01-31T12:00:00Z`.
    ///
    /// Returns the instant exactly where the text denotes one, and nothing
    /// where it does not.
    pub fn parse(text: &str) -> (r: Option<Timestamp>)
        ensures
            r == parsed_instant(text@),
    {
        match instant_from_text(text) {
            Ok(t) => Some(t),
            Err(_) => None,
        }
    }

    /// Whether `self` is strictly earlier than `other`.
    pub fn is_earlier(&self, other: &Timestamp) -> (r: bool)
        ensures
            r == self.earlier(*other),
    {
        self.secs < other.secs || (self.secs == other.secs && self.nanos < other.nanos)
    }
}

} // verus!
