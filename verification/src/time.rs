//! Instants on the UTC time line and their RFC 3339 text form.

use vstd::prelude::*;

verus! {

/// An instant: whole seconds since 1970-01-01T00:00:00Z and the nanoseconds
/// into that second. Instants are ordered by seconds first, nanoseconds second.
#[derive(Clone, Copy, Debug, PartialEq, Eq, Structural)]
pub struct Timestamp {
    pub secs: i64,
    pub nanos: u32,
}

impl Timestamp {
    /// `self` lies strictly earlier than `other`.
    pub open spec fn before(self, other: Timestamp) -> bool {
        self.secs < other.secs || (self.secs == other.secs && self.nanos < other.nanos)
    }

    /// The instant with these seconds and nanoseconds.
    pub fn new(secs: i64, nanos: u32) -> (t: Timestamp)
        ensures
            t.secs == secs,
            t.nanos == nanos,
    {
        Timestamp { secs, nanos }
    }

    /// Whether `self` lies strictly earlier than `other`.
    pub fn is_before(&self, other: &Timestamp) -> (r: bool)
        ensures
            r == self.before(*other),
    {
        self.secs < other.secs || (self.secs == other.secs && self.nanos < other.nanos)
    }
}

/// What `chrono::DateTime::parse_from_rfc3339` makes of a text, taken to UTC:
/// the seconds and nanoseconds of the instant, or `None` where the text is
/// not an RFC 3339 date and time.
pub uninterp spec fn rfc3339_instant(text: Seq<char>) -> Option<(i64, u32)>;

/// What `chrono::DateTime::to_rfc3339` writes for the UTC instant with these
/// seconds and nanoseconds, or `None` where chrono cannot represent it.
pub uninterp spec fn rfc3339_text(secs: i64, nanos: u32) -> Option<Seq<char>>;

/// The instant that a stored text stands for.
pub open spec fn parsed_instant(text: Seq<char>) -> Option<Timestamp> {
    match rfc3339_instant(text) {
        Some((secs, nanos)) => Some(Timestamp { secs, nanos }),
        None => None,
    }
}

/// Calls `chrono::DateTime::parse_from_rfc3339` and moves the result to UTC.
/// The contract only names the outcome: nothing is proved about which texts
/// chrono accepts.
#[verifier::external_body]
pub(crate) fn parse_rfc3339(text: &str) -> (r: Option<Timestamp>)
    ensures
        match r {
            Some(t) => rfc3339_instant(text@) == Some((t.secs, t.nanos)),
            None => rfc3339_instant(text@) is None,
        },
{
    match chrono::DateTime::parse_from_rfc3339(text) {
        Ok(parsed) => {
            let utc = parsed.with_timezone(&chrono::Utc);
            Some(Timestamp { secs: utc.timestamp(), nanos: utc.timestamp_subsec_nanos() })
        },
        Err(_) => None,
    }
}

/// Calls `chrono::DateTime::to_rfc3339` on the UTC instant built by
/// `chrono::DateTime::from_timestamp`. The contract only names the outcome.
#[verifier::external_body]
pub(crate) fn format_rfc3339(t: Timestamp) -> (r: Option<String>)
    ensures
        match r {
            Some(text) => rfc3339_text(t.secs, t.nanos) == Some(text@),
            None => rfc3339_text(t.secs, t.nanos) is None,
        },
{
    match chrono::DateTime::from_timestamp(t.secs, t.nanos) {
        Some(instant) => Some(instant.to_rfc3339()),
        None => None,
    }
}

/// The RFC 3339 text of an instant, where there is one.
pub open spec fn instant_text(t: Timestamp) -> Option<Seq<char>> {
    rfc3339_text(t.secs, t.nanos)
}

impl Timestamp {
    /// Reads an instant from its RFC 3339 text.
    pub fn parse(text: &str) -> (r: Option<Timestamp>)
        ensures
            r == parsed_instant(text@),
    {
        parse_rfc3339(text)
    }

    /// Writes the instant as RFC 3339 text. Gives nothing for an instant
    /// beyond the years that the calendar library covers.
    pub fn to_text(&self) -> (r: Option<String>)
        ensures
            r.deep_view() == instant_text(*self),
    {
        format_rfc3339(*self)
    }
}

} // verus!
