//! Publish dates: the fixed date-time grammar of feeds, and the order of
//! instants.

use vstd::prelude::*;

verus! {

/// A publish date: an instant, and the offset from UTC it was written with.
///
/// `timestamp` counts the seconds since 1970-01-01T00:00:00Z, `nanos` the
/// nanoseconds past that second, `offset` the seconds east of UTC.
#[derive(Debug, Clone, Copy, PartialEq, Eq, Structural)]
pub struct PubDate {
    pub timestamp: i64,
    pub nanos: u32,
    pub offset: i32,
}

/// What the RFC 2822 grammar makes of a text: seconds since the epoch,
/// nanoseconds past the second and seconds east of UTC, or nothing where the
/// text is no such date.
pub uninterp spec fn rfc2822_date(text: Seq<char>) -> Option<(i64, u32, i32)>;

/// Runs `chrono::DateTime::parse_from_rfc2822` on `text` and, where it
/// succeeds, reads the result with `timestamp`, `timestamp_subsec_nanos` and
/// `offset().local_minus_utc()`. The outcome depends on the text alone; the
/// contract names it `rfc2822_date(text)`.
#[verifier::external_body]
fn read_rfc2822(text: &str) -> (r: Option<(i64, u32, i32)>)
    ensures
        r == rfc2822_date(text@),
{
    match chrono::DateTime::parse_from_rfc2822(text) {
        Ok(d) => Some((d.timestamp(), d.timestamp_subsec_nanos(), d.offset().local_minus_utc())),
        Err(_) => None,
    }
}

/// The publish date that a text stands for, if any.
pub open spec fn published(text: Seq<char>) -> Option<PubDate> {
    match rfc2822_date(text) {
        Some(d) => Some(PubDate { timestamp: d.0, nanos: d.1, offset: d.2 }),
        None => None,
    }
}

/// The publish date of an entry whose date field is `text`: a missing field
/// and a field that is no date both give none.
pub open spec fn published_opt(text: Option<Seq<char>>) -> Option<PubDate> {
    match text {
        Some(t) => published(t),
        None => None,
    }
}

impl PubDate {
    /// Reads a date in the RFC 2822 grammar. A text that is no such date
    /// gives `None`.
    pub fn parse(text: &str) -> (r: Option<PubDate>)
        ensures
            r == published(text@),
    {
        match read_rfc2822(text) {
            Some(d) => Some(PubDate { timestamp: d.0, nanos: d.1, offset: d.2 }),
            None => None,
        }
    }

    /// Whether `self` is a strictly later instant than `other`. The offset
    /// plays no part.
    pub open spec fn is_after(self, other: PubDate) -> bool {
        self.timestamp > other.timestamp || (self.timestamp == other.timestamp && self.nanos
            > other.nanos)
    }

    /// Whether both dates are the same instant.
    pub open spec fn same_instant(self, other: PubDate) -> bool {
        self.timestamp == other.timestamp && self.nanos == other.nanos
    }

    /// Decides `is_after`.
    pub fn after(&self, other: &PubDate) -> (r: bool)
        ensures
            r == self.is_after(*other),
    {
        self.timestamp > other.timestamp || (self.timestamp == other.timestamp && self.nanos
            > other.nanos)
    }
}

} // verus!
