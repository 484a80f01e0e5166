use vstd::prelude::*;

verus! {

/// An instant: whole seconds since the Unix epoch and a sub-second part in
/// nanoseconds. Instants are ordered by seconds, then by nanoseconds.
#[derive(Clone, Copy, Debug, PartialEq, Eq, Structural, Default)]
pub struct Timestamp {
    pub seconds: i64,
    pub nanos: i32,
}

impl Timestamp {
    /// `self` comes strictly before `other`.
    pub open spec fn spec_before(self, other: Timestamp) -> bool {
        self.seconds < other.seconds || (self.seconds == other.seconds && self.nanos < other.nanos)
    }

    /// `self` comes before `other` or is the same instant.
    pub open spec fn spec_not_after(self, other: Timestamp) -> bool {
        !other.spec_before(self)
    }

    pub fn new(seconds: i64, nanos: i32) -> (r: Timestamp)
        ensures
            r.seconds == seconds,
            r.nanos == nanos,
    {
        Timestamp { seconds, nanos }
    }

    pub fn is_before(&self, other: &Timestamp) -> (r: bool)
        ensures
            r == self.spec_before(*other),
    {
        self.seconds < other.seconds || (self.seconds == other.seconds && self.nanos < other.nanos)
    }
}

/// A half-open interval `[start, end)` whose start never comes after its end.
#[derive(Clone, Copy, Debug, PartialEq, Eq, Structural)]
pub struct TimeRange {
    pub start: Timestamp,
    pub end: Timestamp,
}

impl TimeRange {
    pub open spec fn wf(self) -> bool {
        self.start.spec_not_after(self.end)
    }

    /// The range from the earlier to the later of two instants.
    pub open spec fn spec_new(a: Timestamp, b: Timestamp) -> TimeRange {
        if b.spec_before(a) {
            TimeRange { start: b, end: a }
        } else {
            TimeRange { start: a, end: b }
        }
    }

    /// The instant `t` lies in the range.
    pub open spec fn spec_contains(self, t: Timestamp) -> bool {
        self.start.spec_not_after(t) && t.spec_before(self.end)
    }

    /// The two ranges share an instant: each starts before the other ends.
    /// Ranges that only touch at an end point do not overlap.
    pub open spec fn spec_overlaps(self, other: TimeRange) -> bool {
        self.start.spec_before(other.end) && other.start.spec_before(self.end)
    }

    /// Builds a range from two instants, swapping them when given in reverse.
    pub fn new(start: Timestamp, end: Timestamp) -> (r: TimeRange)
        ensures
            r == TimeRange::spec_new(start, end),
            r.wf(),
    {
        if end.is_before(&start) {
            TimeRange { start: end, end: start }
        } else {
            TimeRange { start, end }
        }
    }

    pub fn contains(&self, t: &Timestamp) -> (r: bool)
        ensures
            r == self.spec_contains(*t),
    {
        !t.is_before(&self.start) && t.is_before(&self.end)
    }

    pub fn overlaps(&self, other: &TimeRange) -> (r: bool)
        ensures
            r == self.spec_overlaps(*other),
    {
        self.start.is_before(&other.end) && other.start.is_before(&self.end)
    }
}

/// The instant that chrono reads from `s` in the given format, if it reads
/// one; a function of the two texts alone.
pub uninterp spec fn parsed_instant(s: Seq<char>, format: Seq<char>) -> Option<Timestamp>;

/// Relies on `chrono::DateTime::parse_from_str` with an explicit offset, and on
/// `timestamp` / `timestamp_subsec_nanos` of the parsed value (at most
/// 1_999_999_999 nanoseconds, which fits an `i32`).
#[verifier::external_body]
fn chrono_parse_from_str(s: &str, format: &str) -> (r: Option<Timestamp>)
    ensures
        r == parsed_instant(s@, format@),
{
    match chrono::DateTime::parse_from_str(s, format) {
        Ok(d) => Some(Timestamp { seconds: d.timestamp(), nanos: d.timestamp_subsec_nanos() as i32 }),
        Err(_) => None,
    }
}

/// Relies on `chrono::Utc::now`: the current instant, read from the clock.
#[verifier::external_body]
pub(crate) fn chrono_now() -> (r: Timestamp) {
    let now = chrono::Utc::now();
    Timestamp { seconds: now.timestamp(), nanos: now.timestamp_subsec_nanos() as i32 }
}

/// Reads an instant written as `2012-03-04 05:06:07+08`: date, time and the
/// offset from UTC.
pub fn parse_datetime(s: &str) -> (r: Result<Timestamp, ()>)
    ensures
        r == (match parsed_instant(s@, "%Y-%m-%d %H:%M:%S%#z"@) {
            Some(t) => Ok(t),
            None => Err(()),
        }),
{
    match chrono_parse_from_str(s, "%Y-%m-%d %H:%M:%S%#z") {
        Some(t) => Ok(t),
        None => Err(()),
    }
}

} // verus!
