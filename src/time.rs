use vstd::prelude::*;

use crate::error::Error;

verus! {

/// A point in time: seconds since the Unix epoch plus a nanosecond part.
#[derive(Debug, Clone, Copy, PartialEq, Eq, Structural)]
pub struct Timestamp {
    pub seconds: i64,
    pub nanos: i32,
}

/// The point in time as a count of nanoseconds since the epoch.
pub open spec fn instant(t: Timestamp) -> int {
    t.seconds * 1_000_000_000 + t.nanos
}

/// Both ends are given and the window `[start, end)` is not empty.
pub open spec fn window_valid(start: Option<Timestamp>, end: Option<Timestamp>) -> bool {
    &&& start is Some
    &&& end is Some
    &&& instant(start->0) < instant(end->0)
}

/// The half-open windows `[s1, e1)` and `[s2, e2)` share a point in time.
pub open spec fn windows_overlap(s1: Timestamp, e1: Timestamp, s2: Timestamp, e2: Timestamp) -> bool {
    instant(s1) < instant(e2) && instant(s2) < instant(e1)
}

impl Timestamp {
    pub fn new(seconds: i64, nanos: i32) -> (r: Timestamp)
        ensures
            r.seconds == seconds,
            r.nanos == nanos,
    {
        Timestamp { seconds, nanos }
    }

    /// Nanoseconds since the epoch.
    pub fn as_nanos(&self) -> (r: i128)
        ensures
            r == instant(*self),
    {
        self.seconds as i128 * 1_000_000_000i128 + self.nanos as i128
    }
}

/// Accepts a window only when both ends are given and `start < end`.
pub fn validate_range(start: Option<Timestamp>, end: Option<Timestamp>) -> (r: Result<(), Error>)
    ensures
        r is Ok <==> window_valid(start, end),
        r is Err ==> r == Err::<(), Error>(Error::InvalidTime),
{
    match (start, end) {
        (Some(s), Some(e)) => {
            if s.as_nanos() < e.as_nanos() {
                Ok(())
            } else {
                Err(Error::InvalidTime)
            }
        },
        _ => Err(Error::InvalidTime),
    }
}

/// Whether two half-open windows share a point in time.
pub fn overlap(s1: &Timestamp, e1: &Timestamp, s2: &Timestamp, e2: &Timestamp) -> (r: bool)
    ensures
        r == windows_overlap(*s1, *e1, *s2, *e2),
{
    s1.as_nanos() < e2.as_nanos() && s2.as_nanos() < e1.as_nanos()
}

/// What chrono's `DateTime::parse_from_str` yields for text `s` and format `fmt`,
/// as Unix seconds and the nanosecond part of the second.
pub uninterp spec fn datetime_parsed(s: Seq<char>, fmt: Seq<char>) -> Option<(i64, u32)>;

/// Relies on chrono's `DateTime::parse_from_str`, `timestamp` and
/// `timestamp_subsec_nanos`: the instant is a function of the text and the
/// format alone, and the nanosecond part stays below two seconds' worth.
#[verifier::external_body]
fn parse_datetime(s: &str, fmt: &str) -> (r: Option<(i64, u32)>)
    ensures
        r == datetime_parsed(s@, fmt@),
        r matches Some(p) ==> p.1 < 2_000_000_000,
{
    chrono::DateTime::parse_from_str(s, fmt).ok().map(|d| (d.timestamp(), d.timestamp_subsec_nanos()))
}

/// The layout of timestamps inside storage diagnostics: date, time and a compact offset.
pub open spec fn diagnostic_time_format() -> Seq<char> {
    "%Y-%m-%d %H:%M:%S%#z"@
}

/// The timestamp that `s` spells in the diagnostic layout, if any.
pub open spec fn diagnostic_time(s: Seq<char>) -> Option<Timestamp> {
    match datetime_parsed(s, diagnostic_time_format()) {
        Some(p) => Some(Timestamp { seconds: p.0, nanos: p.1 as i32 }),
        None => None,
    }
}

/// Parses `YYYY-MM-DD HH:MM:SS` followed by a compact `+HH` style offset into a UTC timestamp.
pub fn parse_str_into_datetime_utc(s: &str) -> (r: Result<Timestamp, ()>)
    ensures
        r is Ok <==> diagnostic_time(s@) is Some,
        r matches Ok(t) ==> diagnostic_time(s@) == Some(t),
{
    match parse_datetime(s, "%Y-%m-%d %H:%M:%S%#z") {
        Some(p) => Ok(Timestamp { seconds: p.0, nanos: p.1 as i32 }),
        None => Err(()),
    }
}

} // verus!
