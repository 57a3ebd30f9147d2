//! The wall clock, read through `chrono`, and the texts it is written as.

use vstd::prelude::*;

verus! {

/// A point in time: whole seconds since the Unix epoch and the nanoseconds
/// within that second.
#[derive(Debug, Clone, Copy, PartialEq, Eq, Structural)]
pub struct Timestamp {
    pub secs: i64,
    pub nanos: u32,
}

impl Timestamp {
    /// Whether `self` is not earlier than `other`.
    pub open spec fn at_or_after(self, other: Timestamp) -> bool {
        self.secs > other.secs || (self.secs == other.secs && self.nanos >= other.nanos)
    }

    /// Whether `self` is not earlier than `other`.
    pub fn is_at_or_after(&self, other: &Timestamp) -> (r: bool)
        ensures
            r == self.at_or_after(*other),
    {
        self.secs > other.secs || (self.secs == other.secs && self.nanos >= other.nanos)
    }

    /// The instant `seconds` seconds after `self`, where the count of
    /// seconds can hold it.
    pub open spec fn later(self, seconds: u64) -> Option<Timestamp> {
        if self.secs + seconds <= i64::MAX {
            Some(Timestamp { secs: (self.secs + seconds) as i64, nanos: self.nanos })
        } else {
            None
        }
    }

    /// The instant `seconds` seconds after `self`.
    pub fn plus_seconds(&self, seconds: u64) -> (r: Option<Timestamp>)
        ensures
            r == self.later(seconds),
    {
        let sum: i128 = self.secs as i128 + seconds as i128;
        if sum <= 0x7fff_ffff_ffff_ffff {
            Some(Timestamp { secs: sum as i64, nanos: self.nanos })
        } else {
            None
        }
    }
}

impl DeepView for Timestamp {
    type V = Timestamp;

    open spec fn deep_view(&self) -> Timestamp {
        *self
    }
}

/// What `chrono` writes for the UTC date and time `secs` seconds and `nanos`
/// nanoseconds after the Unix epoch in RFC 3339 form, or `None` where `chrono`
/// has no such date.
pub uninterp spec fn rfc3339_text(secs: int, nanos: int) -> Option<Seq<char>>;

/// What `chrono` writes for the UTC date and time `secs` seconds and `nanos`
/// nanoseconds after the Unix epoch with the pattern `%Y-%m-%d_%H-%M-%S`, or
/// `None` where `chrono` has no such date.
pub uninterp spec fn stamp_text(secs: int, nanos: int) -> Option<Seq<char>>;

/// What holds of every stamp: it has a year of four characters or more and
/// five fields of two, with their separators, and no path separator.
pub open spec fn stamp_like(s: Seq<char>) -> bool {
    s.len() >= 19 && forall|i: int| 0 <= i < s.len() ==> s[i] != '/'
}

/// The RFC 3339 text of the instant `t`.
pub open spec fn rfc3339_at(t: Timestamp) -> Option<Seq<char>> {
    rfc3339_text(t.secs as int, t.nanos as int)
}

/// The stamp of the instant `t`.
pub open spec fn stamp_at(t: Timestamp) -> Option<Seq<char>> {
    stamp_text(t.secs as int, t.nanos as int)
}

/// `chrono::DateTime::from_timestamp` followed by `DateTime::to_rfc3339`: the
/// RFC 3339 text of the given instant in UTC. `from_timestamp` returns `None`
/// for seconds outside the range of dates that `chrono` represents and for an
/// invalid nanosecond count; the text is a function of the two numbers alone.
#[verifier::external_body]
pub(crate) fn rfc3339_of(t: Timestamp) -> (r: Option<String>)
    ensures
        r.deep_view() == rfc3339_text(t.secs as int, t.nanos as int),
{
    chrono::DateTime::from_timestamp(t.secs, t.nanos).map(|d| d.to_rfc3339())
}

/// `chrono::DateTime::from_timestamp` followed by `DateTime::format` with
/// the pattern `%Y-%m-%d_%H-%M-%S`: the date and time of the given instant in
/// UTC, to the second. `from_timestamp` returns `None` for seconds outside
/// the range of dates that `chrono` represents and for an invalid nanosecond
/// count; the text is a function of the two numbers alone. `chrono` writes
/// the year with four characters or more, the other five fields with two
/// digits each, and between them the `-` and `_` of the pattern.
#[verifier::external_body]
pub(crate) fn stamp_of(t: Timestamp) -> (r: Option<String>)
    ensures
        r.deep_view() == stamp_text(t.secs as int, t.nanos as int),
        match r {
            Some(s) => stamp_like(s@),
            None => true,
        },
{
    chrono::DateTime::from_timestamp(t.secs, t.nanos).map(
        |d| d.format("%Y-%m-%d_%H-%M-%S").to_string(),
    )
}

/// `chrono::Utc::now`, as the seconds and nanoseconds that
/// `DateTime::timestamp` and `DateTime::timestamp_subsec_nanos` give of it.
/// Nothing is claimed of the reading, which changes from call to call.
/// `Utc::now` panics where the system clock stands before the Unix epoch.
#[verifier::external_body]
pub(crate) fn now() -> (t: Timestamp) {
    let read = chrono::Utc::now();
    Timestamp { secs: read.timestamp(), nanos: read.timestamp_subsec_nanos() }
}

} // verus!
