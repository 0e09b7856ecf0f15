use std::fmt::Write;

use vstd::prelude::*;

verus! {

/// A point in time: seconds since the Unix epoch, and nanoseconds within
/// the second.
#[derive(Debug, Clone, Copy, PartialEq, Eq, Structural)]
pub struct Instant {
    pub secs: i64,
    pub nanos: u32,
}

impl Instant {
    /// `self` is strictly later than `other`.
    pub open spec fn later_than(self, other: Instant) -> bool {
        self.secs > other.secs || (self.secs == other.secs && self.nanos > other.nanos)
    }

    /// Whether `self` is strictly later than `other`.
    pub fn is_after(&self, other: &Instant) -> (b: bool)
        ensures
            b == self.later_than(*other),
    {
        self.secs > other.secs || (self.secs == other.secs && self.nanos > other.nanos)
    }
}

/// The instant an RFC 3339 text denotes, as `chrono` reads it, or the
/// message of `chrono`'s parse error.
pub uninterp spec fn rfc3339_parsed(text: Seq<char>) -> Result<Instant, Seq<char>>;

/// Trusted: calls `chrono::DateTime::parse_from_rfc3339` and takes the UTC
/// timestamp of the result, or the text of the `ParseError`.
#[verifier::external_body]
pub(crate) fn parse_rfc3339(text: &str) -> (r: Result<Instant, String>)
    ensures
        match r {
            Ok(t) => rfc3339_parsed(text@) == Ok::<Instant, Seq<char>>(t),
            Err(m) => rfc3339_parsed(text@) == Err::<Instant, Seq<char>>(m@),
        },
{
    chrono::DateTime::parse_from_rfc3339(text).map(
        |d| Instant { secs: d.timestamp(), nanos: d.timestamp_subsec_nanos() },
    ).map_err(|e| e.to_string())
}

/// `t` moved forward by `days` days, as `chrono` adds a `TimeDelta` of that
/// many days; `None` where `chrono` cannot represent the delta or the result.
pub uninterp spec fn days_after(t: Instant, days: i64) -> Option<Instant>;

/// Trusted: calls `chrono::DateTime::checked_add_signed` with
/// `TimeDelta::try_days(days)` on the UTC date-time of `t`; `None` when the
/// delta, `t` or the sum is out of `chrono`'s range. A whole number of days
/// moves the timestamp by that many times 86400 seconds and keeps the
/// nanoseconds, except within a leap second (nanoseconds of a billion or
/// more), which `chrono` leaves on adding; nothing is said of that case.
#[verifier::external_body]
pub(crate) fn add_days(t: Instant, days: i64) -> (r: Option<Instant>)
    ensures
        r == days_after(t, days),
        t.nanos < 1_000_000_000 ==> (r matches Some(u) ==> u.secs == t.secs + 86400 * days
            && u.nanos == t.nanos),
{
    let d = chrono::DateTime::from_timestamp(t.secs, t.nanos)?;
    let sum = d.checked_add_signed(chrono::TimeDelta::try_days(days)?)?;
    Some(Instant { secs: sum.timestamp(), nanos: sum.timestamp_subsec_nanos() })
}

/// `t` in RFC 3339 (`DateTime::to_rfc3339` on UTC), or `None` where `chrono`
/// cannot represent `t`.
pub uninterp spec fn rfc3339_text(t: Instant) -> Option<Seq<char>>;

/// Trusted: calls `chrono::DateTime::to_rfc3339` on the UTC date-time of `t`.
#[verifier::external_body]
pub(crate) fn format_rfc3339(t: Instant) -> (r: Option<String>)
    ensures
        match r {
            Some(s) => rfc3339_text(t) == Some(s@),
            None => rfc3339_text(t) is None,
        },
{
    chrono::DateTime::from_timestamp(t.secs, t.nanos).map(|d| d.to_rfc3339())
}

/// `t` written by `chrono`'s `strftime`-style `pattern` on the UTC
/// date-time of `t`, or `None` where `chrono` cannot represent `t` or the
/// pattern is not one `chrono` can write.
pub uninterp spec fn utc_text(t: Instant, pattern: Seq<char>) -> Option<Seq<char>>;

/// Trusted: calls `chrono::DateTime::format` with `pattern` on the UTC
/// date-time of `t` and writes the result into a string; a pattern that
/// `chrono` cannot write makes the writing fail, which gives `None`.
#[verifier::external_body]
pub(crate) fn format_utc(t: Instant, pattern: &str) -> (r: Option<String>)
    ensures
        match r {
            Some(s) => utc_text(t, pattern@) == Some(s@),
            None => utc_text(t, pattern@) is None,
        },
{
    let d = chrono::DateTime::from_timestamp(t.secs, t.nanos)?;
    let mut s = String::new();
    write!(s, "{}", d.format(pattern)).ok()?;
    Some(s)
}

} // verus!
