//! Points in time, and the thresholds after which an entity counts as stale.

use vstd::prelude::*;
use crate::text::opt_text;

verus! {

/// A node that has not been seen for longer than this is stale.
pub const NODE_STALE_THRESHOLD_MS: i64 = 300_000;

/// Staleness threshold reserved for agents.
pub const AGENT_STALE_THRESHOLD_MS: i64 = 600_000;

/// Interval between two runs of the reaper, in seconds.
pub const REAP_INTERVAL_SECS: u64 = 300;

/// A point in time: milliseconds since 1970-01-01T00:00:00Z, leap seconds not counted.
#[derive(Clone, Copy, Debug, PartialEq, Eq, Structural)]
pub struct Timestamp {
    pub millis: i64,
}

/// Whether an entity last seen at `last_seen` is stale at `now`: strictly more
/// than the node threshold has passed.
pub open spec fn is_stale(last_seen: Timestamp, now: Timestamp) -> bool {
    now.millis - last_seen.millis > NODE_STALE_THRESHOLD_MS
}

/// The RFC 3339 text, in UTC, of the time `millis` milliseconds after the
/// epoch; `None` where that time lies outside the years that the calendar
/// covers.
pub uninterp spec fn rfc3339_text(millis: i64) -> Option<Seq<char>>;

/// The RFC 3339 text of the time `millis` milliseconds after the epoch.
///
/// Trusted: calls `chrono::DateTime::from_timestamp_millis`, which gives no
/// date for a number of milliseconds that is out of range, and formats the
/// date it gives with `DateTime::to_rfc3339`. The result is a function of
/// `millis` alone.
#[verifier::external_body]
fn format_rfc3339(millis: i64) -> (text: Option<String>)
    ensures
        opt_text(text) == rfc3339_text(millis),
{
    match chrono::DateTime::from_timestamp_millis(millis) {
        Some(moment) => Some(moment.to_rfc3339()),
        None => None,
    }
}

/// The text under which the time `now` stands in an event: its RFC 3339
/// text, or the empty text where it has none.
pub open spec fn stamp_text(now: Timestamp) -> Seq<char> {
    match rfc3339_text(now.millis) {
        Some(text) => text,
        None => Seq::empty(),
    }
}

/// Whether `text` is the text under which some reading of the clock stands
/// in an event.
pub open spec fn is_clock_stamp(text: Seq<char>) -> bool {
    exists|now: Timestamp| text == #[trigger] stamp_text(now)
}

impl Timestamp {
    /// The timestamp `millis` milliseconds after the epoch.
    pub fn from_millis(millis: i64) -> (t: Timestamp)
        ensures
            t.millis == millis,
    {
        Timestamp { millis }
    }

    /// The current time in UTC.
    ///
    /// Trusted: calls `chrono::Utc::now` and reads the result with
    /// `DateTime::timestamp_millis`. Nothing is claimed of the value: it is
    /// whatever the system clock says. The call does not return where the
    /// system clock stands before 1970.
    #[verifier::external_body]
    pub(crate) fn now() -> (t: Timestamp) {
        Timestamp { millis: chrono::Utc::now().timestamp_millis() }
    }

    /// The time as an RFC 3339 text in UTC, such as
    /// `1970-01-01T00:00:00+00:00`; `None` where the time lies outside the
    /// years that the calendar covers.
    pub fn rfc3339(&self) -> (text: Option<String>)
        ensures
            opt_text(text) == rfc3339_text(self.millis),
    {
        format_rfc3339(self.millis)
    }

    /// The text under which the time stands in an event: its RFC 3339 text,
    /// or the empty text where it has none.
    pub fn stamp(&self) -> (text: String)
        ensures
            text@ == stamp_text(*self),
    {
        match self.rfc3339() {
            Some(text) => text,
            None => String::new(),
        }
    }

    /// Whether something last seen at `self` is stale at `now`.
    pub fn is_stale_at(&self, now: Timestamp) -> (stale: bool)
        ensures
            stale == is_stale(*self, now),
    {
        if self.millis > i64::MAX - NODE_STALE_THRESHOLD_MS {
            false
        } else {
            now.millis > self.millis + NODE_STALE_THRESHOLD_MS
        }
    }
}

} // verus!
