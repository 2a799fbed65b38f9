//! Instants, and their rendering as text.

use vstd::prelude::*;
use crate::text::opt_text;

verus! {

/// Seconds in an hour.
pub const SECS_PER_HOUR: i64 = 3600;

/// Seconds in a day.
pub const SECS_PER_DAY: i64 = 86400;

/// An instant in UTC: whole seconds since the Unix epoch and the nanoseconds
/// into that second.
#[derive(Debug, Clone, Copy, PartialEq, Eq, Structural)]
pub struct Timestamp {
    pub secs: i64,
    pub nanos: u32,
}

/// `n` brought into the range of `i64`.
pub open spec fn clamp_i64(n: int) -> i64 {
    if n < i64::MIN {
        i64::MIN
    } else if n > i64::MAX {
        i64::MAX
    } else {
        n as i64
    }
}

/// What formatting the instant `secs` seconds and `nanos` nanoseconds after
/// the Unix epoch with the strftime pattern `pattern` gives: the text, or
/// nothing where the calendar cannot express the instant or the pattern is
/// not one.
pub uninterp spec fn formatted_utc(secs: int, nanos: int, pattern: Seq<char>) -> Option<Seq<char>>;

/// What the instant `secs` seconds and `nanos` nanoseconds after the Unix
/// epoch reads as when displayed in full, date and time of day followed by
/// `UTC`; nothing where the calendar cannot express the instant.
pub uninterp spec fn displayed_utc(secs: int, nanos: int) -> Option<Seq<char>>;

/// `chrono::DateTime::from_timestamp`, then `DateTime::format` with
/// `pattern`, written out with `DelayedFormat::write_to`. Trusted: the text
/// depends on the three arguments alone, and there is none when
/// `from_timestamp` has no instant for them or `write_to` reports an error.
#[verifier::external_body]
fn format_utc(secs: i64, nanos: u32, pattern: &str) -> (text: Option<String>)
    ensures
        opt_text(text) == formatted_utc(secs as int, nanos as int, pattern@),
{
    let instant = chrono::DateTime::from_timestamp(secs, nanos)?;
    let mut text = String::new();
    instant.format(pattern).write_to(&mut text).ok()?;
    Some(text)
}

/// `chrono::DateTime::from_timestamp`, then the `Display` of the
/// `DateTime<Utc>` it gives. Trusted: the text depends on the two arguments
/// alone, and there is none when `from_timestamp` has no instant for them.
#[verifier::external_body]
fn display_utc(secs: i64, nanos: u32) -> (text: Option<String>)
    ensures
        opt_text(text) == displayed_utc(secs as int, nanos as int),
{
    let instant = chrono::DateTime::from_timestamp(secs, nanos)?;
    Some(instant.to_string())
}

impl Timestamp {
    /// The instant `delta` seconds after this one (before it, for a negative
    /// `delta`), stopping at the ends of what `i64` seconds can count.
    pub open spec fn shifted(self, delta: int) -> Timestamp {
        Timestamp { secs: clamp_i64(self.secs + delta), nanos: self.nanos }
    }

    /// The instant `delta` seconds after this one (before it, for a negative
    /// `delta`), stopping at the ends of what `i64` seconds can count.
    pub fn plus_secs(self, delta: i64) -> (t: Timestamp)
        ensures
            t == self.shifted(delta as int),
    {
        let secs = match self.secs.checked_add(delta) {
            Some(secs) => secs,
            None => if delta > 0 {
                i64::MAX
            } else {
                i64::MIN
            },
        };
        Timestamp { secs, nanos: self.nanos }
    }

    /// This instant written after the strftime pattern `pattern`, or nothing
    /// where the calendar cannot express it or the pattern is not one.
    pub fn format(&self, pattern: &str) -> (text: Option<String>)
        ensures
            opt_text(text) == formatted_utc(self.secs as int, self.nanos as int, pattern@),
    {
        format_utc(self.secs, self.nanos, pattern)
    }

    /// This instant written in full, or nothing where the calendar cannot
    /// express it.
    pub fn display(&self) -> (text: Option<String>)
        ensures
            opt_text(text) == displayed_utc(self.secs as int, self.nanos as int),
    {
        display_utc(self.secs, self.nanos)
    }
}

} // verus!
