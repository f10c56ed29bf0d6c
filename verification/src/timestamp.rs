//! Instants in UTC, as whole seconds since 1970-01-01T00:00:00Z and the
//! nanoseconds into that second. Placing the clock's reading on the calendar
//! and writing or reading an instant as text is `chrono`'s work.

use vstd::prelude::*;
use std::time::Duration;
use crate::random::since_epoch;
use crate::random::system_now;

verus! {

/// The first second that `chrono` can hold: the start of the year -262143.
pub const MIN_SECONDS: i64 = -8_334_601_228_800;

/// The last second that `chrono` can hold: the end of the year 262142.
pub const MAX_SECONDS: i64 = 8_210_266_876_799;

/// Whether `secs` and `nanos` name an instant that a `Timestamp` can hold.
pub open spec fn is_instant(secs: int, nanos: int) -> bool {
    MIN_SECONDS <= secs <= MAX_SECONDS && 0 <= nanos < 1_000_000_000
}

/// The RFC 3339 text that `chrono` writes for an instant: what
/// `DateTime::<Utc>::to_rfc3339_opts(SecondsFormat::AutoSi, true)` returns.
pub uninterp spec fn rfc3339_text(secs: int, nanos: int) -> Seq<char>;

/// The instant that `chrono` reads from a text, if it reads one: what parsing
/// the text as a `DateTime<Utc>` returns, as seconds and nanoseconds.
pub uninterp spec fn rfc3339_instant(text: Seq<char>) -> Option<(int, int)>;

/// What `chrono` writes for an instant under the format `%Y-%m-%d %H:%M`.
pub uninterp spec fn minute_text(secs: int, nanos: int) -> Seq<char>;

/// The instant that a text stands for in a task file: what `chrono` reads from
/// it, where that is an instant a `Timestamp` can hold.
pub open spec fn read_instant(text: Seq<char>) -> Option<(int, int)> {
    match rfc3339_instant(text) {
        Some(at) => if is_instant(at.0, at.1) {
            Some(at)
        } else {
            None
        },
        None => None,
    }
}

#[verifier::external_type_specification]
#[verifier::external_body]
pub struct ExTimeDelta(chrono::TimeDelta);

#[verifier::external_type_specification]
#[verifier::external_body]
pub struct ExOutOfRangeError(chrono::OutOfRangeError);

/// A span of time as `chrono` holds it, by `TimeDelta::from_std`; an error
/// where the span is longer than `chrono` can hold.
#[verifier::external_body]
fn span_of(span: Duration) -> Result<chrono::TimeDelta, chrono::OutOfRangeError> {
    chrono::TimeDelta::from_std(span)
}

/// The instant that lies a span after the start of 1970, by
/// `DateTime::checked_add_signed` on `DateTime::UNIX_EPOCH`, as seconds and
/// nanoseconds; nothing where `chrono` cannot hold the instant. What it
/// holds lies in its range, and adding to an instant that is no leap second
/// gives none, so the nanoseconds stay under a second.
#[verifier::external_body]
fn after_epoch(span: chrono::TimeDelta) -> (at: Option<(i64, u32)>)
    ensures
        at matches Some(at) ==> is_instant(at.0 as int, at.1 as int),
{
    chrono::DateTime::UNIX_EPOCH.checked_add_signed(span).map(
        |at| (at.timestamp(), at.timestamp_subsec_nanos()),
    )
}

/// Writes an instant with `DateTime::to_rfc3339_opts`, seconds' digits as
/// needed and `Z` for the offset. The text is a function of the instant, and
/// `chrono` reads from it the instant that it was written for.
#[verifier::external_body]
fn write_rfc3339(secs: i64, nanos: u32) -> (text: String)
    requires
        is_instant(secs as int, nanos as int),
    ensures
        text@ == rfc3339_text(secs as int, nanos as int),
        rfc3339_instant(text@) == Some((secs as int, nanos as int)),
{
    let at = chrono::DateTime::from_timestamp(secs, nanos).unwrap();
    at.to_rfc3339_opts(chrono::SecondsFormat::AutoSi, true)
}

/// Parses a text as a `DateTime<Utc>` with `str::parse`, which accepts RFC 3339
/// and converts any offset to UTC, and gives the instant as seconds and
/// nanoseconds.
#[verifier::external_body]
fn parse_rfc3339(text: &str) -> (at: Option<(i64, u32)>)
    ensures
        match at {
            Some(at) => rfc3339_instant(text@) == Some((at.0 as int, at.1 as int)),
            None => rfc3339_instant(text@) is None,
        },
{
    match text.parse::<chrono::DateTime<chrono::Utc>>() {
        Ok(at) => Some((at.timestamp(), at.timestamp_subsec_nanos())),
        Err(_) => None,
    }
}

/// Writes an instant with `DateTime::format` under `%Y-%m-%d %H:%M`.
#[verifier::external_body]
fn write_minute(secs: i64, nanos: u32) -> (text: String)
    requires
        is_instant(secs as int, nanos as int),
    ensures
        text@ == minute_text(secs as int, nanos as int),
{
    let at = chrono::DateTime::from_timestamp(secs, nanos).unwrap();
    at.format("%Y-%m-%d %H:%M").to_string()
}

/// An instant in UTC.
#[derive(Debug, Clone, Copy, PartialEq, Eq, Structural)]
pub struct Timestamp {
    secs: i64,
    nanos: u32,
}

impl View for Timestamp {
    type V = (int, int);

    /// Seconds since the epoch and nanoseconds into the second.
    closed spec fn view(&self) -> (int, int) {
        (self.secs as int, self.nanos as int)
    }
}

impl Timestamp {
    #[verifier::type_invariant]
    spec fn in_range(self) -> bool {
        is_instant(self.secs as int, self.nanos as int)
    }

    /// The instant `secs` seconds and `nanos` nanoseconds after the epoch, if
    /// there is one.
    pub fn new(secs: i64, nanos: u32) -> (out: Option<Timestamp>)
        ensures
            out is Some <==> is_instant(secs as int, nanos as int),
            out matches Some(at) ==> at@ == (secs as int, nanos as int),
    {
        if MIN_SECONDS <= secs && secs <= MAX_SECONDS && nanos < 1_000_000_000 {
            Some(Timestamp { secs, nanos })
        } else {
            None
        }
    }

    /// The current instant, as the system clock reads. A clock that reads
    /// earlier than 1970, or later than `chrono` can hold, counts as the
    /// start of 1970.
    pub fn now() -> (out: Timestamp)
        ensures
            is_instant(out@.0, out@.1),
    {
        let read = system_now();
        let at = match since_epoch(&read) {
            Ok(span) => match span_of(span) {
                Ok(span) => after_epoch(span),
                Err(_) => None,
            },
            Err(_) => None,
        };
        match at {
            Some(at) => Timestamp { secs: at.0, nanos: at.1 },
            None => Timestamp { secs: 0, nanos: 0 },
        }
    }

    /// Whole seconds since the epoch.
    pub fn seconds(&self) -> (out: i64)
        ensures
            out == self@.0,
            is_instant(self@.0, self@.1),
    {
        proof {
            use_type_invariant(self);
        }
        self.secs
    }

    /// Nanoseconds into the second.
    pub fn subsec_nanos(&self) -> (out: u32)
        ensures
            out == self@.1,
            is_instant(self@.0, self@.1),
    {
        proof {
            use_type_invariant(self);
        }
        self.nanos
    }

    /// The instant as RFC 3339 text, which `parse` reads back as this instant.
    pub fn to_rfc3339(&self) -> (text: String)
        ensures
            text@ == rfc3339_text(self@.0, self@.1),
            read_instant(text@) == Some(self@),
            is_instant(self@.0, self@.1),
    {
        proof {
            use_type_invariant(self);
        }
        write_rfc3339(self.secs, self.nanos)
    }

    /// The instant that an RFC 3339 text stands for.
    pub fn parse(text: &str) -> (out: Option<Timestamp>)
        ensures
            match out {
                Some(at) => read_instant(text@) == Some(at@),
                None => read_instant(text@) is None,
            },
    {
        match parse_rfc3339(text) {
            Some(at) => Timestamp::new(at.0, at.1),
            None => None,
        }
    }

    /// The instant to the minute, as a listing shows it.
    pub fn to_minute(&self) -> (text: String)
        ensures
            text@ == minute_text(self@.0, self@.1),
    {
        proof {
            use_type_invariant(self);
        }
        write_minute(self.secs, self.nanos)
    }
}

} // verus!
