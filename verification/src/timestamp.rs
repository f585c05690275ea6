//! Points in time, the whole seconds that lie between two of them, and
//! their form as text in a save file.

use vstd::prelude::*;

verus! {

/// The earliest second a timestamp can hold, counted from the Unix epoch:
/// the first second of the year -262143.
pub const MIN_SECONDS: i64 = -8_334_601_228_800;

/// The latest second a timestamp can hold, counted from the Unix epoch:
/// the last second of the year 262142.
pub const MAX_SECONDS: i64 = 8_210_266_876_799;

/// The nanoseconds in one second.
pub const NANOS_PER_SECOND: u32 = 1_000_000_000;

/// A point in time as a mathematical value: whole seconds since the Unix
/// epoch, leap seconds not counted, and the nanoseconds into that second.
pub struct Instant {
    pub seconds: int,
    pub nanos: int,
}

impl Instant {
    /// Whether a `Timestamp` can hold this instant.
    pub open spec fn representable(self) -> bool {
        &&& MIN_SECONDS <= self.seconds <= MAX_SECONDS
        &&& 0 <= self.nanos < NANOS_PER_SECOND
    }

    /// The nanoseconds from the Unix epoch to this instant.
    pub open spec fn total_nanos(self) -> int {
        self.seconds * NANOS_PER_SECOND + self.nanos
    }
}

/// The whole seconds from `from` to `to`: the exact difference with its
/// fraction of a second dropped, so rounded toward zero. Negative where `to`
/// lies before `from`.
pub open spec fn whole_seconds_between(from: Instant, to: Instant) -> int {
    let nanos = to.total_nanos() - from.total_nanos();
    if nanos >= 0 {
        nanos / (NANOS_PER_SECOND as int)
    } else {
        -((-nanos) / (NANOS_PER_SECOND as int))
    }
}

/// Reads the system clock with `chrono::Local::now` and hands out the
/// reading as `chrono::DateTime::timestamp` and
/// `chrono::DateTime::timestamp_subsec_nanos` give it. What is claimed: the
/// seconds lie in the range that a `chrono::DateTime` can hold, and the
/// nanoseconds are less than a second, as the clock never reports a leap
/// second. `chrono` panics where the clock stands before the Unix epoch or
/// the time zone data of the machine is unusable.
#[verifier::external_body]
fn read_clock() -> (reading: (i64, u32))
    ensures
        MIN_SECONDS <= reading.0 <= MAX_SECONDS,
        reading.1 < NANOS_PER_SECOND,
{
    let now = chrono::Local::now();
    (now.timestamp(), now.timestamp_subsec_nanos())
}

/// The whole seconds between two instants as `chrono` computes them:
/// `chrono::DateTime::from_timestamp` for each instant, then
/// `chrono::DateTime::signed_duration_since` and
/// `chrono::TimeDelta::num_seconds`. What is claimed: on instants that a
/// `chrono::DateTime` can hold the conversion succeeds, the difference is
/// exact, and its fraction is dropped toward zero.
#[verifier::external_body]
fn chrono_whole_seconds(from_seconds: i64, from_nanos: u32, to_seconds: i64, to_nanos: u32) -> (elapsed: i64)
    requires
        (Instant { seconds: from_seconds as int, nanos: from_nanos as int }).representable(),
        (Instant { seconds: to_seconds as int, nanos: to_nanos as int }).representable(),
    ensures
        elapsed == whole_seconds_between(
            (Instant { seconds: from_seconds as int, nanos: from_nanos as int }),
            (Instant { seconds: to_seconds as int, nanos: to_nanos as int }),
        ),
{
    let from = chrono::DateTime::from_timestamp(from_seconds, from_nanos).unwrap();
    let to = chrono::DateTime::from_timestamp(to_seconds, to_nanos).unwrap();
    to.signed_duration_since(from).num_seconds()
}

/// The time that an RFC 3339 text denotes, as
/// `chrono::DateTime::parse_from_rfc3339` reads it: the seconds since the
/// Unix epoch and the nanoseconds into that second, or `None` for a text
/// that it refuses.
pub uninterp spec fn rfc3339_reading(text: Seq<char>) -> Option<(int, int)>;

/// `chrono::ParseError`: why `chrono` refuses a text. It is carried along
/// and nothing is claimed of it.
#[verifier::external_type_specification]
#[verifier::external_body]
pub struct ExParseError(chrono::ParseError);

/// Reads an RFC 3339 text with `chrono::DateTime::parse_from_rfc3339` and
/// hands out what it denotes as `chrono::DateTime::timestamp` and
/// `chrono::DateTime::timestamp_subsec_nanos` give it. What is claimed: the
/// outcome depends on the text alone.
#[verifier::external_body]
fn read_rfc3339(text: &str) -> (reading: Result<(i64, u32), chrono::ParseError>)
    ensures
        match reading {
            Ok((seconds, nanos)) => rfc3339_reading(text@) == Some((seconds as int, nanos as int)),
            Err(_) => rfc3339_reading(text@) is None,
        },
{
    match chrono::DateTime::parse_from_rfc3339(text) {
        Ok(time) => Ok((time.timestamp(), time.timestamp_subsec_nanos())),
        Err(error) => Err(error),
    }
}

/// Writes an instant as RFC 3339 text in the local time of this machine:
/// `chrono::DateTime::from_timestamp`, then `chrono::DateTime::with_timezone`
/// to `chrono::Local` and `chrono::DateTime::to_rfc3339`. The text depends on
/// the time zone of the machine, so nothing is claimed of it. `chrono`
/// panics where the time zone data of the machine is unusable.
#[verifier::external_body]
fn local_rfc3339(seconds: i64, nanos: u32) -> (text: String)
    requires
        (Instant { seconds: seconds as int, nanos: nanos as int }).representable(),
{
    let time = chrono::DateTime::from_timestamp(seconds, nanos).unwrap();
    time.with_timezone(&chrono::Local).to_rfc3339()
}

/// Why a text is not a timestamp.
#[derive(Debug, PartialEq, Eq)]
pub enum TimestampError {
    /// The text is not RFC 3339. The cause is as the reader of the text
    /// reports it.
    Malformed(chrono::ParseError),
    /// The text denotes a time that no timestamp holds: a leap second.
    Unrepresentable,
}

/// The instant that a text denotes, where it denotes one that a timestamp
/// can hold.
pub open spec fn instant_of_text(text: Seq<char>) -> Option<Instant> {
    match rfc3339_reading(text) {
        Some((seconds, nanos)) => {
            let instant = Instant { seconds, nanos };
            if instant.representable() {
                Some(instant)
            } else {
                None
            }
        },
        None => None,
    }
}

/// A point in time, to the nanosecond.
#[derive(Clone, Copy, PartialEq, Eq, Structural, Debug)]
pub struct Timestamp {
    seconds: i64,
    nanos: u32,
}

impl View for Timestamp {
    type V = Instant;

    closed spec fn view(&self) -> Instant {
        Instant { seconds: self.seconds as int, nanos: self.nanos as int }
    }
}

impl Timestamp {
    /// Every timestamp is in range.
    #[verifier::type_invariant]
    pub open spec fn in_range(&self) -> bool {
        self@.representable()
    }

    /// The timestamp of the given second since the Unix epoch and nanosecond
    /// within it, where one exists.
    pub fn new(seconds: i64, nanos: u32) -> (timestamp: Option<Timestamp>)
        ensures
            timestamp is Some <==> (Instant { seconds: seconds as int, nanos: nanos as int }).representable(),
            timestamp matches Some(t) ==> t@ == (Instant { seconds: seconds as int, nanos: nanos as int }),
    {
        if MIN_SECONDS <= seconds && seconds <= MAX_SECONDS && nanos < NANOS_PER_SECOND {
            Some(Timestamp { seconds, nanos })
        } else {
            None
        }
    }

    /// The present moment by the system clock.
    pub fn now() -> (timestamp: Timestamp)
        ensures
            timestamp@.representable(),
    {
        let (seconds, nanos) = read_clock();
        Timestamp { seconds, nanos }
    }

    /// The whole seconds since the Unix epoch.
    pub fn seconds(&self) -> (seconds: i64)
        ensures
            seconds == self@.seconds,
            MIN_SECONDS <= seconds <= MAX_SECONDS,
    {
        proof {
            use_type_invariant(self);
        }
        self.seconds
    }

    /// The nanoseconds into the second.
    pub fn nanos(&self) -> (nanos: u32)
        ensures
            nanos == self@.nanos,
            nanos < NANOS_PER_SECOND,
    {
        proof {
            use_type_invariant(self);
        }
        self.nanos
    }

    /// The whole seconds from this timestamp to `later`, negative where
    /// `later` is the earlier of the two.
    pub fn seconds_until(&self, later: &Timestamp) -> (elapsed: i64)
        ensures
            elapsed == whole_seconds_between(self@, later@),
    {
        proof {
            use_type_invariant(self);
            use_type_invariant(later);
        }
        chrono_whole_seconds(self.seconds, self.nanos, later.seconds, later.nanos)
    }

    /// `text`, if it denotes this very timestamp.
    pub fn confirm_text(&self, text: String) -> (confirmed: Option<String>)
        ensures
            confirmed is Some <==> instant_of_text(text@) == Some(self@),
            confirmed matches Some(same) ==> same@ == text@,
    {
        proof {
            use_type_invariant(self);
        }
        match read_rfc3339(text.as_str()) {
            Ok((seconds, nanos)) => {
                if seconds == self.seconds && nanos == self.nanos {
                    Some(text)
                } else {
                    None
                }
            },
            Err(_) => None,
        }
    }

    /// The timestamp as RFC 3339 text in the local time of this machine,
    /// for a save file. Any text handed out denotes this very timestamp:
    /// one that would not read back is withheld.
    pub fn to_rfc3339(&self) -> (text: Option<String>)
        ensures
            text matches Some(written) ==> instant_of_text(written@) == Some(self@),
    {
        proof {
            use_type_invariant(self);
        }
        self.confirm_text(local_rfc3339(self.seconds, self.nanos))
    }

    /// The timestamp that an RFC 3339 text denotes, whatever offset from UTC
    /// the text is written with.
    pub fn parse_from_rfc3339(text: &str) -> (parsed: Result<Timestamp, TimestampError>)
        ensures
            match parsed {
                Ok(timestamp) => instant_of_text(text@) == Some(timestamp@),
                Err(TimestampError::Malformed(_)) => rfc3339_reading(text@) is None,
                Err(TimestampError::Unrepresentable) => rfc3339_reading(text@) is Some
                    && instant_of_text(text@) is None,
            },
    {
        match read_rfc3339(text) {
            Ok((seconds, nanos)) => match Timestamp::new(seconds, nanos) {
                Some(timestamp) => Ok(timestamp),
                None => Err(TimestampError::Unrepresentable),
            },
            Err(cause) => Err(TimestampError::Malformed(cause)),
        }
    }
}

} // verus!
