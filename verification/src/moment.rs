//! Points in time, measured on the calendar that `chrono` keeps.

use crate::duration::{Duration, NANOS_PER_SEC};
use vstd::prelude::*;

verus! {

/// The Unix timestamp of the earliest second that `chrono` can hold: the
/// first second of the year -262143.
pub const MIN_TIMESTAMP: i64 = -8_334_601_228_800;

/// The Unix timestamp of the latest second that `chrono` can hold: the last
/// second of the year 262142.
pub const MAX_TIMESTAMP: i64 = 8_210_266_876_799;

/// Whether `secs` seconds since the Unix epoch and `nanos` nanoseconds past
/// that second name a point in time that a `Moment` holds.
pub open spec fn is_timestamp(secs: int, nanos: int) -> bool {
    MIN_TIMESTAMP <= secs <= MAX_TIMESTAMP && 0 <= nanos < NANOS_PER_SEC
}

/// The nanoseconds between the Unix epoch and the point `nanos` nanoseconds
/// past its second `secs`.
pub open spec fn instant(secs: int, nanos: int) -> int {
    secs * NANOS_PER_SEC + nanos
}

/// The earliest instant that a `Moment` holds.
pub open spec fn min_instant() -> int {
    instant(MIN_TIMESTAMP as int, 0)
}

/// The latest instant that a `Moment` holds.
pub open spec fn max_instant() -> int {
    instant(MAX_TIMESTAMP as int, NANOS_PER_SEC - 1)
}

/// The longest span between two moments, in nanoseconds.
pub open spec fn max_span() -> int {
    max_instant() - min_instant()
}

/// A point in time with nanosecond resolution.
///
/// It is held as a Unix timestamp: the seconds since 1970-01-01 00:00:00 UTC,
/// not counting leap seconds, and the nanoseconds past that second. A leap
/// second, which `chrono` writes as a nanosecond part of a second or more, is
/// no `Moment`.
#[derive(Clone, Copy, Debug, PartialEq, Eq, PartialOrd, Ord, Hash, Structural)]
pub struct Moment {
    secs: i64,
    nanos: u32,
}

/// Why a text gave no `Moment`.
#[derive(Clone, Copy, Debug, PartialEq, Eq, Structural)]
pub enum TimeError {
    /// The text is no RFC 3339 date and time.
    UnknownDateFormat,
    /// The text names a time that no `Moment` holds, such as a leap second.
    Unrepresentable,
}

impl View for Moment {
    type V = int;

    /// The nanoseconds since the Unix epoch.
    closed spec fn view(&self) -> int {
        instant(self.secs as int, self.nanos as int)
    }
}

/// The error that `chrono::DateTime::parse_from_rfc3339` gives for a text it
/// cannot read. Nothing is known of what it holds.
#[verifier::external_type_specification]
#[verifier::external_body]
pub struct ExParseError(chrono::ParseError);

/// The timestamp that `chrono` reads from an RFC 3339 text: the seconds and
/// the nanosecond part of the instant that the text names, or `None` where
/// `chrono` refuses the text.
pub uninterp spec fn rfc3339_timestamp(text: Seq<char>) -> Option<(i64, u32)>;

/// Reads the clock with `chrono::Local::now` and returns the Unix timestamp
/// of the instant it gave. Nothing is claimed of which instant that is, only
/// that `chrono` built it from whole seconds within its calendar and a
/// nanosecond part below one second.
#[verifier::external_body]
fn local_now() -> (stamp: (i64, u32))
    ensures
        is_timestamp(stamp.0 as int, stamp.1 as int),
{
    let now = chrono::Local::now();
    (now.timestamp(), now.timestamp_subsec_nanos())
}

/// Subtracts two instants with `chrono::DateTime::signed_duration_since` and
/// returns the whole seconds of the result and the nanoseconds beyond them,
/// as `num_seconds` and `subsec_nanos` give them. Both instants lie within
/// the calendar of `chrono` and neither is a leap second, so `chrono` holds
/// them and counts every minute between them as sixty seconds: the result is
/// the difference of the two timestamps, and its nanoseconds stay within one
/// second of zero.
#[verifier::external_body]
fn elapsed_since(later: (i64, u32), earlier: (i64, u32)) -> (parts: (i64, i32))
    requires
        is_timestamp(later.0 as int, later.1 as int),
        is_timestamp(earlier.0 as int, earlier.1 as int),
    ensures
        parts.0 * NANOS_PER_SEC + parts.1 == instant(later.0 as int, later.1 as int) - instant(
            earlier.0 as int,
            earlier.1 as int,
        ),
        -NANOS_PER_SEC < parts.1 < NANOS_PER_SEC,
{
    let later = chrono::DateTime::from_timestamp(later.0, later.1).unwrap();
    let earlier = chrono::DateTime::from_timestamp(earlier.0, earlier.1).unwrap();
    let elapsed = later.signed_duration_since(earlier);
    (elapsed.num_seconds(), elapsed.subsec_nanos())
}

/// Parses a text with `chrono::DateTime::parse_from_rfc3339` and returns the
/// Unix timestamp of the instant it read, or the error that `chrono` gave.
/// The result depends on the text alone.
#[verifier::external_body]
fn parse_rfc3339(text: &str) -> (parsed: Result<(i64, u32), chrono::ParseError>)
    ensures
        parsed is Ok <==> rfc3339_timestamp(text@) is Some,
        parsed matches Ok(stamp) ==> rfc3339_timestamp(text@) == Some(stamp),
{
    match chrono::DateTime::parse_from_rfc3339(text) {
        Ok(read) => Ok((read.timestamp(), read.timestamp_subsec_nanos())),
        Err(error) => Err(error),
    }
}

impl Moment {
    /// The timestamp lies within the calendar and the nanosecond part below
    /// one second.
    #[verifier::type_invariant]
    pub closed spec fn wf(self) -> bool {
        is_timestamp(self.secs as int, self.nanos as int)
    }

    /// The moment `nanos` nanoseconds past the second `secs` of Unix time.
    pub closed spec fn at(secs: int, nanos: int) -> Moment {
        Moment { secs: secs as i64, nanos: nanos as u32 }
    }

    /// A timestamp names one moment, at the instant that it counts.
    pub proof fn lemma_at(secs: int, nanos: int)
        requires
            is_timestamp(secs, nanos),
        ensures
            Self::at(secs, nanos).wf(),
            Self::at(secs, nanos)@ == instant(secs, nanos),
    {
    }

    /// A moment lies between the earliest and the latest instant.
    pub proof fn lemma_range(self)
        requires
            self.wf(),
        ensures
            min_instant() <= self@ <= max_instant(),
    {
    }

    /// Two moments at the same instant are the same value.
    pub proof fn lemma_same_instant(self, other: Moment)
        requires
            self.wf(),
            other.wf(),
            self@ == other@,
        ensures
            self == other,
    {
    }

    /// The moment that `chrono` reads from an RFC 3339 text, or why the
    /// text gives none.
    pub open spec fn parsed(text: Seq<char>) -> Result<Moment, TimeError> {
        match rfc3339_timestamp(text) {
            None => Err(TimeError::UnknownDateFormat),
            Some(stamp) => if is_timestamp(stamp.0 as int, stamp.1 as int) {
                Ok(Self::at(stamp.0 as int, stamp.1 as int))
            } else {
                Err(TimeError::Unrepresentable)
            },
        }
    }

    /// The moment `nanos` nanoseconds past the second `secs` of Unix time, or
    /// `None` where that is not a point in time that a `Moment` holds.
    pub fn from_timestamp(secs: i64, nanos: u32) -> (moment: Option<Moment>)
        ensures
            moment == if is_timestamp(secs as int, nanos as int) {
                Some(Self::at(secs as int, nanos as int))
            } else {
                None
            },
            moment matches Some(m) ==> m@ == instant(secs as int, nanos as int),
    {
        if MIN_TIMESTAMP <= secs && secs <= MAX_TIMESTAMP && nanos < NANOS_PER_SEC {
            Some(Moment { secs, nanos })
        } else {
            None
        }
    }

    /// The seconds since the Unix epoch, rounded towards negative infinity.
    pub fn timestamp(&self) -> (secs: i64)
        ensures
            secs == self@ / (NANOS_PER_SEC as int),
    {
        proof {
            use_type_invariant(self);
        }
        self.secs
    }

    /// The nanoseconds past the second that `timestamp` returns.
    pub fn timestamp_subsec_nanos(&self) -> (nanos: u32)
        ensures
            nanos == self@ % (NANOS_PER_SEC as int),
    {
        proof {
            use_type_invariant(self);
        }
        self.nanos
    }

    /// The present moment, as the system's clock gives it.
    pub(crate) fn now() -> (moment: Moment)
        ensures
            moment.wf(),
    {
        let stamp = local_now();
        Moment { secs: stamp.0, nanos: stamp.1 }
    }

    /// The time from `earlier` to this moment, negative where this moment is
    /// the earlier one.
    pub fn signed_duration_since(self, earlier: Moment) -> (elapsed: Duration)
        ensures
            elapsed == Duration::of(self@ - earlier@),
            elapsed@ == self@ - earlier@,
            -max_span() <= elapsed@ <= max_span(),
    {
        proof {
            use_type_invariant(self);
            use_type_invariant(earlier);
        }
        let parts = elapsed_since((self.secs, self.nanos), (earlier.secs, earlier.nanos));
        Duration::new(parts.0, parts.1)
    }

    /// The moment that an RFC 3339 date and time names.
    pub fn parse_from_rfc3339(text: &str) -> (parsed: Result<Moment, TimeError>)
        ensures
            parsed == Self::parsed(text@),
    {
        match parse_rfc3339(text) {
            Ok(stamp) => match Moment::from_timestamp(stamp.0, stamp.1) {
                Some(moment) => Ok(moment),
                None => Err(TimeError::Unrepresentable),
            },
            Err(_) => Err(TimeError::UnknownDateFormat),
        }
    }
}

} // verus!
