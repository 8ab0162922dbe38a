//! Signed spans of time with nanosecond resolution.

use vstd::prelude::*;

verus! {

/// Nanoseconds in one second.
pub const NANOS_PER_SEC: u32 = 1_000_000_000;

/// Seconds in one minute.
pub const SECS_PER_MINUTE: i64 = 60;

/// Seconds in one hour.
pub const SECS_PER_HOUR: i64 = 3600;

/// A signed span of time.
///
/// It is held as a whole number of seconds, rounded towards negative
/// infinity, and the nanoseconds past that second. The seconds are kept in
/// 128 bits, so that a sum over any number of differences between two
/// moments stays in range.
#[derive(Clone, Copy, Debug, PartialEq, Eq, Hash, Structural)]
pub struct Duration {
    secs: i128,
    nanos: u32,
}

impl View for Duration {
    type V = int;

    /// The span in nanoseconds.
    closed spec fn view(&self) -> int {
        self.secs * NANOS_PER_SEC + self.nanos
    }
}

impl Duration {
    /// The nanosecond part stays below one second, so that two durations of
    /// the same length are the same value.
    #[verifier::type_invariant]
    pub closed spec fn wf(self) -> bool {
        self.nanos < NANOS_PER_SEC
    }

    /// Whether a span of `n` nanoseconds fits in a `Duration`.
    pub open spec fn representable(n: int) -> bool {
        i128::MIN * NANOS_PER_SEC <= n < (i128::MAX + 1) * NANOS_PER_SEC
    }

    /// The duration that spans `n` nanoseconds.
    pub closed spec fn of(n: int) -> Duration {
        Duration {
            secs: (n / (NANOS_PER_SEC as int)) as i128,
            nanos: (n % (NANOS_PER_SEC as int)) as u32,
        }
    }

    /// The duration of a span that fits has that length.
    pub proof fn lemma_of_is_exact(n: int)
        requires
            Self::representable(n),
        ensures
            Self::of(n).wf(),
            Self::of(n)@ == n,
    {
    }

    /// A duration is the only one of its length.
    pub proof fn lemma_is_of_its_view(self)
        requires
            self.wf(),
        ensures
            Self::representable(self@),
            Self::of(self@) == self,
    {
    }

    /// The empty span.
    pub fn zero() -> (d: Duration)
        ensures
            d == Self::of(0),
            d@ == 0,
    {
        Duration { secs: 0, nanos: 0 }
    }

    /// A span of `secs` seconds and `nanos` nanoseconds, each of which may be
    /// negative.
    pub fn new(secs: i64, nanos: i32) -> (d: Duration)
        ensures
            d == Self::of(secs * NANOS_PER_SEC + nanos),
            d@ == secs * NANOS_PER_SEC + nanos,
    {
        let billion: i64 = 1_000_000_000;
        let secs: i128 = secs as i128;
        let nanos: i64 = nanos as i64;
        // An `i32` holds between three seconds less and two seconds more
        // than a nanosecond part can carry.
        if nanos >= 2 * billion {
            Duration { secs: secs + 2, nanos: (nanos - 2 * billion) as u32 }
        } else if nanos >= billion {
            Duration { secs: secs + 1, nanos: (nanos - billion) as u32 }
        } else if nanos >= 0 {
            Duration { secs, nanos: nanos as u32 }
        } else if nanos >= -billion {
            Duration { secs: secs - 1, nanos: (nanos + billion) as u32 }
        } else if nanos >= -2 * billion {
            Duration { secs: secs - 2, nanos: (nanos + 2 * billion) as u32 }
        } else {
            Duration { secs: secs - 3, nanos: (nanos + 3 * billion) as u32 }
        }
    }

    /// A span of `seconds` seconds.
    pub fn seconds(seconds: i64) -> (d: Duration)
        ensures
            d == Self::of(seconds * NANOS_PER_SEC),
            d@ == seconds * NANOS_PER_SEC,
    {
        Duration { secs: seconds as i128, nanos: 0 }
    }

    /// A span of `minutes` minutes.
    pub fn minutes(minutes: i64) -> (d: Duration)
        ensures
            d == Self::of(minutes * SECS_PER_MINUTE * NANOS_PER_SEC),
            d@ == minutes * SECS_PER_MINUTE * NANOS_PER_SEC,
    {
        let minutes: i128 = minutes as i128;
        Duration { secs: minutes * 60, nanos: 0 }
    }

    /// A span of `hours` hours.
    pub fn hours(hours: i64) -> (d: Duration)
        ensures
            d == Self::of(hours * SECS_PER_HOUR * NANOS_PER_SEC),
            d@ == hours * SECS_PER_HOUR * NANOS_PER_SEC,
    {
        let hours: i128 = hours as i128;
        Duration { secs: hours * 3600, nanos: 0 }
    }

    /// The whole seconds of the span, rounded towards negative infinity.
    pub fn whole_seconds(&self) -> (secs: i128)
        ensures
            secs == self@ / (NANOS_PER_SEC as int),
    {
        proof {
            use_type_invariant(self);
        }
        self.secs
    }

    /// The nanoseconds by which the span exceeds `whole_seconds`.
    pub fn subsec_nanos(&self) -> (nanos: u32)
        ensures
            nanos == self@ % (NANOS_PER_SEC as int),
    {
        proof {
            use_type_invariant(self);
        }
        self.nanos
    }

    /// The sum of two spans.
    pub fn add(self, rhs: Duration) -> (sum: Duration)
        requires
            Self::representable(self@ + rhs@),
        ensures
            sum == Self::of(self@ + rhs@),
            sum@ == self@ + rhs@,
    {
        proof {
            use_type_invariant(self);
            use_type_invariant(rhs);
        }
        let nanos: u32 = self.nanos + rhs.nanos;
        if nanos < NANOS_PER_SEC {
            Duration { secs: self.secs + rhs.secs, nanos }
        } else if self.secs < 0 {
            Duration { secs: (self.secs + 1) + rhs.secs, nanos: nanos - NANOS_PER_SEC }
        } else {
            Duration { secs: self.secs + rhs.secs + 1, nanos: nanos - NANOS_PER_SEC }
        }
    }

    /// The sum of two spans, or `None` where it does not fit.
    pub fn checked_add(self, rhs: Duration) -> (sum: Option<Duration>)
        ensures
            sum == if Self::representable(self@ + rhs@) {
                Some(Self::of(self@ + rhs@))
            } else {
                None
            },
            sum matches Some(d) ==> d@ == self@ + rhs@,
    {
        proof {
            use_type_invariant(self);
            use_type_invariant(rhs);
        }
        let carries: bool = self.nanos + rhs.nanos >= NANOS_PER_SEC;
        // The carry goes to the left operand where that one is negative,
        // and to the sum where it is not: neither step can leave the range
        // unless the whole sum does.
        let left: i128 = if carries && self.secs < 0 {
            self.secs + 1
        } else {
            self.secs
        };
        let pending: i128 = if carries && self.secs >= 0 {
            1
        } else {
            0
        };
        let fits: bool = match left.checked_add(rhs.secs) {
            Some(secs) => secs.checked_add(pending).is_some(),
            None => false,
        };
        if fits {
            Some(self.add(rhs))
        } else {
            None
        }
    }
}

} // verus!
