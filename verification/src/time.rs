//! Lengths of time and points in time.

use vstd::prelude::*;

verus! {

/// The number of nanoseconds in a second.
pub const NANOS_PER_SECOND: u128 = 1_000_000_000;

/// The number of nanoseconds in the longest duration: the largest number of seconds that fits
/// in 64 bits, and a fraction just short of another second.
pub const MAX_DURATION_NANOS: u128 = 18_446_744_073_709_551_615_999_999_999;

/// A length of time.
#[derive(Clone, Copy, Debug, PartialEq, Eq, Structural)]
pub struct Duration {
    nanos: u128,
}

impl Duration {
    /// No duration is longer than the longest one.
    #[verifier::type_invariant]
    spec fn wf(self) -> bool {
        self.nanos <= MAX_DURATION_NANOS
    }

    /// The number of nanoseconds.
    pub closed spec fn spec_nanos(self) -> nat {
        self.nanos as nat
    }

    /// The duration of the given number of nanoseconds.
    pub closed spec fn spec_from_nanos(nanos: nat) -> Duration {
        Duration { nanos: nanos as u128 }
    }

    /// The duration of the given number of nanoseconds, if it is not above the longest duration.
    pub fn from_nanos(nanos: u128) -> (duration: Option<Duration>)
        ensures
            match duration {
                Some(d) => {
                    &&& d.spec_nanos() == nanos
                    &&& d == Duration::spec_from_nanos(nanos as nat)
                    &&& nanos <= MAX_DURATION_NANOS
                },
                None => nanos > MAX_DURATION_NANOS,
            },
    {
        if nanos <= MAX_DURATION_NANOS {
            Some(Duration { nanos })
        } else {
            None
        }
    }

    /// The duration of the given number of seconds.
    pub fn from_secs(seconds: u64) -> (duration: Duration)
        ensures
            duration.spec_nanos() == seconds * NANOS_PER_SECOND,
            duration == Duration::spec_from_nanos((seconds * NANOS_PER_SECOND) as nat),
    {
        Duration { nanos: seconds as u128 * NANOS_PER_SECOND }
    }

    /// The duration of the given number of milliseconds.
    pub fn from_millis(millis: u64) -> (duration: Duration)
        ensures
            duration.spec_nanos() == millis * 1_000_000,
            duration == Duration::spec_from_nanos((millis * 1_000_000) as nat),
    {
        Duration { nanos: millis as u128 * 1_000_000 }
    }

    /// A duration is that of its number of nanoseconds.
    pub proof fn lemma_spec_from_nanos_of(self)
        ensures
            Duration::spec_from_nanos(self.spec_nanos()) == self,
    {
    }

    /// The number of nanoseconds.
    pub fn as_nanos(&self) -> (nanos: u128)
        ensures
            nanos == self.spec_nanos(),
            nanos <= MAX_DURATION_NANOS,
    {
        proof {
            use_type_invariant(self);
        }
        self.nanos
    }

    /// The duration multiplied by a number, or the longest duration if that is exceeded.
    pub fn saturating_mul(self, factor: u32) -> (duration: Duration)
        ensures
            duration.spec_nanos() == if self.spec_nanos() * factor <= MAX_DURATION_NANOS {
                self.spec_nanos() * factor
            } else {
                MAX_DURATION_NANOS as int
            },
    {
        proof {
            use_type_invariant(&self);
            assert(self.nanos * factor <= MAX_DURATION_NANOS * u32::MAX) by (nonlinear_arith)
                requires
                    0 <= self.nanos <= MAX_DURATION_NANOS,
                    0 <= factor <= u32::MAX,
            ;
        }
        let product: u128 = self.nanos * factor as u128;
        if product <= MAX_DURATION_NANOS {
            Duration { nanos: product }
        } else {
            Duration { nanos: MAX_DURATION_NANOS }
        }
    }

    /// Twice the duration, unless that exceeds the longest duration.
    pub fn checked_double(self) -> (duration: Option<Duration>)
        ensures
            match duration {
                Some(d) => d.spec_nanos() == self.spec_nanos() * 2,
                None => self.spec_nanos() * 2 > MAX_DURATION_NANOS,
            },
    {
        proof {
            use_type_invariant(&self);
        }
        Duration::from_nanos(self.nanos * 2)
    }

    /// Whether this duration is longer than another.
    pub fn exceeds(&self, other: &Duration) -> (b: bool)
        ensures
            b == (self.spec_nanos() > other.spec_nanos()),
    {
        self.nanos > other.nanos
    }
}

/// A duration of a number of nanoseconds has that number of nanoseconds.
pub broadcast proof fn lemma_spec_from_nanos(nanos: nat)
    requires
        nanos <= MAX_DURATION_NANOS,
    ensures
        (#[trigger] Duration::spec_from_nanos(nanos)).spec_nanos() == nanos,
{
}

/// A point in time on this machine's clock, counted in nanoseconds from a fixed origin.
#[derive(Clone, Copy, Debug, PartialEq, Eq, Structural)]
pub struct Instant {
    /// The number of nanoseconds since the origin of the clock.
    pub nanos: u128,
}

impl Instant {
    /// Whether the point in time the given number of nanoseconds later can be represented.
    pub open spec fn can_add(self, nanos: nat) -> bool {
        self.nanos + nanos <= u128::MAX
    }

    /// Whether it is early enough for any duration to be added.
    pub open spec fn is_early(self) -> bool {
        self.can_add(MAX_DURATION_NANOS as nat)
    }

    /// The point in time a duration later.
    pub fn after(self, duration: Duration) -> (later: Instant)
        requires
            self.is_early() || self.can_add(duration.spec_nanos()),
        ensures
            later.nanos == self.nanos + duration.spec_nanos(),
    {
        proof {
            use_type_invariant(&duration);
        }
        Instant { nanos: self.nanos + duration.as_nanos() }
    }

    /// The point in time a duration earlier.
    pub fn before(self, duration: Duration) -> (earlier: Instant)
        requires
            duration.spec_nanos() <= self.nanos,
        ensures
            earlier.nanos == self.nanos - duration.spec_nanos(),
    {
        Instant { nanos: self.nanos - duration.as_nanos() }
    }

    /// The number of nanoseconds since an earlier point in time, or zero if it is not earlier.
    pub open spec fn nanos_since(self, earlier: Instant) -> nat {
        if self.nanos >= earlier.nanos {
            (self.nanos - earlier.nanos) as nat
        } else {
            0
        }
    }

    /// The number of nanoseconds since an earlier point in time, or zero if it is not earlier.
    pub fn since(self, earlier: Instant) -> (nanos: u128)
        ensures
            nanos == self.nanos_since(earlier),
    {
        if self.nanos >= earlier.nanos {
            self.nanos - earlier.nanos
        } else {
            0
        }
    }
}

/// The time since an earlier point is what leads from there to now. No time has passed since a later
/// one.
pub proof fn law_time_passes(earlier: Instant, later: Instant)
    requires
        earlier.nanos <= later.nanos,
    ensures
        earlier.nanos + later.nanos_since(earlier) == later.nanos,
        earlier.nanos_since(later) == 0,
{
}

} // verus!
