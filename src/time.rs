//! Points on a monotonic clock and spans between them.
//!
//! Both are counted in whole nanoseconds. An [`Instant`] counts from an origin
//! chosen by whoever reads the clock; only differences between instants of one
//! clock carry meaning.

use vstd::prelude::*;

verus! {

/// A span of time, in nanoseconds.
#[derive(Clone, Copy, Debug, PartialEq, Eq, Structural, Hash, PartialOrd, Ord)]
pub struct Duration {
    pub nanos: u64,
}

/// A reading of a monotonic clock, in nanoseconds since the clock's origin.
#[derive(Clone, Copy, Debug, PartialEq, Eq, Structural, Hash, PartialOrd, Ord)]
pub struct Instant {
    pub nanos: u64,
}

impl Duration {
    /// The empty span.
    pub fn zero() -> (r: Duration)
        ensures
            r.nanos == 0,
    {
        Duration { nanos: 0 }
    }

    pub fn from_nanos(nanos: u64) -> (r: Duration)
        ensures
            r.nanos == nanos,
    {
        Duration { nanos }
    }

    pub fn as_nanos(&self) -> (r: u64)
        ensures
            r == self.nanos,
    {
        self.nanos
    }
}

impl Instant {
    pub fn from_nanos(nanos: u64) -> (r: Instant)
        ensures
            r.nanos == nanos,
    {
        Instant { nanos }
    }

    pub fn as_nanos(&self) -> (r: u64)
        ensures
            r == self.nanos,
    {
        self.nanos
    }

    /// The span from `earlier` to `self`; zero when `earlier` is the later of the two.
    pub open spec fn spec_duration_since(self, earlier: Instant) -> Duration {
        if self.nanos >= earlier.nanos {
            Duration { nanos: (self.nanos - earlier.nanos) as u64 }
        } else {
            Duration { nanos: 0 }
        }
    }

    /// The span from `earlier` to `self`.
    ///
    /// A clock reading taken out of order (an `earlier` that is in fact later)
    /// gives a zero span rather than a fault.
    pub fn saturating_duration_since(&self, earlier: Instant) -> (r: Duration)
        ensures
            r == self.spec_duration_since(earlier),
    {
        if self.nanos >= earlier.nanos {
            Duration { nanos: self.nanos - earlier.nanos }
        } else {
            Duration { nanos: 0 }
        }
    }
}

} // verus!
