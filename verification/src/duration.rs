//! A span of time, counted in whole seconds plus a sub-second remainder in
//! nanoseconds. Delay strategies produce these values and the retry drivers
//! add them up.

use vstd::prelude::*;

verus! {

/// The number of nanoseconds in one second; `nanos` stays below this bound.
pub const NANOS_PER_SEC: u32 = 1_000_000_000;

/// The number of nanoseconds in one millisecond.
pub const NANOS_PER_MILLI: u32 = 1_000_000;

/// The number of milliseconds in one second.
pub const MILLIS_PER_SEC: u64 = 1_000;

/// A non-negative span of time: `secs` whole seconds plus `nanos` nanoseconds.
#[derive(Clone, Copy, Debug, PartialEq, Eq, PartialOrd, Ord, Hash, Structural)]
pub struct Duration {
    /// The whole seconds of the span.
    pub secs: u64,
    /// The sub-second remainder, in nanoseconds; always below `NANOS_PER_SEC`.
    pub nanos: u32,
}

impl View for Duration {
    type V = int;

    /// The length of the span in nanoseconds.
    open spec fn view(&self) -> int {
        self.secs * (NANOS_PER_SEC as int) + self.nanos
    }
}

impl Duration {
    /// A duration is well formed when its sub-second part has been carried
    /// into the seconds.
    pub open spec fn wf(self) -> bool {
        self.nanos < NANOS_PER_SEC
    }

    /// The zero-length span.
    pub open spec fn spec_zero() -> Duration {
        Duration { secs: 0, nanos: 0 }
    }

    /// The longest representable span.
    pub open spec fn spec_max() -> Duration {
        Duration { secs: u64::MAX, nanos: (NANOS_PER_SEC - 1) as u32 }
    }

    /// The duration denoted by a count of milliseconds.
    pub open spec fn spec_from_millis(millis: u64) -> Duration {
        Duration {
            secs: (millis / MILLIS_PER_SEC) as u64,
            nanos: ((millis % MILLIS_PER_SEC) * NANOS_PER_MILLI as u64) as u32,
        }
    }

    /// Build a duration from a count of milliseconds.
    pub fn from_millis(millis: u64) -> (d: Duration)
        ensures
            d == Duration::spec_from_millis(millis),
            d.wf(),
    {
        Duration {
            secs: millis / MILLIS_PER_SEC,
            nanos: ((millis % MILLIS_PER_SEC) as u32) * NANOS_PER_MILLI,
        }
    }

    /// Build a duration from a count of whole seconds.
    pub fn from_secs(secs: u64) -> (d: Duration)
        ensures
            d == (Duration { secs, nanos: 0 }),
            d.wf(),
    {
        Duration { secs, nanos: 0 }
    }

    /// Build a duration from seconds and a sub-second remainder.
    pub fn new(secs: u64, nanos: u32) -> (d: Duration)
        requires
            nanos < NANOS_PER_SEC,
        ensures
            d == (Duration { secs, nanos }),
            d.wf(),
    {
        Duration { secs, nanos }
    }

    /// The whole seconds of the span.
    pub fn as_secs(self) -> (r: u64)
        ensures
            r == self.secs,
    {
        self.secs
    }

    /// The sub-second remainder of the span, in nanoseconds.
    pub fn subsec_nanos(self) -> (r: u32)
        ensures
            r == self.nanos,
    {
        self.nanos
    }

    /// The length of the span in whole milliseconds.
    pub open spec fn spec_as_millis(self) -> int {
        self.secs * (MILLIS_PER_SEC as int) + (self.nanos as int) / (NANOS_PER_MILLI as int)
    }

    /// The length of the span in whole milliseconds.
    pub fn as_millis(self) -> (r: u128)
        ensures
            r == self.spec_as_millis(),
    {
        proof {
            assert((self.secs as int) * (MILLIS_PER_SEC as int) <= (u64::MAX as int) * (
            MILLIS_PER_SEC as int)) by (nonlinear_arith)
                requires
                    self.secs <= u64::MAX,
            ;
        }
        (self.secs as u128) * (MILLIS_PER_SEC as u128)
            + (self.nanos / NANOS_PER_MILLI) as u128
    }

    /// The sum of two durations, saturating at the longest representable span
    /// instead of wrapping.
    pub open spec fn spec_saturating_add(self, other: Duration) -> Duration {
        let nanos_sum = self.nanos + other.nanos;
        let carry: int = if nanos_sum >= NANOS_PER_SEC { 1 } else { 0 };
        let nanos_kept: int = if nanos_sum >= NANOS_PER_SEC {
            nanos_sum - NANOS_PER_SEC
        } else {
            nanos_sum
        };
        if self.secs + other.secs + carry > u64::MAX {
            Duration::spec_max()
        } else {
            Duration { secs: (self.secs + other.secs + carry) as u64, nanos: nanos_kept as u32 }
        }
    }

    /// Add two durations, saturating at the longest representable span.
    pub fn saturating_add(self, other: Duration) -> (r: Duration)
        requires
            self.wf(),
            other.wf(),
        ensures
            r == self.spec_saturating_add(other),
            r.wf(),
    {
        let nanos_sum: u32 = self.nanos + other.nanos;
        let (carry, nanos_kept): (u64, u32) = if nanos_sum >= NANOS_PER_SEC {
            (1, nanos_sum - NANOS_PER_SEC)
        } else {
            (0, nanos_sum)
        };
        match self.secs.checked_add(other.secs) {
            Some(secs) => match secs.checked_add(carry) {
                Some(secs) => Duration { secs, nanos: nanos_kept },
                None => Duration { secs: u64::MAX, nanos: NANOS_PER_SEC - 1 },
            },
            None => Duration { secs: u64::MAX, nanos: NANOS_PER_SEC - 1 },
        }
    }
}

impl Default for Duration {
    /// The zero-length span.
    fn default() -> (d: Duration)
        ensures
            d == Duration::spec_zero(),
            d.wf(),
    {
        Duration { secs: 0, nanos: 0 }
    }
}

/// Saturating addition never loses length: the sum is the exact sum in
/// nanoseconds whenever that fits, and the maximum span otherwise.
pub proof fn lemma_saturating_add_view(a: Duration, b: Duration)
    requires
        a.wf(),
        b.wf(),
    ensures
        a.spec_saturating_add(b).wf(),
        a.spec_saturating_add(b)@ == if a@ + b@ <= Duration::spec_max()@ {
            a@ + b@
        } else {
            Duration::spec_max()@
        },
{
}

} // verus!
