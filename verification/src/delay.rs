//! Delay strategies: restartable producers of wait durations for the retry
//! drivers, together with a combinator that truncates a strategy to a fixed
//! number of delays.

use vstd::prelude::*;

use crate::duration::Duration;

pub use crate::random::jitter;
pub use crate::random::InvalidRange;
pub use crate::random::Jittered;
pub use crate::random::Range;

verus! {

/// A producer of wait durations. One duration is handed out per call, until
/// the strategy is exhausted; most strategies never are.
///
/// `yields` is the strategy's model: it relates a state to the duration it
/// produces and the state it leaves behind. Deterministic strategies pin both
/// down exactly; randomized ones only bound the produced duration.
pub trait DelayStrategy: Sized {
    /// Which states of the strategy are meaningful.
    spec fn wf(self) -> bool;

    /// The relation between a state, the duration produced by the next call
    /// (`None` when the strategy is exhausted), and the state left behind.
    spec fn yields(self, produced: Option<Duration>, after: Self) -> bool;

    /// Produce the next wait duration, or `None` when the strategy is
    /// exhausted.
    fn next_delay(&mut self) -> (produced: Option<Duration>)
        requires
            old(self).wf(),
        ensures
            final(self).wf(),
            (*old(self)).yields(produced, *final(self)),
            produced matches Some(d) ==> d.wf(),
    ;

    /// Truncate the strategy to its first `limit` durations.
    fn take(self, limit: u64) -> (t: Take<Self>)
        ensures
            t == (Take { inner: self, remaining: limit }),
    {
        Take { inner: self, remaining: limit }
    }
}

/// Each retry increases the delay since the last by a constant factor.
#[derive(Debug)]
pub struct Exponential {
    /// The delay produced by the next call, in milliseconds.
    pub current: u64,
    /// The factor each delay is multiplied by to give the next one.
    pub factor: u64,
}

impl Exponential {
    /// The delay that follows `current`: the product with the factor, clamped
    /// to the largest representable count of milliseconds.
    pub open spec fn spec_advanced(self) -> u64 {
        if self.current * self.factor > u64::MAX {
            u64::MAX
        } else {
            (self.current * self.factor) as u64
        }
    }

    /// Create a new `Exponential` using the given millisecond duration as the
    /// initial delay and a growth factor of 2.
    pub fn from_millis(base: u64) -> (s: Exponential)
        ensures
            s == (Exponential { current: base, factor: 2u64 }),
    {
        Exponential { current: base, factor: 2 }
    }

    /// Create a new `Exponential` using the given millisecond duration as the
    /// initial delay and the given growth factor.
    pub fn from_millis_with_factor(base: u64, factor: u64) -> (s: Exponential)
        ensures
            s == (Exponential { current: base, factor }),
    {
        Exponential { current: base, factor }
    }

    /// Create a new `Exponential` using the given millisecond duration both as
    /// the initial delay and as the growth factor.
    pub fn from_millis_with_base_factor(base: u64) -> (s: Exponential)
        ensures
            s == (Exponential { current: base, factor: base }),
    {
        Exponential { current: base, factor: base }
    }
}

impl DelayStrategy for Exponential {
    open spec fn wf(self) -> bool {
        true
    }

    open spec fn yields(self, produced: Option<Duration>, after: Exponential) -> bool {
        &&& produced == Some(Duration::spec_from_millis(self.current))
        &&& after == (Exponential { current: self.spec_advanced(), factor: self.factor })
    }

    fn next_delay(&mut self) -> (produced: Option<Duration>) {
        let duration = Duration::from_millis(self.current);
        self.current = match self.current.checked_mul(self.factor) {
            Some(grown) => grown,
            None => u64::MAX,
        };
        Some(duration)
    }
}

/// The whole milliseconds of a duration, wrapped into `u64` the way a plain
/// integer cast wraps: the initial delay a backoff strategy takes from a
/// duration.
pub open spec fn spec_millis_wrapped(duration: Duration) -> u64 {
    (duration.spec_as_millis() % 0x1_0000_0000_0000_0000) as u64
}

/// Casting a count of milliseconds down to `u64` wraps it, as a plain integer
/// cast does.
proof fn lemma_cast_wraps(millis: u128)
    ensures
        millis as u64 == (millis % 0x1_0000_0000_0000_0000) as u64,
{
    assert(millis as u64 == (millis % 0x1_0000_0000_0000_0000) as u64) by (bit_vector);
}

impl From<Duration> for Exponential {
    /// Use the duration's whole milliseconds as the initial delay, with a
    /// growth factor of 2.
    fn from(duration: Duration) -> (s: Exponential)
        ensures
            s == (Exponential { current: spec_millis_wrapped(duration), factor: 2u64 }),
    {
        let millis = duration.as_millis();
        proof {
            lemma_cast_wraps(millis);
        }
        Exponential::from_millis(#[verifier::truncate] (millis as u64))
    }
}

impl vstd::std_specs::convert::FromSpecImpl<Duration> for Exponential {
    open spec fn obeys_from_spec() -> bool {
        true
    }

    open spec fn from_spec(duration: Duration) -> Exponential {
        Exponential { current: spec_millis_wrapped(duration), factor: 2u64 }
    }
}

/// Each retry uses a delay which is the sum of the two previous delays.
///
/// Depending on the problem at hand, a Fibonacci delay strategy might perform
/// better and lead to better throughput than the `Exponential` strategy.
#[derive(Debug)]
pub struct Fibonacci {
    /// The delay produced by the next call, in milliseconds.
    pub curr: u64,
    /// The delay produced by the call after that, in milliseconds.
    pub next: u64,
}

impl Fibonacci {
    /// The delay that follows the two stored ones: their sum, clamped to the
    /// largest representable count of milliseconds.
    pub open spec fn spec_advanced(self) -> u64 {
        if self.curr + self.next > u64::MAX {
            u64::MAX
        } else {
            (self.curr + self.next) as u64
        }
    }

    /// Create a new `Fibonacci` using the given duration in milliseconds for
    /// both of its first two delays.
    pub fn from_millis(millis: u64) -> (s: Fibonacci)
        ensures
            s == (Fibonacci { curr: millis, next: millis }),
    {
        Fibonacci { curr: millis, next: millis }
    }
}

impl DelayStrategy for Fibonacci {
    open spec fn wf(self) -> bool {
        true
    }

    open spec fn yields(self, produced: Option<Duration>, after: Fibonacci) -> bool {
        &&& produced == Some(Duration::spec_from_millis(self.curr))
        &&& after == (Fibonacci { curr: self.next, next: self.spec_advanced() })
    }

    fn next_delay(&mut self) -> (produced: Option<Duration>) {
        let duration = Duration::from_millis(self.curr);
        match self.curr.checked_add(self.next) {
            Some(sum) => {
                self.curr = self.next;
                self.next = sum;
            },
            None => {
                self.curr = self.next;
                self.next = u64::MAX;
            },
        }
        Some(duration)
    }
}

impl From<Duration> for Fibonacci {
    /// Use the duration's whole milliseconds for both of the first two delays.
    fn from(duration: Duration) -> (s: Fibonacci)
        ensures
            s == (Fibonacci {
                curr: spec_millis_wrapped(duration),
                next: spec_millis_wrapped(duration),
            }),
    {
        let millis = duration.as_millis();
        proof {
            lemma_cast_wraps(millis);
        }
        Fibonacci::from_millis(#[verifier::truncate] (millis as u64))
    }
}

impl vstd::std_specs::convert::FromSpecImpl<Duration> for Fibonacci {
    open spec fn obeys_from_spec() -> bool {
        true
    }

    open spec fn from_spec(duration: Duration) -> Fibonacci {
        Fibonacci { curr: spec_millis_wrapped(duration), next: spec_millis_wrapped(duration) }
    }
}

/// Each retry uses a fixed delay.
#[derive(Debug)]
pub struct Fixed {
    /// The delay produced by every call.
    pub duration: Duration,
}

impl Fixed {
    /// Create a new `Fixed` using the given duration in milliseconds.
    pub fn from_millis(millis: u64) -> (s: Fixed)
        ensures
            s == (Fixed { duration: Duration::spec_from_millis(millis) }),
            s.wf(),
    {
        Fixed { duration: Duration::from_millis(millis) }
    }
}

impl DelayStrategy for Fixed {
    open spec fn wf(self) -> bool {
        self.duration.wf()
    }

    open spec fn yields(self, produced: Option<Duration>, after: Fixed) -> bool {
        &&& produced == Some(self.duration)
        &&& after == self
    }

    fn next_delay(&mut self) -> (produced: Option<Duration>) {
        Some(self.duration)
    }
}

impl From<Duration> for Fixed {
    /// Use the given duration as the fixed delay.
    fn from(delay: Duration) -> (s: Fixed)
        ensures
            s == (Fixed { duration: delay }),
    {
        Fixed { duration: delay }
    }
}

impl vstd::std_specs::convert::FromSpecImpl<Duration> for Fixed {
    open spec fn obeys_from_spec() -> bool {
        true
    }

    open spec fn from_spec(delay: Duration) -> Fixed {
        Fixed { duration: delay }
    }
}

/// Each retry happens immediately without any delay.
#[derive(Debug)]
pub struct NoDelay;

impl DelayStrategy for NoDelay {
    open spec fn wf(self) -> bool {
        true
    }

    open spec fn yields(self, produced: Option<Duration>, after: NoDelay) -> bool {
        &&& produced == Some(Duration::spec_zero())
        &&& after == self
    }

    fn next_delay(&mut self) -> (produced: Option<Duration>) {
        Some(Duration::default())
    }
}

/// A strategy truncated to its first `remaining` delays; exhausted afterward.
#[derive(Debug)]
pub struct Take<D> {
    /// The strategy whose first delays are passed through.
    pub inner: D,
    /// How many more delays will be handed out.
    pub remaining: u64,
}

impl<D: DelayStrategy> DelayStrategy for Take<D> {
    open spec fn wf(self) -> bool {
        self.inner.wf()
    }

    open spec fn yields(self, produced: Option<Duration>, after: Take<D>) -> bool {
        if self.remaining == 0 {
            &&& produced is None
            &&& after == self
        } else {
            &&& after.remaining == self.remaining - 1
            &&& self.inner.yields(produced, after.inner)
        }
    }

    fn next_delay(&mut self) -> (produced: Option<Duration>) {
        if self.remaining == 0 {
            None
        } else {
            self.remaining = self.remaining - 1;
            self.inner.next_delay()
        }
    }
}

} // verus!
