//! Randomized delays: a strategy that samples each delay uniformly from a
//! range of milliseconds, and a jitter transform that randomly shrinks the
//! delays of any other strategy.

use vstd::prelude::*;

use crate::delay::DelayStrategy;
use crate::duration::Duration;

verus! {

/// The denominator of a random fraction: a draw `f` stands for `f / 2^64`,
/// a fraction in the half-open unit interval.
pub const FRACTION_DENOMINATOR: u128 = 0x1_0000_0000_0000_0000;

/// The error returned when a random range is constructed with its minimum not
/// below (or not at most) its maximum.
#[derive(Clone, Copy, Debug, PartialEq, Eq, Structural)]
pub struct InvalidRange;

/// Relies on `rand::RngExt::random_range` on the thread-local generator, over
/// an inclusive range: the sample lies within the bounds.
#[verifier::external_body]
fn sample_inclusive(lo: u64, hi: u64) -> (v: u64)
    requires
        lo <= hi,
    ensures
        lo <= v <= hi,
{
    rand::RngExt::random_range(&mut rand::rng(), lo..=hi)
}

/// Relies on `rand::random`: a `u64` drawn uniformly, read as the numerator of
/// a fraction over `FRACTION_DENOMINATOR`. Nothing is promised of the draw.
#[verifier::external_body]
fn random_fraction() -> u64 {
    rand::random()
}

/// Each retry uses a duration randomly chosen from a range.
///
/// The bounds are counts of milliseconds, both included; the exclusive
/// constructors store the predecessor of their upper bound.
#[derive(Debug)]
pub struct Range {
    /// The smallest delay the strategy may produce, in milliseconds.
    pub min: u64,
    /// The largest delay the strategy may produce, in milliseconds.
    pub max: u64,
}

impl Range {
    /// Create a new `Range` between the given millisecond durations, excluding
    /// the maximum value.
    ///
    /// The minimum must be less than the maximum; `try_from_millis_exclusive`
    /// reports that misuse as an error instead.
    pub fn from_millis_exclusive(minimum: u64, maximum: u64) -> (s: Range)
        requires
            minimum < maximum,
        ensures
            s == (Range { min: minimum, max: (maximum - 1) as u64 }),
            s.wf(),
    {
        Range { min: minimum, max: maximum - 1 }
    }

    /// Attempt to create a new `Range` between the given millisecond
    /// durations, excluding the maximum value.
    ///
    /// Returns an error if and only if the minimum is not below the maximum.
    pub fn try_from_millis_exclusive(minimum: u64, maximum: u64) -> (r: Result<Range, InvalidRange>)
        ensures
            minimum < maximum <==> r is Ok,
            r matches Ok(s) ==> s == (Range { min: minimum, max: (maximum - 1) as u64 }) && s.wf(),
    {
        if minimum < maximum {
            Ok(Range { min: minimum, max: maximum - 1 })
        } else {
            Err(InvalidRange)
        }
    }

    /// Create a new `Range` between the given millisecond durations, including
    /// the maximum value.
    ///
    /// The minimum must be at most the maximum; `try_from_millis_inclusive`
    /// reports that misuse as an error instead.
    pub fn from_millis_inclusive(minimum: u64, maximum: u64) -> (s: Range)
        requires
            minimum <= maximum,
        ensures
            s == (Range { min: minimum, max: maximum }),
            s.wf(),
    {
        Range { min: minimum, max: maximum }
    }

    /// Attempt to create a new `Range` between the given millisecond
    /// durations, including the maximum value.
    ///
    /// Returns an error if and only if the minimum is above the maximum.
    pub fn try_from_millis_inclusive(minimum: u64, maximum: u64) -> (r: Result<Range, InvalidRange>)
        ensures
            minimum <= maximum <==> r is Ok,
            r matches Ok(s) ==> s == (Range { min: minimum, max: maximum }) && s.wf(),
    {
        if minimum <= maximum {
            Ok(Range { min: minimum, max: maximum })
        } else {
            Err(InvalidRange)
        }
    }
}

impl DelayStrategy for Range {
    open spec fn wf(self) -> bool {
        self.min <= self.max
    }

    open spec fn yields(self, produced: Option<Duration>, after: Range) -> bool {
        &&& after == self
        &&& exists|v: u64|
            self.min <= v <= self.max && produced == Some(#[trigger] Duration::spec_from_millis(v))
    }

    fn next_delay(&mut self) -> (produced: Option<Duration>) {
        let v = sample_inclusive(self.min, self.max);
        let d = Duration::from_millis(v);
        proof {
            assert(old(self).min <= v <= old(self).max && Some(d)
                == Some(Duration::spec_from_millis(v)));
        }
        Some(d)
    }
}

/// One component of a duration shrunk by a random fraction: the least count
/// `c` with `c * FRACTION_DENOMINATOR >= value * fraction`.
pub open spec fn spec_shrunk(value: int, fraction: u64) -> int {
    (value * fraction + (FRACTION_DENOMINATOR - 1)) / (FRACTION_DENOMINATOR as int)
}

/// A duration shrunk by the random fraction `f / FRACTION_DENOMINATOR`: the
/// seconds and the sub-second remainder are each scaled by the fraction and
/// rounded up.
pub open spec fn spec_jitter(d: Duration, fraction: u64) -> Duration {
    Duration {
        secs: spec_shrunk(d.secs as int, fraction) as u64,
        nanos: spec_shrunk(d.nanos as int, fraction) as u32,
    }
}

/// Scaling by a fraction below one never grows a component, and scaling zero
/// leaves zero.
proof fn lemma_shrunk_le(value: int, fraction: u64)
    requires
        0 <= value,
    ensures
        0 <= spec_shrunk(value, fraction) <= value,
        value == 0 ==> spec_shrunk(value, fraction) == 0,
{
    let den = FRACTION_DENOMINATOR as int;
    let num = value * fraction + (den - 1);
    assert(0 <= value * fraction) by (nonlinear_arith)
        requires
            0 <= value,
            0 <= fraction,
    ;
    vstd::arithmetic::div_mod::lemma_div_pos_is_pos(num, den);
    assert(num < den * (value + 1)) by (nonlinear_arith)
        requires
            0 <= value,
            0 <= fraction < den,
            num == value * fraction + (den - 1),
    ;
    vstd::arithmetic::div_mod::lemma_multiply_divide_lt(num, den, value + 1);
    if value == 0 {
        vstd::arithmetic::div_mod::lemma_basic_div(num, den);
    }
}

/// Shrink one component of a duration by the given fraction, rounding up.
fn shrink_component(value: u64, fraction: u64) -> (r: u64)
    ensures
        r == spec_shrunk(value as int, fraction),
        r <= value,
        value == 0 ==> r == 0,
{
    proof {
        lemma_shrunk_le(value as int, fraction);
        assert((value as u128) * (fraction as u128) == (value as int) * (fraction as int))
            by (nonlinear_arith);
        assert((value as int) * (fraction as int) + (FRACTION_DENOMINATOR - 1)
            < FRACTION_DENOMINATOR * FRACTION_DENOMINATOR) by (nonlinear_arith)
            requires
                value <= u64::MAX < FRACTION_DENOMINATOR,
                fraction <= u64::MAX < FRACTION_DENOMINATOR,
        ;
    }
    let scaled: u128 = (value as u128) * (fraction as u128) + (FRACTION_DENOMINATOR - 1);
    (scaled / FRACTION_DENOMINATOR) as u64
}

/// Apply the random fraction `f / FRACTION_DENOMINATOR` to a duration: both
/// components are scaled by the fraction and rounded up. The result never
/// exceeds the given duration, and a zero duration stays zero.
pub fn jitter_with_fraction(duration: Duration, fraction: u64) -> (r: Duration)
    requires
        duration.wf(),
    ensures
        r == spec_jitter(duration, fraction),
        r.wf(),
        r.secs <= duration.secs,
        r.nanos <= duration.nanos,
        duration == Duration::spec_zero() ==> r == Duration::spec_zero(),
{
    let secs = shrink_component(duration.secs, fraction);
    let nanos_wide = shrink_component(duration.nanos as u64, fraction);
    Duration::new(secs, nanos_wide as u32)
}

/// Apply full random jitter to a duration: draw one random fraction and shrink
/// both components of the duration by it, rounding up.
///
/// The result never exceeds the given duration, and a zero duration stays
/// zero.
pub fn jitter(duration: Duration) -> (r: Duration)
    requires
        duration.wf(),
    ensures
        exists|fraction: u64| r == #[trigger] spec_jitter(duration, fraction),
        r.wf(),
        r.secs <= duration.secs,
        r.nanos <= duration.nanos,
        duration == Duration::spec_zero() ==> r == Duration::spec_zero(),
{
    let fraction = random_fraction();
    let r = jitter_with_fraction(duration, fraction);
    proof {
        assert(r == spec_jitter(duration, fraction));
    }
    r
}

/// A strategy whose delays are those of another strategy with full random
/// jitter applied to each.
#[derive(Debug)]
pub struct Jittered<D> {
    /// The strategy whose delays are jittered.
    pub inner: D,
}

impl<D: DelayStrategy> DelayStrategy for Jittered<D> {
    open spec fn wf(self) -> bool {
        self.inner.wf()
    }

    open spec fn yields(self, produced: Option<Duration>, after: Jittered<D>) -> bool {
        ||| (produced is None && self.inner.yields(None, after.inner))
        ||| exists|base: Duration, fraction: u64|
            self.inner.yields(Some(base), after.inner) && produced == Some(
                #[trigger] spec_jitter(base, fraction),
            )
    }

    fn next_delay(&mut self) -> (produced: Option<Duration>) {
        match self.inner.next_delay() {
            Some(base) => {
                let r = jitter(base);
                proof {
                    let fraction = choose|fraction: u64| r == spec_jitter(base, fraction);
                    assert((*old(self)).inner.yields(Some(base), final(self).inner) && Some(r)
                        == Some(spec_jitter(base, fraction)));
                }
                Some(r)
            },
            None => None,
        }
    }
}

} // verus!
