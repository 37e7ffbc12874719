//! Utilities for retrying operations that can fail.
//!
//! The [`retry`] function repeatedly invokes an [`Operation`] until it
//! succeeds, pausing between failed attempts for the durations handed out by a
//! [`delay::DelayStrategy`], and gives up with an [`Error`] carrying the last
//! error, the total delay waited, and the number of attempts made. The
//! operation classifies each of its outcomes as an [`OperationResult`]:
//! a success, a failure worth retrying, or a fatal failure that stops the
//! driver at once.
//!
//! The actual pause is a capability supplied by the caller as a [`Sleep`]
//! implementation, so any blocking timer can be plugged in. A non-blocking
//! driver over the same bookkeeping lives in [`asynchronous`], as a state
//! machine stepped by its host scheduler.

pub mod asynchronous;
pub mod delay;
mod duration;
mod opresult;
mod random;
pub mod semantics;

pub use duration::Duration;
pub use opresult::OperationResult;

use vstd::prelude::*;

use crate::delay::DelayStrategy;
use crate::semantics::duration_sum;
use crate::semantics::lemma_produces_push;
use crate::semantics::produces;
use crate::semantics::retry_run;

verus! {

/// An error with a retryable operation.
#[derive(Debug, PartialEq, Eq)]
pub struct Error<E> {
    /// The error returned by the operation on the last try.
    pub error: E,
    /// The duration spent waiting between tries of the operation.
    ///
    /// This does not count the time spent running the operation itself.
    pub total_delay: Duration,
    /// The total number of times the operation was tried.
    pub tries: u64,
}

impl<E> Error<E> {
    /// The error returned by the operation on the last try, as the underlying
    /// cause of this one.
    pub fn cause(&self) -> (r: &E)
        ensures
            r == &self.error,
    {
        &self.error
    }
}

/// A repeatable piece of work: one call makes one attempt and classifies its
/// outcome. The driver promises nothing about which outcomes the attempts
/// return; that is the operation's own business.
pub trait Operation<R, E> {
    /// Make one attempt.
    fn attempt(&mut self) -> OperationResult<R, E>;
}

/// A repeatable piece of work that is told the number of the current attempt,
/// counted from 1.
pub trait OperationWithIndex<R, E> {
    /// Make one attempt, the `current_try`-th one.
    fn attempt(&mut self, current_try: u64) -> OperationResult<R, E>;
}

/// A blocking pause: the driver calls `sleep` with each delay it was handed
/// and assumes the call suspends the calling thread for at least that long.
/// Nothing about the pause is visible to the retry bookkeeping.
pub trait Sleep {
    /// Block for the given duration.
    fn sleep(&mut self, duration: &Duration);
}

/// An operation wrapped to be driven where the attempt number is offered but
/// not wanted.
struct IndexlessOperation<O> {
    inner: O,
}

impl<R, E, O: Operation<R, E>> OperationWithIndex<R, E> for IndexlessOperation<O> {
    fn attempt(&mut self, _current_try: u64) -> OperationResult<R, E> {
        self.inner.attempt()
    }
}

/// Retry the given operation until it succeeds, or until the given delay
/// strategy ends, pausing between attempts through the given sleeper.
///
/// The result is some finished run of the retry loop: the first success, or
/// the last error with the delays actually waited and the attempts actually
/// made, given up only once the strategy was exhausted or the failure fatal.
pub fn retry<D: DelayStrategy, S: Sleep, O: Operation<R, E>, R, E>(
    delays: D,
    sleeper: &mut S,
    operation: O,
) -> (r: Result<R, Error<E>>)
    requires
        delays.wf(),
    ensures
        exists|trace: Seq<OperationResult<R, E>>, ds: Seq<Duration>|
            #[trigger] retry_run(delays, trace, ds, r),
{
    retry_with_index(delays, sleeper, IndexlessOperation { inner: operation })
}

/// Retry the given operation until it succeeds, or until the given delay
/// strategy ends, with each attempt receiving its number as an argument,
/// counted from 1.
///
/// The result is some finished run of the retry loop: the first success, or
/// the last error with the delays actually waited and the attempts actually
/// made, given up only once the strategy was exhausted or the failure fatal.
pub fn retry_with_index<D: DelayStrategy, S: Sleep, O: OperationWithIndex<R, E>, R, E>(
    delays: D,
    sleeper: &mut S,
    operation: O,
) -> (r: Result<R, Error<E>>)
    requires
        delays.wf(),
    ensures
        exists|trace: Seq<OperationResult<R, E>>, ds: Seq<Duration>|
            #[trigger] retry_run(delays, trace, ds, r),
{
    let mut operation = operation;
    let mut strategy = delays;
    let mut current_try: u64 = 1;
    let mut total_delay = Duration::default();
    let ghost mut trace = Seq::<OperationResult<R, E>>::empty();
    let ghost mut ds = Seq::<Duration>::empty();
    loop
        invariant
            strategy.wf(),
            produces(delays, ds, strategy),
            trace.len() == ds.len(),
            forall|i: int| 0 <= i < trace.len() ==> trace[i] is Retry,
            forall|i: int| 0 <= i < ds.len() ==> (#[trigger] ds[i]).wf(),
            current_try as int == ds.len() + 1,
            total_delay == duration_sum(ds),
            total_delay.wf(),
        decreases u64::MAX - current_try,
    {
        let outcome = operation.attempt(current_try);
        let ghost attempt_outcome = outcome;
        match outcome {
            OperationResult::Success(value) => {
                let r = Result::<R, Error<E>>::Ok(value);
                proof {
                    trace = trace.push(attempt_outcome);
                    assert(retry_run(delays, trace, ds, r));
                }
                return r;
            },
            OperationResult::Retry(error) => {
                if current_try == u64::MAX {
                    let r = Result::<R, Error<E>>::Err(
                        Error { error, total_delay, tries: current_try },
                    );
                    proof {
                        trace = trace.push(attempt_outcome);
                        assert(retry_run(delays, trace, ds, r));
                    }
                    return r;
                }
                let ghost strategy_before = strategy;
                match strategy.next_delay() {
                    Some(delay) => {
                        sleeper.sleep(&delay);
                        current_try = current_try + 1;
                        total_delay = total_delay.saturating_add(delay);
                        proof {
                            lemma_produces_push(delays, ds, strategy_before, delay, strategy);
                            trace = trace.push(attempt_outcome);
                            assert(ds.push(delay).drop_last() =~= ds);
                            ds = ds.push(delay);
                        }
                    },
                    None => {
                        let r = Result::<R, Error<E>>::Err(
                            Error { error, total_delay, tries: current_try },
                        );
                        proof {
                            trace = trace.push(attempt_outcome);
                            assert(retry_run(delays, trace, ds, r));
                        }
                        return r;
                    },
                }
            },
            OperationResult::Fatal(error) => {
                let r = Result::<R, Error<E>>::Err(
                    Error { error, total_delay, tries: current_try },
                );
                proof {
                    trace = trace.push(attempt_outcome);
                    assert(retry_run(delays, trace, ds, r));
                }
                return r;
            },
        }
    }
}

} // verus!
