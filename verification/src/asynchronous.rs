//! A non-blocking retry driver: the same control flow and bookkeeping as the
//! blocking [`crate::retry`], expressed as a state machine.
//!
//! The host scheduler owns the pending attempt and the pending delay wait (the
//! two suspension points) and steps the machine with each completion; the
//! machine answers with the next thing to await, or with the finished result,
//! after which it must not be stepped again.

use vstd::prelude::*;

use crate::delay::DelayStrategy;
use crate::duration::Duration;
use crate::opresult::OperationResult;
use crate::Error;

verus! {

/// Whether the driver currently awaits the operation or a delay.
#[derive(Clone, Copy, Debug, PartialEq, Eq, Structural)]
pub enum RetryState {
    /// The operation's pending attempt is in flight.
    Running,
    /// A delay wait is in flight.
    Sleeping,
}

/// A completion the host awaited and now delivers to the driver.
#[derive(Debug)]
pub enum RetryEvent<R, E> {
    /// The in-flight attempt finished with the given outcome.
    OperationCompleted(OperationResult<R, E>),
    /// The in-flight delay wait elapsed.
    SleepCompleted,
}

/// What the host must do after stepping the driver.
#[derive(Debug)]
pub enum StepAction<R, E> {
    /// The run is over with the given result; the driver must not be stepped
    /// again.
    Finished(Result<R, Error<E>>),
    /// Start waiting out the given delay, then step with `SleepCompleted`.
    BeginSleep(Duration),
    /// Start a fresh attempt, then step with its outcome.
    BeginAttempt,
}

/// A retry run in flight: the bookkeeping of the retry loop, advanced one
/// completion at a time by its host scheduler.
#[derive(Debug)]
pub struct RetryFuture<D> {
    /// The source of the delays still to be waited.
    pub delays: D,
    /// Whether the driver awaits the operation or a delay.
    pub state: RetryState,
    /// The duration spent waiting so far.
    pub total_delay: Duration,
    /// The number of attempts made so far, the in-flight one included.
    pub tries: u64,
}

impl<D: DelayStrategy> RetryFuture<D> {
    /// Which driver states are meaningful.
    pub open spec fn wf(self) -> bool {
        &&& self.delays.wf()
        &&& self.total_delay.wf()
        &&& 1 <= self.tries
    }

    /// Whether an event can be delivered in the current state: an attempt
    /// completes only while running, a delay wait only while sleeping.
    pub open spec fn accepts<R, E>(self, event: RetryEvent<R, E>) -> bool {
        match event {
            RetryEvent::OperationCompleted(_) => self.state is Running,
            RetryEvent::SleepCompleted => self.state is Sleeping,
        }
    }

    /// The driver's transition relation: how one delivered completion moves
    /// the machine to its next state and what it asks of the host.
    ///
    /// A success or a fatal failure finishes at once with the current
    /// bookkeeping. A retryable failure consumes the next delay and starts the
    /// wait for it, or finishes with the current bookkeeping when the strategy
    /// is exhausted or the attempt counter cannot advance. An elapsed wait
    /// starts the next attempt and touches no bookkeeping.
    pub open spec fn step_to<R, E>(
        self,
        event: RetryEvent<R, E>,
        after: RetryFuture<D>,
        action: StepAction<R, E>,
    ) -> bool {
        match event {
            RetryEvent::SleepCompleted => {
                &&& after == (RetryFuture {
                    delays: self.delays,
                    state: RetryState::Running,
                    total_delay: self.total_delay,
                    tries: self.tries,
                })
                &&& action == StepAction::<R, E>::BeginAttempt
            },
            RetryEvent::OperationCompleted(outcome) => match outcome {
                OperationResult::Success(v) => {
                    &&& after == self
                    &&& action == StepAction::<R, E>::Finished(Result::Ok(v))
                },
                OperationResult::Fatal(e) => {
                    &&& after == self
                    &&& action == StepAction::<R, E>::Finished(
                        Result::Err(
                            Error {
                                error: e,
                                total_delay: self.total_delay,
                                tries: self.tries,
                            },
                        ),
                    )
                },
                OperationResult::Retry(e) => {
                    ||| (self.tries == u64::MAX && after == self && action == StepAction::<
                        R,
                        E,
                    >::Finished(
                        Result::Err(
                            Error {
                                error: e,
                                total_delay: self.total_delay,
                                tries: self.tries,
                            },
                        ),
                    ))
                    ||| (self.tries < u64::MAX && exists|d: Duration|
                        {
                            &&& #[trigger] self.delays.yields(Some(d), after.delays)
                            &&& d.wf()
                            &&& after == (RetryFuture {
                                delays: after.delays,
                                state: RetryState::Sleeping,
                                total_delay: self.total_delay.spec_saturating_add(d),
                                tries: (self.tries + 1) as u64,
                            })
                            &&& action == StepAction::<R, E>::BeginSleep(d)
                        })
                    ||| (self.tries < u64::MAX && self.delays.yields(None, after.delays) && after
                        == (RetryFuture {
                        delays: after.delays,
                        state: self.state,
                        total_delay: self.total_delay,
                        tries: self.tries,
                    }) && action == StepAction::<R, E>::Finished(
                        Result::Err(
                            Error {
                                error: e,
                                total_delay: self.total_delay,
                                tries: self.tries,
                            },
                        ),
                    ))
                },
            },
        }
    }

    /// Start a retry run on the given strategy, with the first attempt
    /// already in flight.
    pub fn spawn(delays: D) -> (f: RetryFuture<D>)
        ensures
            f == (RetryFuture {
                delays,
                state: RetryState::Running,
                total_delay: Duration::spec_zero(),
                tries: 1u64,
            }),
    {
        RetryFuture { delays, state: RetryState::Running, total_delay: Duration::default(), tries: 1 }
    }

    /// Deliver one awaited completion and advance the driver, as `step_to`
    /// describes.
    pub fn step<R, E>(&mut self, event: RetryEvent<R, E>) -> (action: StepAction<R, E>)
        requires
            old(self).wf(),
            old(self).accepts(event),
        ensures
            final(self).wf(),
            (*old(self)).step_to(event, *final(self), action),
    {
        match event {
            RetryEvent::SleepCompleted => {
                self.state = RetryState::Running;
                StepAction::BeginAttempt
            },
            RetryEvent::OperationCompleted(outcome) => match outcome {
                OperationResult::Success(v) => StepAction::Finished(Ok(v)),
                OperationResult::Fatal(e) => StepAction::Finished(
                    Err(Error { error: e, total_delay: self.total_delay, tries: self.tries }),
                ),
                OperationResult::Retry(e) => {
                    if self.tries == u64::MAX {
                        StepAction::Finished(
                            Err(
                                Error {
                                    error: e,
                                    total_delay: self.total_delay,
                                    tries: self.tries,
                                },
                            ),
                        )
                    } else {
                        match self.delays.next_delay() {
                            Some(d) => {
                                self.total_delay = self.total_delay.saturating_add(d);
                                self.tries = self.tries + 1;
                                self.state = RetryState::Sleeping;
                                StepAction::BeginSleep(d)
                            },
                            None => StepAction::Finished(
                                Err(
                                    Error {
                                        error: e,
                                        total_delay: self.total_delay,
                                        tries: self.tries,
                                    },
                                ),
                            ),
                        }
                    }
                },
            },
        }
    }
}

} // verus!
