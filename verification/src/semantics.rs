//! The meaning of a finished retry run, shared by the blocking driver and the
//! poll-driven one: which outcome traces and delay sequences a run may take,
//! and the result and bookkeeping each of them settles on.

use vstd::prelude::*;

use crate::asynchronous::RetryEvent;
use crate::asynchronous::RetryFuture;
use crate::asynchronous::RetryState;
use crate::asynchronous::StepAction;
use crate::delay::DelayStrategy;
use crate::delay::Take;
use crate::duration::Duration;
use crate::opresult::OperationResult;
use crate::Error;

verus! {

/// The saturating sum of a sequence of delays, added left to right.
pub open spec fn duration_sum(ds: Seq<Duration>) -> Duration
    decreases ds.len(),
{
    if ds.len() == 0 {
        Duration::spec_zero()
    } else {
        duration_sum(ds.drop_last()).spec_saturating_add(ds.last())
    }
}

/// The combined length of a sequence of delays: the exact sum of their
/// lengths in nanoseconds.
pub open spec fn nanos_sum(ds: Seq<Duration>) -> int
    decreases ds.len(),
{
    if ds.len() == 0 {
        0
    } else {
        nanos_sum(ds.drop_last()) + ds.last()@
    }
}

/// The total delay a run records is the exact sum of the delays waited, capped
/// at the longest representable span.
pub proof fn lemma_duration_sum_exact(ds: Seq<Duration>)
    requires
        forall|i: int| 0 <= i < ds.len() ==> (#[trigger] ds[i]).wf(),
    ensures
        duration_sum(ds).wf(),
        duration_sum(ds)@ == if nanos_sum(ds) <= Duration::spec_max()@ {
            nanos_sum(ds)
        } else {
            Duration::spec_max()@
        },
    decreases ds.len(),
{
    if ds.len() > 0 {
        assert(forall|i: int|
            0 <= i < ds.drop_last().len() ==> (#[trigger] ds.drop_last()[i]).wf());
        lemma_duration_sum_exact(ds.drop_last());
        crate::duration::lemma_saturating_add_view(duration_sum(ds.drop_last()), ds.last());
    }
}

/// The shape of a finished run: at least one attempt was made, every attempt
/// but the last failed retryably and was followed by one waited delay, and
/// every waited delay is well formed. The attempt counter bounds how many
/// attempts a driver can make.
pub open spec fn run_shape<R, E>(trace: Seq<OperationResult<R, E>>, ds: Seq<Duration>) -> bool {
    &&& 1 <= trace.len() <= u64::MAX
    &&& ds.len() == trace.len() - 1
    &&& forall|i: int| 0 <= i < trace.len() - 1 ==> trace[i] is Retry
    &&& forall|i: int| 0 <= i < ds.len() ==> (#[trigger] ds[i]).wf()
}

/// The result a run settles on: the successful value of its last attempt, or
/// the last error together with the total delay waited and the number of
/// attempts made.
pub open spec fn run_result<R, E>(trace: Seq<OperationResult<R, E>>, ds: Seq<Duration>) -> Result<
    R,
    Error<E>,
>
    recommends
        run_shape(trace, ds),
{
    match trace.last() {
        OperationResult::Success(v) => Result::Ok(v),
        OperationResult::Retry(e) => Result::Err(
            Error { error: e, total_delay: duration_sum(ds), tries: trace.len() as u64 },
        ),
        OperationResult::Fatal(e) => Result::Err(
            Error { error: e, total_delay: duration_sum(ds), tries: trace.len() as u64 },
        ),
    }
}

/// Whether a strategy, asked repeatedly, can produce exactly the given delays
/// in order, ending in the given state.
pub open spec fn produces<D: DelayStrategy>(d0: D, ds: Seq<Duration>, dend: D) -> bool
    decreases ds.len(),
{
    if ds.len() == 0 {
        dend == d0
    } else {
        exists|mid: D| #[trigger] d0.yields(Some(ds[0]), mid) && produces(mid, ds.drop_first(), dend)
    }
}

/// Whether a strategy may be exhausted: its next call can produce nothing.
pub open spec fn exhausts<D: DelayStrategy>(d: D) -> bool {
    exists|after: D| d.yields(None, after)
}

/// Whether a retry driver started on the given strategy can finish with the
/// given result: some trace of attempt outcomes, with delays the strategy can
/// produce, runs to that result. A driver gives up on a retryable failure only
/// when the strategy is exhausted or the attempt counter cannot advance.
pub open spec fn retry_run<D: DelayStrategy, R, E>(
    d0: D,
    trace: Seq<OperationResult<R, E>>,
    ds: Seq<Duration>,
    r: Result<R, Error<E>>,
) -> bool {
    &&& run_shape(trace, ds)
    &&& exists|dend: D|
        #[trigger] produces(d0, ds, dend) && (trace.last() is Retry ==> exhausts(dend)
            || trace.len() == u64::MAX)
    &&& r == run_result(trace, ds)
}

/// Extending a producible delay sequence by one more produced delay keeps it
/// producible.
pub proof fn lemma_produces_push<D: DelayStrategy>(
    d0: D,
    ds: Seq<Duration>,
    mid: D,
    d: Duration,
    dnew: D,
)
    requires
        produces(d0, ds, mid),
        mid.yields(Some(d), dnew),
    ensures
        produces(d0, ds.push(d), dnew),
    decreases ds.len(),
{
    if ds.len() == 0 {
        assert(ds.push(d)[0] == d);
        assert(ds.push(d).drop_first() =~= Seq::<Duration>::empty());
        assert(d0.yields(Some(ds.push(d)[0]), dnew) && produces(
            dnew,
            ds.push(d).drop_first(),
            dnew,
        ));
    } else {
        let m1 = choose|m1: D|
            #[trigger] d0.yields(Some(ds[0]), m1) && produces(m1, ds.drop_first(), mid);
        lemma_produces_push(m1, ds.drop_first(), mid, d, dnew);
        assert(ds.push(d)[0] == ds[0]);
        assert(ds.push(d).drop_first() =~= ds.drop_first().push(d));
        assert(d0.yields(Some(ds.push(d)[0]), m1) && produces(m1, ds.push(d).drop_first(), dnew));
    }
}

/// The result the poll-driven driver settles on, unrolled from the transition
/// relation of [`RetryFuture`]: starting an attempt with the given bookkeeping
/// and stepping through the outcomes of `trace` in order, waiting out the
/// delays of `ds` between attempts.
pub open spec fn future_run<R, E>(
    trace: Seq<OperationResult<R, E>>,
    ds: Seq<Duration>,
    total0: Duration,
    tries0: u64,
) -> Result<R, Error<E>>
    recommends
        1 <= trace.len(),
    decreases trace.len(),
{
    if trace.len() == 0 {
        vstd::pervasive::arbitrary()
    } else {
        match trace.first() {
            OperationResult::Success(v) => Result::Ok(v),
            OperationResult::Fatal(e) => Result::Err(
                Error { error: e, total_delay: total0, tries: tries0 },
            ),
            OperationResult::Retry(e) => if tries0 == u64::MAX || ds.len() == 0 {
                Result::Err(Error { error: e, total_delay: total0, tries: tries0 })
            } else {
                future_run(
                    trace.drop_first(),
                    ds.drop_first(),
                    total0.spec_saturating_add(ds.first()),
                    (tries0 + 1) as u64,
                )
            },
        }
    }
}

/// Whether the poll-driven machine, stepped from `m` by its own transition
/// relation, can run through the given attempt outcomes and waited delays and
/// finish with result `r`: each attempt completion is delivered in order, and
/// every retried failure waits out one produced delay before the next attempt
/// begins.
pub open spec fn machine_runs_to<D: DelayStrategy, R, E>(
    m: RetryFuture<D>,
    trace: Seq<OperationResult<R, E>>,
    ds: Seq<Duration>,
    r: Result<R, Error<E>>,
) -> bool
    decreases trace.len(),
{
    if trace.len() == 0 {
        false
    } else {
        exists|m2: RetryFuture<D>, action: StepAction<R, E>|
            {
                &&& #[trigger] m.step_to(
                    RetryEvent::OperationCompleted(trace.first()),
                    m2,
                    action,
                )
                &&& if trace.len() == 1 {
                    ds.len() == 0 && action == StepAction::<R, E>::Finished(r)
                } else {
                    ds.len() == trace.len() - 1 && action == StepAction::<R, E>::BeginSleep(
                        ds.first(),
                    ) && exists|m3: RetryFuture<D>|
                        #[trigger] m2.step_to(
                            RetryEvent::<R, E>::SleepCompleted,
                            m3,
                            StepAction::<R, E>::BeginAttempt,
                        ) && machine_runs_to(m3, trace.drop_first(), ds.drop_first(), r)
                }
            }
    }
}

/// Any run of the poll-driven machine settles on the result that unrolling its
/// transitions computes, carried from the machine's current bookkeeping.
pub proof fn lemma_machine_run_unrolls<D: DelayStrategy, R, E>(
    m: RetryFuture<D>,
    trace: Seq<OperationResult<R, E>>,
    ds: Seq<Duration>,
    r: Result<R, Error<E>>,
)
    requires
        machine_runs_to(m, trace, ds, r),
    ensures
        r == future_run(trace, ds, m.total_delay, m.tries),
    decreases trace.len(),
{
    let (m2, action) = choose|m2: RetryFuture<D>, action: StepAction<R, E>|
        {
            &&& #[trigger] m.step_to(RetryEvent::OperationCompleted(trace.first()), m2, action)
            &&& if trace.len() == 1 {
                ds.len() == 0 && action == StepAction::<R, E>::Finished(r)
            } else {
                ds.len() == trace.len() - 1 && action == StepAction::<R, E>::BeginSleep(ds.first())
                    && exists|m3: RetryFuture<D>|
                    #[trigger] m2.step_to(
                        RetryEvent::<R, E>::SleepCompleted,
                        m3,
                        StepAction::<R, E>::BeginAttempt,
                    ) && machine_runs_to(m3, trace.drop_first(), ds.drop_first(), r)
            }
        };
    if trace.len() > 1 {
        let m3 = choose|m3: RetryFuture<D>|
            #[trigger] m2.step_to(
                RetryEvent::<R, E>::SleepCompleted,
                m3,
                StepAction::<R, E>::BeginAttempt,
            ) && machine_runs_to(m3, trace.drop_first(), ds.drop_first(), r);
        lemma_machine_run_unrolls(m3, trace.drop_first(), ds.drop_first(), r);
    }
}

/// The bookkeeping both drivers keep for a run, relative to the delays already
/// waited before it: stepping through the whole trace unrolls to the run's
/// result, with the already-waited delays folded into the totals.
proof fn lemma_future_run_from<R, E>(
    trace: Seq<OperationResult<R, E>>,
    ds: Seq<Duration>,
    consumed: Seq<Duration>,
)
    requires
        1 <= trace.len(),
        ds.len() == trace.len() - 1,
        forall|i: int| 0 <= i < trace.len() - 1 ==> trace[i] is Retry,
        consumed.len() + trace.len() <= u64::MAX,
    ensures
        future_run(trace, ds, duration_sum(consumed), (consumed.len() + 1) as u64) == (
        match trace.last() {
            OperationResult::Success(v) => Result::<R, Error<E>>::Ok(v),
            OperationResult::Retry(e) => Result::Err(
                Error {
                    error: e,
                    total_delay: duration_sum(consumed + ds),
                    tries: (consumed.len() + trace.len()) as u64,
                },
            ),
            OperationResult::Fatal(e) => Result::Err(
                Error {
                    error: e,
                    total_delay: duration_sum(consumed + ds),
                    tries: (consumed.len() + trace.len()) as u64,
                },
            ),
        }),
    decreases trace.len(),
{
    if trace.len() == 1 {
        assert(consumed + ds =~= consumed);
    } else {
        let shorter = consumed.push(ds.first());
        assert(shorter.drop_last() =~= consumed);
        assert(duration_sum(shorter) == duration_sum(consumed).spec_saturating_add(ds.first()));
        assert(forall|i: int|
            0 <= i < trace.drop_first().len() - 1 ==> trace.drop_first()[i] == trace[i + 1]
                && trace.drop_first()[i] is Retry);
        lemma_future_run_from(trace.drop_first(), ds.drop_first(), shorter);
        assert(shorter + ds.drop_first() =~= consumed + ds);
        assert(trace.drop_first().last() == trace.last());
    }
}

/// The blocking driver and the poll-driven one produce identical results and
/// identical error bookkeeping: a run of the retry loop and a run of the
/// machine through the same attempt outcomes and the same waited delays settle
/// on the same value.
pub proof fn lemma_drivers_agree<D: DelayStrategy, R, E>(
    delays: D,
    trace: Seq<OperationResult<R, E>>,
    ds: Seq<Duration>,
    r_loop: Result<R, Error<E>>,
    r_machine: Result<R, Error<E>>,
)
    requires
        retry_run(delays, trace, ds, r_loop),
        machine_runs_to(
            RetryFuture {
                delays,
                state: RetryState::Running,
                total_delay: Duration::spec_zero(),
                tries: 1u64,
            },
            trace,
            ds,
            r_machine,
        ),
    ensures
        r_loop == r_machine,
{
    let m = RetryFuture {
        delays,
        state: RetryState::Running,
        total_delay: Duration::spec_zero(),
        tries: 1u64,
    };
    lemma_machine_run_unrolls(m, trace, ds, r_machine);
    lemma_future_run_from(trace, ds, Seq::empty());
    assert(Seq::<Duration>::empty() + ds =~= ds);
}

/// A run in which every attempt failed retryably was tried once more than it
/// waited, and waited exactly the delays the strategy produced: `tries` is the
/// number of delays plus one and `total_delay` their saturating sum.
pub proof fn lemma_all_attempts_fail<R, E>(trace: Seq<OperationResult<R, E>>, ds: Seq<Duration>)
    requires
        run_shape(trace, ds),
        trace.last() is Retry,
    ensures
        run_result(trace, ds) == Result::<R, Error<E>>::Err(
            Error {
                error: trace.last()->Retry_0,
                total_delay: duration_sum(ds),
                tries: (ds.len() + 1) as u64,
            },
        ),
{
}

/// A truncated strategy hands out a prefix of its underlying strategy's
/// delays: whatever it produced, the underlying strategy produced too, and no
/// more delays than the truncation allows.
pub proof fn lemma_take_produces<D: DelayStrategy>(
    inner: D,
    limit: u64,
    ds: Seq<Duration>,
    dend: Take<D>,
)
    requires
        produces(Take { inner, remaining: limit }, ds, dend),
    ensures
        ds.len() <= limit,
        dend.remaining == limit - ds.len(),
        produces(inner, ds, dend.inner),
    decreases ds.len(),
{
    if ds.len() == 0 {
    } else {
        let d0 = Take { inner, remaining: limit };
        let mid = choose|mid: Take<D>|
            #[trigger] d0.yields(Some(ds[0]), mid) && produces(mid, ds.drop_first(), dend);
        lemma_take_produces(mid.inner, (limit - 1) as u64, ds.drop_first(), dend);
        assert(inner.yields(Some(ds[0]), mid.inner) && produces(mid.inner, ds.drop_first(), dend.inner));
    }
}

/// Retrying an operation that always fails retryably, over any strategy
/// truncated to `limit` delays whose underlying strategy is never exhausted,
/// makes exactly `limit + 1` attempts and waits exactly the `limit` delays
/// produced.
pub proof fn lemma_truncated_always_failing_run<D: DelayStrategy, R, E>(
    inner: D,
    limit: u64,
    trace: Seq<OperationResult<R, E>>,
    ds: Seq<Duration>,
    r: Result<R, Error<E>>,
)
    requires
        retry_run(Take { inner, remaining: limit }, trace, ds, r),
        trace.last() is Retry,
        limit < u64::MAX,
        forall|mid: D| !(#[trigger] exhausts(mid)),
    ensures
        ds.len() == limit,
        r == Result::<R, Error<E>>::Err(
            Error {
                error: trace.last()->Retry_0,
                total_delay: duration_sum(ds),
                tries: (limit + 1) as u64,
            },
        ),
{
    let d0 = Take { inner, remaining: limit };
    let dend = choose|dend: Take<D>|
        #[trigger] produces(d0, ds, dend) && (trace.last() is Retry ==> exhausts(dend)
            || trace.len() == u64::MAX);
    lemma_take_produces(inner, limit, ds, dend);
    if exhausts(dend) {
        let after = choose|after: Take<D>| dend.yields(None, after);
        if dend.remaining != 0 {
            assert(dend.inner.yields(None, after.inner));
            assert(exhausts(dend.inner));
        }
        assert(dend.remaining == 0);
    }
    lemma_all_attempts_fail(trace, ds);
}

/// No fixed-delay strategy is ever exhausted: the truncation law applies to it
/// with any limit.
pub proof fn lemma_fixed_never_exhausts()
    ensures
        forall|d: crate::delay::Fixed| !(#[trigger] exhausts(d)),
{
    assert forall|d: crate::delay::Fixed| !(#[trigger] exhausts(d)) by {
        if exhausts(d) {
            let after = choose|after: crate::delay::Fixed| d.yields(None, after);
        }
    }
}

/// The no-delay strategy is never exhausted: the truncation law applies to it
/// with any limit.
pub proof fn lemma_no_delay_never_exhausts()
    ensures
        forall|d: crate::delay::NoDelay| !(#[trigger] exhausts(d)),
{
    assert forall|d: crate::delay::NoDelay| !(#[trigger] exhausts(d)) by {
        if exhausts(d) {
            let after = choose|after: crate::delay::NoDelay| d.yields(None, after);
        }
    }
}

/// No exponential strategy is ever exhausted: the truncation law applies to it
/// with any limit.
pub proof fn lemma_exponential_never_exhausts()
    ensures
        forall|d: crate::delay::Exponential| !(#[trigger] exhausts(d)),
{
    assert forall|d: crate::delay::Exponential| !(#[trigger] exhausts(d)) by {
        if exhausts(d) {
            let after = choose|after: crate::delay::Exponential| d.yields(None, after);
        }
    }
}

/// No Fibonacci strategy is ever exhausted: the truncation law applies to it
/// with any limit.
pub proof fn lemma_fibonacci_never_exhausts()
    ensures
        forall|d: crate::delay::Fibonacci| !(#[trigger] exhausts(d)),
{
    assert forall|d: crate::delay::Fibonacci| !(#[trigger] exhausts(d)) by {
        if exhausts(d) {
            let after = choose|after: crate::delay::Fibonacci| d.yields(None, after);
        }
    }
}

/// A run whose last attempt succeeded returns that attempt's value, having
/// waited exactly one delay for each failed attempt before it.
pub proof fn lemma_eventual_success<R, E>(trace: Seq<OperationResult<R, E>>, ds: Seq<Duration>)
    requires
        run_shape(trace, ds),
        trace.last() is Success,
    ensures
        run_result(trace, ds) == Result::<R, Error<E>>::Ok(trace.last()->Success_0),
        ds.len() == trace.len() - 1,
{
}

/// A fatal failure on the first attempt reports one try and no delay waited,
/// whatever the delay strategy had left to offer.
pub proof fn lemma_fatal_on_first_attempt<R, E>(e: E)
    ensures
        run_result(seq![OperationResult::<R, E>::Fatal(e)], Seq::empty()) == Result::<R, Error<E>>::Err(
            Error { error: e, total_delay: Duration::spec_zero(), tries: 1u64 },
        ),
{
}

} // verus!
