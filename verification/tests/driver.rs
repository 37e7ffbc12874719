//! The blocking retry driver: success, exhaustion, fatal failures, and the
//! attempt index.

use retry::delay::{DelayStrategy, Exponential, Fixed, NoDelay, Range};
use retry::{
    retry, retry_with_index, Duration, Error, Operation, OperationResult, OperationWithIndex, Sleep,
};

/// A sleeper that records the delays it was asked to wait instead of pausing.
struct RecordingSleep {
    slept: Vec<Duration>,
}

impl RecordingSleep {
    fn new() -> RecordingSleep {
        RecordingSleep { slept: Vec::new() }
    }
}

impl Sleep for RecordingSleep {
    fn sleep(&mut self, duration: &Duration) {
        self.slept.push(*duration);
    }
}

/// An operation that walks a collection and succeeds on its target value,
/// classifying each plain result as the conversion from `Result` does.
struct SeekTarget {
    collection: std::vec::IntoIter<u64>,
    target: u64,
    error: &'static str,
}

impl Operation<u64, &'static str> for SeekTarget {
    fn attempt(&mut self) -> OperationResult<u64, &'static str> {
        let outcome: Result<u64, &'static str> = match self.collection.next() {
            Some(n) if n == self.target => Ok(n),
            _ => Err(self.error),
        };
        OperationResult::from(outcome)
    }
}

/// An operation whose every failure is fatal.
struct SeekOrAbort {
    collection: std::vec::IntoIter<u64>,
    target: u64,
}

impl Operation<u64, &'static str> for SeekOrAbort {
    fn attempt(&mut self) -> OperationResult<u64, &'static str> {
        match self.collection.next() {
            Some(n) if n == self.target => OperationResult::Success(n),
            Some(_) => OperationResult::Fatal("no retry"),
            None => OperationResult::Fatal("not 2"),
        }
    }
}

/// An operation that never succeeds.
struct AlwaysFail;

impl Operation<u64, &'static str> for AlwaysFail {
    fn attempt(&mut self) -> OperationResult<u64, &'static str> {
        OperationResult::Retry("boom")
    }
}

/// An operation that succeeds when the collection value equals the attempt
/// number.
struct SeekIndex {
    collection: std::vec::IntoIter<u64>,
}

impl OperationWithIndex<u64, &'static str> for SeekIndex {
    fn attempt(&mut self, current_try: u64) -> OperationResult<u64, &'static str> {
        let outcome: Result<u64, &'static str> = match self.collection.next() {
            Some(n) if n == current_try => Ok(n),
            _ => Err("not current_try"),
        };
        OperationResult::from(outcome)
    }
}

#[test]
fn outcome_classification() {
    let success: OperationResult<i32, &str> = OperationResult::Success(-3);
    assert_eq!(success.is_ok(), true);
    assert_eq!(success.is_retry(), false);
    assert_eq!(success.is_err(), false);

    let transient: OperationResult<i32, &str> = OperationResult::Retry("some error message");
    assert_eq!(transient.is_ok(), false);
    assert_eq!(transient.is_retry(), true);
    assert_eq!(transient.is_err(), false);

    let fatal: OperationResult<i32, &str> = OperationResult::Fatal("some other error message");
    assert_eq!(fatal.is_ok(), false);
    assert_eq!(fatal.is_retry(), false);
    assert_eq!(fatal.is_err(), true);
}

#[test]
fn plain_results_convert_to_retryable_outcomes() {
    let success: OperationResult<i32, &str> = OperationResult::from(Ok(7));
    assert_eq!(success, OperationResult::Success(7));

    let failure: OperationResult<i32, &str> = Err("transient").into();
    assert_eq!(failure, OperationResult::Retry("transient"));
}

#[test]
fn error_exposes_its_cause() {
    let error = Error { error: "boom", total_delay: Duration::from_millis(5), tries: 2 };
    assert_eq!(*error.cause(), "boom");
}

#[test]
fn succeeds_with_infinite_retries() {
    let operation = SeekTarget {
        collection: vec![1, 2, 3, 4, 5].into_iter(),
        target: 5,
        error: "not 5",
    };
    let value = retry(NoDelay, &mut RecordingSleep::new(), operation).unwrap();

    assert_eq!(value, 5);
}

#[test]
fn succeeds_with_maximum_retries() {
    let operation = SeekTarget { collection: vec![1, 2].into_iter(), target: 2, error: "not 2" };
    let value = retry(NoDelay.take(1), &mut RecordingSleep::new(), operation).unwrap();

    assert_eq!(value, 2);
}

#[test]
fn fails_after_last_try() {
    let operation = SeekTarget { collection: vec![1].into_iter(), target: 2, error: "not 2" };
    let res = retry(NoDelay.take(1), &mut RecordingSleep::new(), operation);

    assert_eq!(
        res,
        Err(Error { error: "not 2", tries: 2, total_delay: Duration::from_millis(0) })
    );
}

#[test]
fn fatal_errors() {
    let operation = SeekOrAbort { collection: vec![1].into_iter(), target: 2 };
    let res = retry(NoDelay.take(2), &mut RecordingSleep::new(), operation);

    assert_eq!(
        res,
        Err(Error { error: "no retry", tries: 1, total_delay: Duration::from_millis(0) })
    );
}

#[test]
fn succeeds_with_fixed_delay() {
    let operation = SeekTarget { collection: vec![1, 2].into_iter(), target: 2, error: "not 2" };
    let value = retry(Fixed::from_millis(1), &mut RecordingSleep::new(), operation).unwrap();

    assert_eq!(value, 2);
}

#[test]
fn succeeds_with_exponential_delay() {
    let operation = SeekTarget { collection: vec![1, 2].into_iter(), target: 2, error: "not 2" };
    let value = retry(Exponential::from_millis(1), &mut RecordingSleep::new(), operation).unwrap();

    assert_eq!(value, 2);
}

#[test]
fn succeeds_with_exponential_delay_with_factor() {
    let operation = SeekTarget { collection: vec![1, 2].into_iter(), target: 2, error: "not 2" };
    let value = retry(
        Exponential::from_millis_with_factor(1000, 2),
        &mut RecordingSleep::new(),
        operation,
    )
    .unwrap();

    assert_eq!(value, 2);
}

#[test]
fn succeeds_with_ranged_delay() {
    let operation = SeekTarget { collection: vec![1, 2].into_iter(), target: 2, error: "not 2" };
    let value = retry(
        Range::from_millis_exclusive(1, 10),
        &mut RecordingSleep::new(),
        operation,
    )
    .unwrap();

    assert_eq!(value, 2);
}

#[test]
fn succeeds_with_index() {
    let operation = SeekIndex { collection: vec![1, 2, 3].into_iter() };
    let value = retry_with_index(NoDelay, &mut RecordingSleep::new(), operation).unwrap();

    assert_eq!(value, 1);
}

#[test]
fn always_failing_run_counts_each_delay() {
    let mut sleeper = RecordingSleep::new();
    let res = retry(Fixed::from_millis(10).take(3), &mut sleeper, AlwaysFail);

    assert_eq!(
        res,
        Err(Error { error: "boom", tries: 4, total_delay: Duration::from_millis(30) })
    );
    assert_eq!(
        sleeper.slept,
        vec![
            Duration::from_millis(10),
            Duration::from_millis(10),
            Duration::from_millis(10),
        ]
    );
}

#[test]
fn success_on_third_attempt_waits_twice() {
    let operation = SeekTarget { collection: vec![1, 2, 3].into_iter(), target: 3, error: "not 3" };
    let mut sleeper = RecordingSleep::new();
    let value = retry(Fixed::from_millis(5).take(5), &mut sleeper, operation).unwrap();

    assert_eq!(value, 3);
    assert_eq!(sleeper.slept, vec![Duration::from_millis(5), Duration::from_millis(5)]);
}

#[test]
fn empty_strategy_allows_one_attempt() {
    let res = retry(NoDelay.take(0), &mut RecordingSleep::new(), AlwaysFail);

    assert_eq!(
        res,
        Err(Error { error: "boom", tries: 1, total_delay: Duration::from_millis(0) })
    );
}

#[test]
fn fibonacci_delays_add_up() {
    let mut sleeper = RecordingSleep::new();
    let res = retry(
        retry::delay::Fibonacci::from_millis(10).take(4),
        &mut sleeper,
        AlwaysFail,
    );

    assert_eq!(
        res,
        Err(Error { error: "boom", tries: 5, total_delay: Duration::from_millis(70) })
    );
}
