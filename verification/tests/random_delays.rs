//! The randomized delays: range sampling stays within its bounds, invalid
//! ranges are rejected, and jitter only ever shrinks a duration.

use retry::delay::{jitter, DelayStrategy, InvalidRange, Range};
use retry::Duration;

#[test]
fn range_uniform() {
    let mut range = Range::from_millis_exclusive(0, 1);
    assert_eq!(Duration::from_millis(0), range.next_delay().unwrap());
    assert_eq!(Duration::from_millis(0), range.next_delay().unwrap());
    assert_eq!(Duration::from_millis(0), range.next_delay().unwrap());
}

#[test]
fn try_range_uniform() {
    assert!(Range::try_from_millis_exclusive(0, 1).is_ok());
    assert!(Range::try_from_millis_inclusive(0, 1).is_ok());

    assert!(Range::try_from_millis_exclusive(1, 0).is_err());
    assert!(Range::try_from_millis_inclusive(1, 0).is_err());
}

#[test]
fn invalid_range_is_reported() {
    assert_eq!(Range::try_from_millis_exclusive(5, 5).unwrap_err(), InvalidRange);
    assert_eq!(Range::try_from_millis_inclusive(6, 5).unwrap_err(), InvalidRange);
    assert!(Range::try_from_millis_inclusive(5, 5).is_ok());
}

#[test]
fn range_samples_stay_within_bounds() {
    let mut range = Range::from_millis_exclusive(1, 10);
    for _ in 0..100 {
        let millis = range.next_delay().unwrap().as_millis();
        assert!(1 <= millis && millis < 10);
    }
}

#[test]
fn range_inclusive_single_point() {
    let mut range = Range::from_millis_inclusive(5, 5);
    assert_eq!(range.next_delay(), Some(Duration::from_millis(5)));
}

#[test]
fn test_jitter() {
    assert_eq!(Duration::from_millis(0), jitter(Duration::from_millis(0)));
    assert!(Duration::from_millis(0) < jitter(Duration::from_millis(2)));
}

#[test]
fn jitter_never_grows() {
    for millis in [1u64, 2, 999, 1_000, 1_001, 123_456_789] {
        let base = Duration::from_millis(millis);
        let jittered = jitter(base);
        assert!(jittered <= base);
    }
}

#[test]
fn jittered_strategy_shrinks_fixed_delays() {
    let mut strategy = retry::delay::Jittered { inner: retry::delay::Fixed::from_millis(50) };
    for _ in 0..20 {
        let d = strategy.next_delay().unwrap();
        assert!(d <= Duration::from_millis(50));
    }
}
