//! The deterministic delay strategies, their growth, and their saturation.

use retry::delay::{DelayStrategy, Exponential, Fibonacci, Fixed, NoDelay};
use retry::Duration;

#[test]
fn exponential_with_factor() {
    let mut iter = Exponential::from_millis_with_factor(1000, 2);
    assert_eq!(iter.next_delay(), Some(Duration::from_millis(1000)));
    assert_eq!(iter.next_delay(), Some(Duration::from_millis(2000)));
    assert_eq!(iter.next_delay(), Some(Duration::from_millis(4000)));
    assert_eq!(iter.next_delay(), Some(Duration::from_millis(8000)));
    assert_eq!(iter.next_delay(), Some(Duration::from_millis(16000)));
    assert_eq!(iter.next_delay(), Some(Duration::from_millis(32000)));
}

#[test]
fn exponential_overflow() {
    let mut iter = Exponential::from_millis(u64::MAX);
    assert_eq!(iter.next_delay(), Some(Duration::from_millis(u64::MAX)));
    assert_eq!(iter.next_delay(), Some(Duration::from_millis(u64::MAX)));
}

#[test]
fn exponential_with_base_factor() {
    let mut iter = Exponential::from_millis_with_base_factor(1000);
    assert_eq!(iter.next_delay(), Some(Duration::from_millis(1000)));
    assert_eq!(iter.next_delay(), Some(Duration::from_millis(1_000_000)));
    assert_eq!(iter.next_delay(), Some(Duration::from_millis(1_000_000_000)));
}

#[test]
fn fibonacci() {
    let mut iter = Fibonacci::from_millis(10);
    assert_eq!(iter.next_delay(), Some(Duration::from_millis(10)));
    assert_eq!(iter.next_delay(), Some(Duration::from_millis(10)));
    assert_eq!(iter.next_delay(), Some(Duration::from_millis(20)));
    assert_eq!(iter.next_delay(), Some(Duration::from_millis(30)));
    assert_eq!(iter.next_delay(), Some(Duration::from_millis(50)));
    assert_eq!(iter.next_delay(), Some(Duration::from_millis(80)));
}

#[test]
fn fibonacci_saturated() {
    let mut iter = Fibonacci::from_millis(u64::MAX);
    assert_eq!(iter.next_delay(), Some(Duration::from_millis(u64::MAX)));
    assert_eq!(iter.next_delay(), Some(Duration::from_millis(u64::MAX)));
}

#[test]
fn mod_exponential_with_factor() {
    let mut iter = Exponential::from_millis_with_factor(1000, 2);
    assert_eq!(iter.next_delay(), Some(Duration::from_millis(1000)));
    assert_eq!(iter.next_delay(), Some(Duration::from_millis(2000)));
    assert_eq!(iter.next_delay(), Some(Duration::from_millis(4000)));
    assert_eq!(iter.next_delay(), Some(Duration::from_millis(8000)));
    assert_eq!(iter.next_delay(), Some(Duration::from_millis(16000)));
    assert_eq!(iter.next_delay(), Some(Duration::from_millis(32000)));
}

#[test]
fn mod_exponential_overflow() {
    let mut iter = Exponential::from_millis(u64::MAX);
    assert_eq!(iter.next_delay(), Some(Duration::from_millis(u64::MAX)));
    assert_eq!(iter.next_delay(), Some(Duration::from_millis(u64::MAX)));
}

#[test]
fn mod_fibonacci() {
    let mut iter = Fibonacci::from_millis(10);
    assert_eq!(iter.next_delay(), Some(Duration::from_millis(10)));
    assert_eq!(iter.next_delay(), Some(Duration::from_millis(10)));
    assert_eq!(iter.next_delay(), Some(Duration::from_millis(20)));
    assert_eq!(iter.next_delay(), Some(Duration::from_millis(30)));
    assert_eq!(iter.next_delay(), Some(Duration::from_millis(50)));
    assert_eq!(iter.next_delay(), Some(Duration::from_millis(80)));
}

#[test]
fn mod_fibonacci_saturated() {
    let mut iter = Fibonacci::from_millis(u64::MAX);
    assert_eq!(iter.next_delay(), Some(Duration::from_millis(u64::MAX)));
    assert_eq!(iter.next_delay(), Some(Duration::from_millis(u64::MAX)));
}

#[test]
fn fixed_delay_from_duration() {
    assert_eq!(
        Fixed::from_millis(1_000).next_delay(),
        Fixed::from(Duration::from_secs(1)).next_delay(),
    );
}

#[test]
fn backoff_from_duration() {
    let mut exponential = Exponential::from(Duration::from_secs(1));
    assert_eq!(exponential.next_delay(), Some(Duration::from_millis(1000)));
    assert_eq!(exponential.next_delay(), Some(Duration::from_millis(2000)));

    let mut fibonacci = Fibonacci::from(Duration::from_millis(10));
    assert_eq!(fibonacci.next_delay(), Some(Duration::from_millis(10)));
    assert_eq!(fibonacci.next_delay(), Some(Duration::from_millis(10)));
    assert_eq!(fibonacci.next_delay(), Some(Duration::from_millis(20)));
}

#[test]
fn no_delay_yields_zero() {
    let mut iter = NoDelay;
    assert_eq!(iter.next_delay(), Some(Duration::from_millis(0)));
    assert_eq!(iter.next_delay(), Some(Duration::from_millis(0)));
}

#[test]
fn take_truncates() {
    let mut iter = Fixed::from_millis(7).take(2);
    assert_eq!(iter.next_delay(), Some(Duration::from_millis(7)));
    assert_eq!(iter.next_delay(), Some(Duration::from_millis(7)));
    assert_eq!(iter.next_delay(), None);
    assert_eq!(iter.next_delay(), None);
}

#[test]
fn duration_from_millis_splits_components() {
    let d = Duration::from_millis(1_234);
    assert_eq!(d.as_secs(), 1);
    assert_eq!(d.subsec_nanos(), 234_000_000);
    assert_eq!(d.as_millis(), 1_234);
}

#[test]
fn duration_saturating_add_saturates() {
    let max = Duration::new(u64::MAX, 999_999_999);
    let sum = max.saturating_add(Duration::from_millis(1));
    assert_eq!(sum, max);
    let small = Duration::from_millis(1_500).saturating_add(Duration::from_millis(600));
    assert_eq!(small, Duration::from_millis(2_100));
}
