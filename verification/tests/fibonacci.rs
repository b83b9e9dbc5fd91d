use backoff_config::{Backoff, BackoffConfig, FibonacciBackoffConfig, Nullable};
use std::time::Duration;

fn fibonacci(
    initial_delay: Duration,
    max_delay: Nullable<Duration>,
    max_retries: Nullable<usize>,
) -> Backoff {
    BackoffConfig::Fibonacci(FibonacciBackoffConfig {
        initial_delay,
        max_delay,
        max_retries,
        jitter_enabled: false,
        jitter_seed: None,
    })
    .build()
}

fn of_millis(millis: &[u64]) -> Vec<Duration> {
    millis.iter().map(|millis| Duration::from_millis(*millis)).collect()
}

#[test]
fn fibonacci_scenario_below_the_maximum_delay() {
    let mut backoff = fibonacci(
        Duration::from_millis(100),
        Nullable::Value(Duration::from_millis(800)),
        Nullable::Value(5),
    );
    assert_eq!(backoff.take(100), of_millis(&[100, 100, 200, 300, 500]));
    assert_eq!(backoff.next(), None);
}

#[test]
fn fibonacci_follows_the_fibonacci_numbers() {
    let mut backoff = fibonacci(Duration::from_millis(7), Nullable::Null, Nullable::Value(12));
    assert_eq!(
        backoff.take(100),
        of_millis(&[7, 7, 14, 21, 35, 56, 91, 147, 238, 385, 623, 1008])
    );
}

#[test]
fn fibonacci_holds_each_delay_at_the_maximum_delay() {
    let mut backoff = fibonacci(
        Duration::from_millis(100),
        Nullable::Value(Duration::from_millis(250)),
        Nullable::Value(6),
    );
    assert_eq!(backoff.take(100), of_millis(&[100, 100, 200, 250, 250, 250]));

    let mut backoff = fibonacci(
        Duration::from_millis(100),
        Nullable::Value(Duration::from_millis(700)),
        Nullable::Value(8),
    );
    assert_eq!(
        backoff.take(100),
        of_millis(&[100, 100, 200, 300, 500, 700, 700, 700])
    );
}

#[test]
fn fibonacci_reaches_the_maximum_delay_exactly() {
    let mut backoff = fibonacci(
        Duration::from_millis(100),
        Nullable::Value(Duration::from_millis(800)),
        Nullable::Value(8),
    );
    assert_eq!(
        backoff.take(100),
        of_millis(&[100, 100, 200, 300, 500, 800, 800, 800])
    );
}

#[test]
fn fibonacci_holds_the_initial_delay_at_the_maximum_delay() {
    let mut backoff = fibonacci(
        Duration::from_millis(900),
        Nullable::Value(Duration::from_millis(800)),
        Nullable::Value(4),
    );
    assert_eq!(backoff.take(100), of_millis(&[800, 800, 800, 800]));
}

#[test]
fn fibonacci_without_retries_is_exhausted_at_once() {
    let mut backoff = fibonacci(
        Duration::from_millis(100),
        Nullable::Value(Duration::from_millis(800)),
        Nullable::Value(0),
    );
    assert_eq!(backoff.next(), None);
}

#[test]
fn fibonacci_with_zero_delay_stays_at_zero() {
    let mut backoff = fibonacci(Duration::ZERO, Nullable::Null, Nullable::Value(5));
    assert_eq!(backoff.take(100), vec![Duration::ZERO; 5]);
}

#[test]
fn fibonacci_saturates_at_the_longest_duration() {
    let mut backoff = fibonacci(
        Duration::from_secs(u64::MAX / 4),
        Nullable::Null,
        Nullable::Value(6),
    );
    let quarter = Duration::from_secs(u64::MAX / 4);
    assert_eq!(
        backoff.take(100),
        vec![
            quarter,
            quarter,
            quarter * 2,
            quarter * 3,
            Duration::MAX,
            Duration::MAX,
        ]
    );
}

#[test]
fn fibonacci_stays_exhausted() {
    let mut backoff = fibonacci(
        Duration::from_millis(1),
        Nullable::Value(Duration::from_millis(5)),
        Nullable::Value(3),
    );
    assert_eq!(backoff.take(10).len(), 3);
    for _ in 0..10 {
        assert_eq!(backoff.next(), None);
    }
}
