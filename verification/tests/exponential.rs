use backoff_config::{Backoff, BackoffConfig, ExponentialBackoffConfig, Factor, Nullable};
use std::time::Duration;

fn exponential(
    initial_millis: u64,
    thousandths: u64,
    max_delay: Nullable<Duration>,
    max_retries: Nullable<usize>,
    max_total_delay: Nullable<Duration>,
) -> Backoff {
    BackoffConfig::Exponential(ExponentialBackoffConfig {
        initial_delay: Duration::from_millis(initial_millis),
        factor: Factor::from_thousandths(thousandths).unwrap(),
        max_delay,
        max_retries,
        max_total_delay,
        jitter_enabled: false,
        jitter_seed: None,
    })
    .build()
}

fn in_millis(delays: Vec<Duration>) -> Vec<u128> {
    delays.iter().map(|delay| delay.as_millis()).collect()
}

#[test]
fn exponential_scenario_held_at_the_maximum_delay() {
    let mut backoff = exponential(
        100,
        2000,
        Nullable::Value(Duration::from_millis(800)),
        Nullable::Value(5),
        Nullable::Null,
    );
    assert_eq!(in_millis(backoff.take(100)), vec![100, 200, 400, 800, 800]);
    assert_eq!(backoff.next(), None);
}

#[test]
fn exponential_scenario_cut_by_the_maximum_total_delay() {
    let mut backoff = exponential(
        100,
        2000,
        Nullable::Value(Duration::from_millis(800)),
        Nullable::Value(5),
        Nullable::Value(Duration::from_millis(1501)),
    );
    assert_eq!(in_millis(backoff.take(100)), vec![100, 200, 400, 800]);
    assert_eq!(backoff.next(), None);
}

#[test]
fn exponential_grows_without_bound_where_there_is_no_maximum_delay() {
    let mut backoff = exponential(100, 2000, Nullable::Null, Nullable::Value(6), Nullable::Null);
    assert_eq!(
        in_millis(backoff.take(100)),
        vec![100, 200, 400, 800, 1600, 3200]
    );
}

#[test]
fn exponential_grows_by_its_factor() {
    let mut backoff = exponential(100, 3000, Nullable::Null, Nullable::Value(3), Nullable::Null);
    assert_eq!(in_millis(backoff.take(100)), vec![100, 300, 900]);

    let mut backoff = exponential(100, 1500, Nullable::Null, Nullable::Value(4), Nullable::Null);
    assert_eq!(in_millis(backoff.take(100)), vec![100, 150, 225, 337]);

    let mut backoff = exponential(100, 1000, Nullable::Null, Nullable::Value(3), Nullable::Null);
    assert_eq!(in_millis(backoff.take(100)), vec![100, 100, 100]);
}

#[test]
fn exponential_shrinks_with_a_factor_below_one() {
    let mut backoff = exponential(800, 500, Nullable::Null, Nullable::Value(4), Nullable::Null);
    assert_eq!(in_millis(backoff.take(100)), vec![800, 400, 200, 100]);
}

#[test]
fn exponential_multiplies_in_single_precision() {
    let mut backoff = BackoffConfig::Exponential(ExponentialBackoffConfig {
        initial_delay: Duration::from_nanos(1_000_000_001),
        factor: Factor::from_thousandths(1000).unwrap(),
        max_delay: Nullable::Null,
        max_retries: Nullable::Value(3),
        max_total_delay: Nullable::Null,
        jitter_enabled: false,
        jitter_seed: None,
    })
    .build();
    assert_eq!(
        backoff.take(100),
        vec![
            Duration::from_nanos(1_000_000_001),
            Duration::from_nanos(1_000_000_000),
            Duration::from_nanos(1_000_000_000),
        ]
    );
}

#[test]
fn exponential_holds_the_initial_delay_at_the_maximum_delay() {
    let mut backoff = exponential(
        900,
        2000,
        Nullable::Value(Duration::from_millis(800)),
        Nullable::Value(3),
        Nullable::Null,
    );
    assert_eq!(
        backoff.take(100),
        vec![Duration::from_millis(800); 3]
    );
}

#[test]
fn exponential_never_passes_the_maximum_delay() {
    for max_millis in [1u64, 150, 799, 800, 801, 5000] {
        let max_delay = Duration::from_millis(max_millis);
        let mut backoff = exponential(
            100,
            2000,
            Nullable::Value(max_delay),
            Nullable::Value(12),
            Nullable::Null,
        );
        let delays = backoff.take(100);
        assert_eq!(delays.len(), 12);
        assert!(delays.iter().all(|delay| *delay <= max_delay));
    }
}

#[test]
fn exponential_keeps_the_sum_within_the_maximum_total_delay() {
    for total_millis in [0u64, 99, 100, 299, 300, 1499, 1500, 1501, 2299, 2300, 100_000] {
        let total = Duration::from_millis(total_millis);
        let mut backoff = exponential(
            100,
            2000,
            Nullable::Value(Duration::from_millis(800)),
            Nullable::Value(8),
            Nullable::Value(total),
        );
        let delays = backoff.take(100);
        let sum: Duration = delays.iter().sum();
        assert!(sum <= total);
        assert_eq!(backoff.next(), None);
    }
}

#[test]
fn exponential_ends_exactly_where_the_next_delay_passes_the_total() {
    let with_total = |total_millis: u64| {
        in_millis(
            exponential(
                1000,
                2000,
                Nullable::Value(Duration::from_secs(8)),
                Nullable::Value(5),
                Nullable::Value(Duration::from_millis(total_millis)),
            )
            .take(100),
        )
    };
    assert_eq!(with_total(999), Vec::<u128>::new());
    assert_eq!(with_total(1000), vec![1000]);
    assert_eq!(with_total(14_999), vec![1000, 2000, 4000]);
    assert_eq!(with_total(15_000), vec![1000, 2000, 4000, 8000]);
    assert_eq!(with_total(22_999), vec![1000, 2000, 4000, 8000]);
    assert_eq!(with_total(23_000), vec![1000, 2000, 4000, 8000, 8000]);
}

#[test]
fn exponential_without_retries_is_exhausted_at_once() {
    let mut backoff = exponential(
        100,
        2000,
        Nullable::Value(Duration::from_millis(800)),
        Nullable::Value(0),
        Nullable::Null,
    );
    assert_eq!(backoff.next(), None);
}

#[test]
fn exponential_stays_exhausted_after_the_budget_ended_it() {
    let mut backoff = BackoffConfig::Exponential(ExponentialBackoffConfig {
        initial_delay: Duration::from_millis(100),
        factor: Factor::from_thousandths(2000).unwrap(),
        max_delay: Nullable::Value(Duration::from_millis(800)),
        max_retries: Nullable::Value(10),
        max_total_delay: Nullable::Value(Duration::from_millis(1000)),
        jitter_enabled: true,
        jitter_seed: Some(0),
    })
    .build();
    assert_eq!(in_millis(backoff.take(100)), vec![155, 219]);
    for _ in 0..10 {
        assert_eq!(backoff.next(), None);
    }
}

#[test]
fn exponential_saturates_at_the_longest_duration() {
    let mut backoff = BackoffConfig::Exponential(ExponentialBackoffConfig {
        initial_delay: Duration::from_secs(1),
        factor: Factor::from_thousandths(10_000_000_000_000).unwrap(),
        max_delay: Nullable::Null,
        max_retries: Nullable::Value(4),
        max_total_delay: Nullable::Null,
        jitter_enabled: false,
        jitter_seed: None,
    })
    .build();
    assert_eq!(
        backoff.take(100),
        vec![
            Duration::from_secs(1),
            Duration::from_secs(10_000_000_000),
            Duration::MAX,
            Duration::MAX,
        ]
    );
}

#[test]
fn exponential_total_makes_a_longer_maximum_delay_moot() {
    let with_max_delay = |max_delay| {
        BackoffConfig::Exponential(ExponentialBackoffConfig {
            initial_delay: Duration::from_secs(1),
            factor: Factor::from_thousandths(3000).unwrap(),
            max_delay,
            max_retries: Nullable::Value(20),
            max_total_delay: Nullable::Value(Duration::from_secs(50)),
            jitter_enabled: true,
            jitter_seed: Some(11),
        })
        .build()
        .take(100)
    };
    let delays = with_max_delay(Nullable::Null);
    assert!(!delays.is_empty());
    assert_eq!(delays, with_max_delay(Nullable::Value(Duration::MAX)));
    assert_eq!(delays, with_max_delay(Nullable::Value(Duration::from_secs(1000))));
    assert_eq!(delays, with_max_delay(Nullable::Value(Duration::from_secs(51))));
}

#[test]
fn exponential_factor_is_taken_in_single_precision() {
    for billionths in [1_000_500_000u64, 1_100_000_000, 771_269_023, 2_718_281_828, 1] {
        let factor = Factor::from_billionths(billionths).unwrap();
        let float = factor.seconds().as_secs_f32();
        let initial_delay = Duration::from_millis(700);
        let mut backoff = BackoffConfig::Exponential(ExponentialBackoffConfig {
            initial_delay,
            factor,
            max_delay: Nullable::Null,
            max_retries: Nullable::Value(4),
            max_total_delay: Nullable::Null,
            jitter_enabled: false,
            jitter_seed: None,
        })
        .build();
        let mut expected = vec![initial_delay];
        for _ in 0..3 {
            let last = *expected.last().unwrap();
            expected.push(
                Duration::try_from_secs_f32(float * last.as_secs_f32()).unwrap_or(Duration::MAX),
            );
        }
        assert_eq!(backoff.take(100), expected);
    }
}
