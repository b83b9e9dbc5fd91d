use backoff_config::duration::{just_above, shorter, MAX_NANOS};
use backoff_config::{
    defaults, BackoffConfig, ConstantBackoffConfig, ExponentialBackoffConfig, Factor,
    FibonacciBackoffConfig, Nullable,
};
use std::time::Duration;

#[test]
fn default_values() {
    assert_eq!(defaults::delay(), Duration::from_millis(500));
    assert_eq!(defaults::max_retries(), Nullable::Value(4));
    assert!(defaults::jitter_enabled());
    assert_eq!(defaults::jitter_seed(), None);
    assert_eq!(defaults::factor().billionths(), 2_000_000_000);
    assert_eq!(defaults::factor().seconds(), Duration::from_secs(2));
    assert_eq!(defaults::max_delay(), Nullable::Value(Duration::from_secs(30)));
    assert_eq!(
        defaults::max_total_delay(),
        Nullable::Value(Duration::from_secs(60))
    );
}

#[test]
fn default_backoffs_hand_out_four_delays() {
    let configs = [
        BackoffConfig::Constant(ConstantBackoffConfig::default()),
        BackoffConfig::Exponential(ExponentialBackoffConfig::default()),
        BackoffConfig::Fibonacci(FibonacciBackoffConfig::default()),
    ];
    for config in configs {
        assert!(config.is_supported());
        let delays = config.build().take(100);
        assert_eq!(delays.len(), 4);
        assert!(delays.iter().all(|delay| *delay >= Duration::from_millis(500)));
    }
}

#[test]
fn factor_is_above_zero() {
    assert_eq!(Factor::from_thousandths(0), None);
    assert_eq!(Factor::from_billionths(0), None);
    assert_eq!(Factor::from_billionths(1).unwrap().billionths(), 1);
    assert_eq!(
        Factor::from_thousandths(1).unwrap().billionths(),
        1_000_000
    );
    assert_eq!(
        Factor::from_thousandths(2500).unwrap().billionths(),
        2_500_000_000
    );
    assert_eq!(
        Factor::from_thousandths(u64::MAX).unwrap().billionths(),
        u64::MAX as u128 * 1_000_000
    );
    assert_eq!(
        Factor::from_billionths(u64::MAX).unwrap().billionths(),
        u64::MAX as u128
    );
}

#[test]
fn factor_counts_in_thousandths_and_in_billionths_alike() {
    assert_eq!(
        Factor::from_thousandths(1500),
        Factor::from_billionths(1_500_000_000)
    );
    assert_eq!(
        Factor::from_thousandths(1),
        Factor::from_billionths(1_000_000)
    );
    assert_ne!(
        Factor::from_thousandths(1000),
        Factor::from_billionths(1_000_000_001)
    );
    assert_eq!(
        Factor::from_thousandths(3500).unwrap().seconds(),
        Duration::from_millis(3500)
    );
    assert_eq!(
        Factor::from_billionths(1_000_500_000).unwrap().seconds(),
        Duration::new(1, 500_000)
    );
}

#[test]
fn nullable_is_null_or_a_value() {
    let bound: Nullable<usize> = Nullable::Value(3);
    let copy = bound;
    assert_eq!(bound, copy);
    assert_eq!(bound.clone(), Nullable::Value(3));
    assert_ne!(bound, Nullable::Null);
    assert_ne!(Nullable::Value(3), Nullable::Value(4));
    assert_eq!(Nullable::<usize>::Null, Nullable::Null);
}

#[test]
fn shorter_picks_the_shorter_duration() {
    let short = Duration::from_millis(1);
    let long = Duration::from_secs(1);
    assert_eq!(shorter(short, long), short);
    assert_eq!(shorter(long, short), short);
    assert_eq!(shorter(long, long), long);
    assert_eq!(shorter(Duration::MAX, Duration::ZERO), Duration::ZERO);
}

#[test]
fn just_above_adds_a_nanosecond() {
    assert_eq!(just_above(Duration::ZERO), Duration::from_nanos(1));
    assert_eq!(
        just_above(Duration::from_secs(60)),
        Duration::new(60, 1)
    );
    assert_eq!(just_above(Duration::MAX), Duration::MAX);
}

#[test]
fn exponential_delays_are_kept_just_above_the_total_at_most() {
    let config = |max_delay, max_total_delay| ExponentialBackoffConfig {
        initial_delay: Duration::from_millis(100),
        factor: Factor::from_thousandths(2000).unwrap(),
        max_delay,
        max_retries: Nullable::Value(5),
        max_total_delay,
        jitter_enabled: false,
        jitter_seed: None,
    };
    let second = Duration::from_secs(1);
    let minute = Duration::from_secs(60);
    assert_eq!(
        config(Nullable::Null, Nullable::Null).capped_max_delay(),
        Nullable::Null
    );
    assert_eq!(
        config(Nullable::Value(minute), Nullable::Null).capped_max_delay(),
        Nullable::Value(minute)
    );
    assert_eq!(
        config(Nullable::Null, Nullable::Value(minute)).capped_max_delay(),
        Nullable::Value(Duration::new(60, 1))
    );
    assert_eq!(
        config(Nullable::Value(second), Nullable::Value(minute)).capped_max_delay(),
        Nullable::Value(second)
    );
    assert_eq!(
        config(Nullable::Value(minute), Nullable::Value(second)).capped_max_delay(),
        Nullable::Value(Duration::new(1, 1))
    );
}

#[test]
fn max_nanos_is_the_longest_duration() {
    assert_eq!(Duration::MAX.as_nanos(), MAX_NANOS);
}

#[test]
fn backoff_without_jitter_is_always_supported() {
    let configs = [
        BackoffConfig::Constant(ConstantBackoffConfig {
            delay: Duration::MAX,
            max_retries: Nullable::Null,
            jitter_enabled: false,
            jitter_seed: None,
        }),
        BackoffConfig::Exponential(ExponentialBackoffConfig {
            initial_delay: Duration::MAX,
            factor: Factor::from_thousandths(2000).unwrap(),
            max_delay: Nullable::Null,
            max_retries: Nullable::Null,
            max_total_delay: Nullable::Null,
            jitter_enabled: false,
            jitter_seed: None,
        }),
        BackoffConfig::Fibonacci(FibonacciBackoffConfig {
            initial_delay: Duration::MAX,
            max_delay: Nullable::Null,
            max_retries: Nullable::Null,
            jitter_enabled: false,
            jitter_seed: None,
        }),
        BackoffConfig::NoBackoff,
    ];
    for config in configs {
        assert!(config.is_supported());
        assert!(config.try_build().is_some());
    }
    let mut longest = configs[0].build();
    assert_eq!(longest.take(2), vec![Duration::MAX; 2]);
}

#[test]
fn constant_jitter_needs_room_above_the_delay() {
    let config = |delay| {
        BackoffConfig::Constant(ConstantBackoffConfig {
            delay,
            max_retries: Nullable::Value(3),
            jitter_enabled: true,
            jitter_seed: Some(1),
        })
    };
    let third = Duration::from_secs(u64::MAX / 3);
    assert!(config(third).is_supported());
    assert!(config(third).try_build().is_some());
    assert!(!config(third + Duration::from_secs(1)).is_supported());
    assert!(config(third + Duration::from_secs(1)).try_build().is_none());
    assert!(!config(Duration::MAX).is_supported());
    assert!(config(Duration::MAX).try_build().is_none());
}

#[test]
fn exponential_total_needs_room_for_one_more_delay() {
    let config = |max_delay, max_total_delay, jitter_enabled| {
        BackoffConfig::Exponential(ExponentialBackoffConfig {
            initial_delay: Duration::from_millis(100),
            factor: Factor::from_thousandths(2000).unwrap(),
            max_delay,
            max_retries: Nullable::Value(5),
            max_total_delay,
            jitter_enabled,
            jitter_seed: None,
        })
    };
    let minute = Nullable::Value(Duration::from_secs(60));
    let longest = Nullable::Value(Duration::MAX);
    let half = Nullable::Value(Duration::from_secs(u64::MAX / 2));
    assert!(config(minute, minute, true).is_supported());
    assert!(config(Nullable::Null, Nullable::Null, true).is_supported());
    assert!(config(longest, Nullable::Null, true).is_supported());
    assert!(config(Nullable::Null, minute, true).is_supported());
    assert!(config(longest, minute, true).is_supported());
    assert!(config(longest, Nullable::Value(Duration::ZERO), false).is_supported());
    assert!(config(minute, half, false).is_supported());
    assert!(config(minute, longest, false).is_supported());
    assert!(config(minute, longest, true).is_supported());
    assert!(config(Nullable::Null, half, false).is_supported());
    assert!(!config(
        Nullable::Null,
        Nullable::Value(Duration::from_secs(u64::MAX / 2 + 1)),
        false
    )
    .is_supported());
    assert!(!config(longest, half, true).is_supported());
    assert!(config(longest, half, true).try_build().is_none());
    assert!(config(Nullable::Null, minute, true).try_build().is_some());
}

#[test]
fn exponential_total_of_the_longest_duration_is_no_budget() {
    let config = |max_retries| {
        BackoffConfig::Exponential(ExponentialBackoffConfig {
            initial_delay: Duration::from_secs(1),
            factor: Factor::from_thousandths(2000).unwrap(),
            max_delay: Nullable::Value(Duration::from_secs(60)),
            max_retries,
            max_total_delay: Nullable::Value(Duration::MAX),
            jitter_enabled: false,
            jitter_seed: None,
        })
    };
    assert!(config(Nullable::Value(5)).is_supported());
    assert!(!config(Nullable::Null).is_supported());
    assert_eq!(
        config(Nullable::Value(8)).build().take(100),
        vec![1u64, 2, 4, 8, 16, 32, 60, 60]
            .into_iter()
            .map(Duration::from_secs)
            .collect::<Vec<_>>()
    );
}

#[test]
fn exponential_total_ends_a_backoff_without_maximum_delay() {
    let mut backoff = BackoffConfig::Exponential(ExponentialBackoffConfig {
        initial_delay: Duration::from_secs(1),
        factor: Factor::from_thousandths(2000).unwrap(),
        max_delay: Nullable::Null,
        max_retries: Nullable::Null,
        max_total_delay: Nullable::Value(Duration::from_secs(100)),
        jitter_enabled: false,
        jitter_seed: None,
    })
    .build();
    assert_eq!(
        backoff.take(1000),
        vec![1u64, 2, 4, 8, 16, 32]
            .into_iter()
            .map(Duration::from_secs)
            .collect::<Vec<_>>()
    );
    assert_eq!(backoff.next(), None);
}

#[test]
fn exponential_total_below_the_initial_delay_ends_the_backoff_at_once() {
    for max_delay in [
        Nullable::Null,
        Nullable::Value(Duration::from_secs(30)),
        Nullable::Value(Duration::from_millis(50)),
    ] {
        let mut backoff = BackoffConfig::Exponential(ExponentialBackoffConfig {
            initial_delay: Duration::from_millis(100),
            factor: Factor::from_thousandths(2000).unwrap(),
            max_delay,
            max_retries: Nullable::Value(5),
            max_total_delay: Nullable::Value(Duration::from_millis(40)),
            jitter_enabled: false,
            jitter_seed: None,
        })
        .build();
        assert_eq!(backoff.next(), None);
        assert_eq!(backoff.next(), None);
    }
}

#[test]
fn fibonacci_jitter_needs_a_bound_on_the_delay_or_on_the_retries() {
    let config = |initial_delay, max_delay, max_retries, jitter_enabled| {
        BackoffConfig::Fibonacci(FibonacciBackoffConfig {
            initial_delay,
            max_delay,
            max_retries,
            jitter_enabled,
            jitter_seed: None,
        })
    };
    let second = Duration::from_secs(1);
    let quarter = Duration::from_secs(u64::MAX / 4);
    let five = Nullable::Value(5);
    assert!(config(second, Nullable::Value(quarter), Nullable::Null, true).is_supported());
    assert!(config(second, Nullable::Null, five, true).is_supported());
    assert!(config(second, Nullable::Value(Duration::MAX), five, true).is_supported());
    assert!(config(second, Nullable::Null, Nullable::Value(93), true).is_supported());
    assert!(!config(second, Nullable::Null, Nullable::Value(94), true).is_supported());
    assert!(config(second, Nullable::Null, Nullable::Value(94), false).is_supported());
    assert!(config(Duration::from_nanos(1), Nullable::Null, Nullable::Value(136), true)
        .is_supported());
    assert!(!config(Duration::from_nanos(1), Nullable::Null, Nullable::Value(137), true)
        .is_supported());
    assert!(config(Duration::ZERO, Nullable::Null, Nullable::Null, true).is_supported());
    assert!(!config(second, Nullable::Null, Nullable::Null, true).is_supported());
    assert!(!config(
        second,
        Nullable::Value(quarter + second),
        Nullable::Null,
        true
    )
    .is_supported());
    assert!(config(quarter, Nullable::Null, Nullable::Value(1), true).is_supported());
    assert!(!config(Duration::MAX, Nullable::Null, Nullable::Value(1), true).is_supported());
    assert!(config(Duration::MAX, Nullable::Null, Nullable::Value(0), true).is_supported());
    assert!(config(second, Nullable::Null, Nullable::Null, true).try_build().is_none());
    assert!(config(second, Nullable::Null, five, true).try_build().is_some());
}

#[test]
fn fibonacci_jitter_without_maximum_delay() {
    let mut backoff = BackoffConfig::Fibonacci(FibonacciBackoffConfig {
        initial_delay: Duration::from_millis(100),
        max_delay: Nullable::Null,
        max_retries: Nullable::Value(8),
        jitter_enabled: true,
        jitter_seed: Some(3),
    })
    .build();
    let bases = [100u64, 100, 200, 300, 500, 800, 1300, 2100];
    let delays = backoff.take(100);
    assert_eq!(delays.len(), 8);
    for (delay, base) in delays.iter().zip(bases) {
        assert!(*delay >= Duration::from_millis(base));
        assert!(*delay <= Duration::from_millis(base + 100));
    }
}
