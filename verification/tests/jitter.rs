use backoff_config::outside::jitter::RNG_INCREMENT;
use backoff_config::{
    BackoffConfig, ConstantBackoffConfig, ExponentialBackoffConfig, Factor,
    FibonacciBackoffConfig, Nullable,
};
use std::time::Duration;

fn constant_with_seed(jitter_seed: Option<u64>) -> BackoffConfig {
    BackoffConfig::Constant(ConstantBackoffConfig {
        delay: Duration::from_secs(1),
        max_retries: Nullable::Value(3),
        jitter_enabled: true,
        jitter_seed,
    })
}

fn exponential_with_seed(jitter_seed: Option<u64>) -> BackoffConfig {
    BackoffConfig::Exponential(ExponentialBackoffConfig {
        initial_delay: Duration::from_millis(100),
        factor: Factor::from_thousandths(2000).unwrap(),
        max_delay: Nullable::Value(Duration::from_millis(800)),
        max_retries: Nullable::Value(5),
        max_total_delay: Nullable::Value(Duration::from_secs(1000)),
        jitter_enabled: true,
        jitter_seed,
    })
}

fn fibonacci_with_seed(jitter_seed: Option<u64>) -> BackoffConfig {
    BackoffConfig::Fibonacci(FibonacciBackoffConfig {
        initial_delay: Duration::from_millis(100),
        max_delay: Nullable::Value(Duration::from_millis(250)),
        max_retries: Nullable::Value(6),
        jitter_enabled: true,
        jitter_seed,
    })
}

fn to_millis(delays: Vec<Duration>) -> Vec<u128> {
    delays.iter().map(|delay| delay.as_millis()).collect()
}

#[test]
fn jitter_follows_the_seed() {
    assert_eq!(
        to_millis(constant_with_seed(Some(0)).build().take(100)),
        vec![1552, 1096, 1593]
    );
    assert_eq!(
        to_millis(constant_with_seed(Some(7)).build().take(100)),
        vec![1439, 1269, 1402]
    );
    assert_eq!(
        to_millis(constant_with_seed(Some(1337)).build().take(100)),
        vec![1315, 1773, 1086]
    );
}

#[test]
fn backoffs_with_the_same_seed_agree() {
    for config in [
        constant_with_seed(Some(42)),
        exponential_with_seed(Some(42)),
        fibonacci_with_seed(Some(42)),
    ] {
        let first = config.build().take(100);
        let second = config.build().take(100);
        assert!(!first.is_empty());
        assert_eq!(first, second);
    }
}

#[test]
fn entropy_stands_in_for_a_missing_seed() {
    for (unseeded, seeded) in [
        (constant_with_seed(None), constant_with_seed(Some(7))),
        (exponential_with_seed(None), exponential_with_seed(Some(7))),
        (fibonacci_with_seed(None), fibonacci_with_seed(Some(7))),
    ] {
        let from_entropy = unseeded.build_with_entropy(7).take(100);
        assert_eq!(from_entropy, seeded.build().take(100));
        assert_eq!(from_entropy, seeded.build_with_entropy(99).take(100));
    }
}

#[test]
fn seed_is_idle_without_jitter() {
    let config = |jitter_seed| {
        BackoffConfig::Constant(ConstantBackoffConfig {
            delay: Duration::from_secs(1),
            max_retries: Nullable::Value(3),
            jitter_enabled: false,
            jitter_seed,
        })
    };
    let expected = vec![Duration::from_secs(1); 3];
    assert_eq!(config(None).build().take(100), expected);
    assert_eq!(config(Some(0)).build().take(100), expected);
    assert_eq!(config(Some(7)).build_with_entropy(3).take(100), expected);
}

#[test]
fn constant_jitter_stays_between_the_delay_and_its_double() {
    for seed in 0..200 {
        for delay in constant_with_seed(Some(seed)).build().take(100) {
            assert!(delay >= Duration::from_secs(1));
            assert!(delay <= Duration::from_secs(2));
        }
    }
    for delay in constant_with_seed(None).build().take(100) {
        assert!(delay >= Duration::from_secs(1));
        assert!(delay <= Duration::from_secs(2));
    }
}

#[test]
fn exponential_jitter_stays_between_the_delay_and_its_double() {
    let bases = [100u64, 200, 400, 800, 800];
    for seed in 0..200 {
        let delays = exponential_with_seed(Some(seed)).build().take(100);
        assert_eq!(delays.len(), 5);
        for (delay, base) in delays.iter().zip(bases) {
            assert!(*delay >= Duration::from_millis(base));
            assert!(*delay <= Duration::from_millis(2 * base));
        }
    }
}

#[test]
fn fibonacci_jitter_is_drawn_on_the_initial_delay() {
    let bases = [100u64, 100, 200, 250, 250, 250];
    for seed in 0..200 {
        let delays = fibonacci_with_seed(Some(seed)).build().take(100);
        assert_eq!(delays.len(), 6);
        for (delay, base) in delays.iter().zip(bases) {
            assert!(*delay >= Duration::from_millis(base));
            assert!(*delay <= Duration::from_millis(base + 100));
        }
    }
}

#[test]
fn fibonacci_jitter_sits_on_the_delay_held_at_the_maximum() {
    assert_eq!(
        fibonacci_with_seed(Some(0)).build().take(100),
        vec![
            Duration::from_nanos(155_215_359),
            Duration::from_nanos(109_604_466),
            Duration::from_nanos(259_337_832),
            Duration::from_nanos(265_421_033),
            Duration::from_nanos(287_761_953),
            Duration::from_nanos(347_944_312),
        ]
    );
}

#[test]
fn jitter_does_not_change_the_number_of_delays() {
    assert_eq!(constant_with_seed(None).build().take(100).len(), 3);
    assert_eq!(exponential_with_seed(None).build().take(100).len(), 5);
    assert_eq!(fibonacci_with_seed(None).build().take(100).len(), 6);
}

#[test]
fn a_draw_adds_the_increment_to_the_state_of_the_generator() {
    for seed in [0u64, 1, 7, 1337, u64::MAX, u64::MAX - RNG_INCREMENT, u64::MAX / 2] {
        let mut rng = fastrand::Rng::with_seed(seed);
        rng.f32();
        assert_eq!(rng.get_seed(), seed.wrapping_add(RNG_INCREMENT));
        rng.f32();
        assert_eq!(
            rng.get_seed(),
            seed.wrapping_add(RNG_INCREMENT).wrapping_add(RNG_INCREMENT)
        );
    }
}

#[test]
fn constant_jitter_is_the_delay_times_a_draw() {
    for seed in [0u64, 9, 1337, u64::MAX] {
        let delay = Duration::from_secs(1);
        let mut rng = fastrand::Rng::with_seed(seed);
        let expected: Vec<Duration> = (0..3).map(|_| delay + delay.mul_f32(rng.f32())).collect();
        assert_eq!(constant_with_seed(Some(seed)).build().take(100), expected);
    }
}

#[test]
fn exponential_jitter_is_the_delay_times_a_draw() {
    for seed in [0u64, 9, 1337, u64::MAX] {
        let mut rng = fastrand::Rng::with_seed(seed);
        let expected: Vec<Duration> = [100u64, 200, 400, 800, 800]
            .into_iter()
            .map(|base| {
                let base = if base == 100 {
                    Duration::from_millis(100)
                } else {
                    Duration::try_from_secs_f32(base as f32 / 1000.0)
                        .unwrap()
                        .min(Duration::from_millis(800))
                };
                base.saturating_add(base.mul_f32(rng.f32()))
            })
            .collect();
        assert_eq!(exponential_with_seed(Some(seed)).build().take(100), expected);
    }
}

#[test]
fn fibonacci_jitter_is_the_initial_delay_times_a_draw() {
    for seed in [0u64, 9, 1337, u64::MAX] {
        let initial_delay = Duration::from_millis(100);
        let mut rng = fastrand::Rng::with_seed(seed);
        let expected: Vec<Duration> = [100u64, 100, 200, 250, 250, 250]
            .into_iter()
            .map(|base| Duration::from_millis(base) + initial_delay.mul_f32(rng.f32()))
            .collect();
        assert_eq!(fibonacci_with_seed(Some(seed)).build().take(100), expected);
    }
}
