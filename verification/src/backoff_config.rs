use crate::backoff::{Backoff, BackoffModel};
use crate::defaults;
use crate::duration::{
    duration_nanos, just_above, max_nanos, saturating_sum, shorter, MAX_NANOS,
};
use crate::factor::Factor;
use crate::nullable::Nullable;
use crate::outside::constant::ConstantModel;
use crate::outside::exponential::{with_factor_of, ExponentialModel};
use crate::outside::fibonacci::FibonacciModel;
use crate::outside::jitter::{ceiling, jitter_limit};
use crate::series::constant::{ConstantSeries, ConstantState};
use crate::series::exponential::{ExponentialSeries, ExponentialState};
use crate::series::fibonacci::{fibonacci_fits, scaled_fibonacci, FibonacciSeries};
use backon::{ConstantBuilder, ExponentialBuilder, FibonacciBuilder};
use core::time::Duration;
use vstd::prelude::*;

verus! {

/// Configuration for [`Backoff`].
#[derive(Debug, Clone, Copy, PartialEq)]
pub enum BackoffConfig {
    /// Configuration for [`Backoff::Constant`].
    Constant(ConstantBackoffConfig),
    /// Configuration for [`Backoff::Exponential`].
    Exponential(ExponentialBackoffConfig),
    /// Configuration for [`Backoff::Fibonacci`].
    Fibonacci(FibonacciBackoffConfig),
    /// Configuration for [`Backoff::NoBackoff`].
    NoBackoff,
}

/// Configuration for [`Backoff::Constant`].
#[derive(Debug, Clone, Copy, PartialEq)]
pub struct ConstantBackoffConfig {
    /// Backoff delay.
    ///
    /// Defaults to `500 millis` - see [`defaults::delay`].
    pub delay: Duration,
    /// Maximum amount of retries, or [`Nullable::Null`] for no limit.
    ///
    /// Defaults to `4` - see [`defaults::max_retries`].
    pub max_retries: Nullable<usize>,
    /// Whether jitter is enabled.
    ///
    /// Defaults to `true` - see [`defaults::jitter_enabled`].
    pub jitter_enabled: bool,
    /// Random seed to initialize the random jitter generator.
    ///
    /// Defaults to `None` - see [`defaults::jitter_seed`].
    pub jitter_seed: Option<u64>,
}

/// Configuration for [`Backoff::Exponential`].
#[derive(Debug, Clone, Copy, PartialEq)]
pub struct ExponentialBackoffConfig {
    /// Initial backoff delay.
    ///
    /// Defaults to `500 millis` - see [`defaults::delay`].
    pub initial_delay: Duration,
    /// Backoff factor.
    ///
    /// Defaults to `2` - see [`defaults::factor`].
    pub factor: Factor,
    /// Maximum backoff delay, or [`Nullable::Null`] for no limit.
    ///
    /// Defaults to `30 seconds` - see [`defaults::max_delay`].
    pub max_delay: Nullable<Duration>,
    /// Maximum amount of retries, or [`Nullable::Null`] for no limit.
    ///
    /// Defaults to `4` - see [`defaults::max_retries`].
    pub max_retries: Nullable<usize>,
    /// Maximum total backoff delay, or [`Nullable::Null`] for no limit.
    ///
    /// Defaults to `60 seconds` - see [`defaults::max_total_delay`].
    pub max_total_delay: Nullable<Duration>,
    /// Whether jitter is enabled.
    ///
    /// Defaults to `true` - see [`defaults::jitter_enabled`].
    pub jitter_enabled: bool,
    /// Random seed to initialize the random jitter generator.
    ///
    /// Defaults to `None` - see [`defaults::jitter_seed`].
    pub jitter_seed: Option<u64>,
}

/// Configuration for [`Backoff::Fibonacci`].
#[derive(Debug, Clone, Copy, PartialEq)]
pub struct FibonacciBackoffConfig {
    /// Initial backoff delay.
    ///
    /// Defaults to `500 millis` - see [`defaults::delay`].
    pub initial_delay: Duration,
    /// Maximum backoff delay, or [`Nullable::Null`] for no limit.
    ///
    /// Defaults to `30 seconds` - see [`defaults::max_delay`].
    pub max_delay: Nullable<Duration>,
    /// Maximum amount of retries, or [`Nullable::Null`] for no limit.
    ///
    /// Defaults to `4` - see [`defaults::max_retries`].
    pub max_retries: Nullable<usize>,
    /// Whether jitter is enabled.
    ///
    /// Defaults to `true` - see [`defaults::jitter_enabled`].
    pub jitter_enabled: bool,
    /// Random seed to initialize the random jitter generator.
    ///
    /// Defaults to `None` - see [`defaults::jitter_seed`].
    pub jitter_seed: Option<u64>,
}

impl From<ConstantBackoffConfig> for BackoffConfig {
    fn from(config: ConstantBackoffConfig) -> (backoff_config: BackoffConfig) {
        BackoffConfig::Constant(config)
    }
}

impl vstd::std_specs::convert::FromSpecImpl<ConstantBackoffConfig> for BackoffConfig {
    open spec fn obeys_from_spec() -> bool {
        true
    }

    open spec fn from_spec(config: ConstantBackoffConfig) -> BackoffConfig {
        BackoffConfig::Constant(config)
    }
}

impl From<ExponentialBackoffConfig> for BackoffConfig {
    fn from(config: ExponentialBackoffConfig) -> (backoff_config: BackoffConfig) {
        BackoffConfig::Exponential(config)
    }
}

impl vstd::std_specs::convert::FromSpecImpl<ExponentialBackoffConfig> for BackoffConfig {
    open spec fn obeys_from_spec() -> bool {
        true
    }

    open spec fn from_spec(config: ExponentialBackoffConfig) -> BackoffConfig {
        BackoffConfig::Exponential(config)
    }
}

impl From<FibonacciBackoffConfig> for BackoffConfig {
    fn from(config: FibonacciBackoffConfig) -> (backoff_config: BackoffConfig) {
        BackoffConfig::Fibonacci(config)
    }
}

impl vstd::std_specs::convert::FromSpecImpl<FibonacciBackoffConfig> for BackoffConfig {
    open spec fn obeys_from_spec() -> bool {
        true
    }

    open spec fn from_spec(config: FibonacciBackoffConfig) -> BackoffConfig {
        BackoffConfig::Fibonacci(config)
    }
}

impl Default for ConstantBackoffConfig {
    fn default() -> (config: ConstantBackoffConfig)
        ensures
            duration_nanos(config.delay) == 500_000_000,
            config.max_retries == Nullable::Value(4usize),
            config.jitter_enabled,
            config.jitter_seed is None,
    {
        ConstantBackoffConfig {
            delay: defaults::delay(),
            max_retries: defaults::max_retries(),
            jitter_enabled: defaults::jitter_enabled(),
            jitter_seed: defaults::jitter_seed(),
        }
    }
}

impl Default for ExponentialBackoffConfig {
    fn default() -> (config: ExponentialBackoffConfig)
        ensures
            duration_nanos(config.initial_delay) == 500_000_000,
            config.factor@ == 2_000_000_000,
            delay_bound(config.max_delay) == Some(30_000_000_000nat),
            config.max_retries == Nullable::Value(4usize),
            delay_bound(config.max_total_delay) == Some(60_000_000_000nat),
            config.jitter_enabled,
            config.jitter_seed is None,
    {
        ExponentialBackoffConfig {
            initial_delay: defaults::delay(),
            factor: defaults::factor(),
            max_delay: defaults::max_delay(),
            max_retries: defaults::max_retries(),
            max_total_delay: defaults::max_total_delay(),
            jitter_enabled: defaults::jitter_enabled(),
            jitter_seed: defaults::jitter_seed(),
        }
    }
}

impl Default for FibonacciBackoffConfig {
    fn default() -> (config: FibonacciBackoffConfig)
        ensures
            duration_nanos(config.initial_delay) == 500_000_000,
            delay_bound(config.max_delay) == Some(30_000_000_000nat),
            config.max_retries == Nullable::Value(4usize),
            config.jitter_enabled,
            config.jitter_seed is None,
    {
        FibonacciBackoffConfig {
            initial_delay: defaults::delay(),
            max_delay: defaults::max_delay(),
            max_retries: defaults::max_retries(),
            jitter_enabled: defaults::jitter_enabled(),
            jitter_seed: defaults::jitter_seed(),
        }
    }
}

/// A bound on a number of retries, as a number without a width.
pub open spec fn retries_bound(max_retries: Nullable<usize>) -> Option<nat> {
    match max_retries {
        Nullable::Value(max_retries) => Some(max_retries as nat),
        Nullable::Null => None,
    }
}

/// A bound on a delay, in nanoseconds.
pub open spec fn delay_bound(max_delay: Nullable<Duration>) -> Option<nat> {
    match max_delay {
        Nullable::Value(max_delay) => Some(duration_nanos(max_delay)),
        Nullable::Null => None,
    }
}

/// Whether an exponential or a Fibonacci backoff with that bound on its retries still has
/// one after `calls` calls. Without a bound, such a backoff ends when the count of its
/// calls has reached `usize::MAX`.
pub open spec fn within_retries(max_retries: Nullable<usize>, calls: nat) -> bool {
    match max_retries {
        Nullable::Value(max_retries) => calls < max_retries,
        Nullable::Null => calls < usize::MAX,
    }
}

/// The first delay of a backoff that starts at a delay of `initial_delay` nanoseconds and
/// keeps its delays at `bound`: the initial delay, held at the bound.
pub open spec fn first_delay(initial_delay: nat, bound: Option<nat>) -> nat {
    match bound {
        Some(bound) => if bound < initial_delay {
            bound
        } else {
            initial_delay
        },
        None => initial_delay,
    }
}

/// The state from which the random number generator of a backoff starts: the seed where
/// the configuration has one, and else whatever the process comes up with.
pub open spec fn first_rng(jitter_seed: Option<u64>, entropy: u64) -> u64 {
    match jitter_seed {
        Some(seed) => seed,
        None => entropy,
    }
}

impl ConstantBackoffConfig {
    /// The state of the backoff that the configuration builds. `entropy` stands for the
    /// seed that the process picks where the configuration has none.
    pub open spec fn initial_model(self, entropy: u64) -> ConstantState {
        ConstantState {
            generator: ConstantModel {
                delay: duration_nanos(self.delay),
                max_times: retries_bound(self.max_retries),
                attempts: 0,
                jitter: self.jitter_enabled,
                rng: first_rng(self.jitter_seed, entropy),
            },
            attempt_index: 0,
        }
    }

    /// Whether the backoff still has a retry after `calls` calls. Without a bound on the
    /// retries it always has: a constant backoff does not even count them then.
    pub open spec fn retries(self, calls: nat) -> bool {
        match self.max_retries {
            Nullable::Value(max_retries) => calls < max_retries,
            Nullable::Null => true,
        }
    }

    /// Whether every delay of the backoff is a length that a `Duration` can have: with
    /// jitter, the delay and the largest jitter on it are to fit together.
    pub open spec fn supported(self) -> bool {
        self.jitter_enabled ==> duration_nanos(self.delay) + jitter_limit(
            duration_nanos(self.delay),
        ) <= max_nanos()
    }

    /// Tells whether the configuration is [`supported`](Self::supported).
    pub fn is_supported(&self) -> (supported: bool)
        ensures
            supported == self.supported(),
    {
        !self.jitter_enabled || 3 * self.delay.as_nanos() + 1 <= MAX_NANOS
    }
}

impl ExponentialBackoffConfig {
    /// The bound at which the backoff keeps its delays before jitter: the maximum delay,
    /// and with a maximum total delay no more than one nanosecond above that. A delay
    /// above the total ends the backoff, however far above it is.
    pub open spec fn delay_cap(self) -> Option<nat> {
        match (self.max_delay, self.max_total_delay) {
            (max_delay, Nullable::Null) => delay_bound(max_delay),
            (Nullable::Null, Nullable::Value(total)) => Some(
                saturating_sum(duration_nanos(total), 1),
            ),
            (Nullable::Value(max_delay), Nullable::Value(total)) => Some(
                if duration_nanos(max_delay) <= saturating_sum(duration_nanos(total), 1) {
                    duration_nanos(max_delay)
                } else {
                    saturating_sum(duration_nanos(total), 1)
                },
            ),
        }
    }

    /// The state of the backoff that the configuration builds. `entropy` stands for the
    /// seed that the process picks where the configuration has none.
    pub open spec fn initial_model(self, entropy: u64) -> ExponentialState {
        self.model_with_cap(self.delay_cap(), entropy)
    }

    /// The state of a backoff of this configuration that has handed out nothing yet and
    /// keeps its delays before jitter at `cap`.
    pub open spec fn model_with_cap(self, cap: Option<nat>, entropy: u64) -> ExponentialState {
        ExponentialState {
            generator: ExponentialModel {
                jitter: self.jitter_enabled,
                rng: first_rng(self.jitter_seed, entropy),
                factor: self.factor.code(),
                min_delay: first_delay(duration_nanos(self.initial_delay), cap),
                max_delay: cap,
                max_times: retries_bound(self.max_retries),
                total_delay: delay_bound(self.max_total_delay),
                current_delay: None,
                cumulative_delay: 0,
                attempts: 0,
            },
            exhausted: false,
            attempt_index: 0,
        }
    }

    /// Whether the sum of the delays of the backoff stays a length that a `Duration` can
    /// have. Without a maximum total delay it does. With one, there has to be room for
    /// one more delay, jitter included, above the total, or else room for as many of the
    /// longest delays as the backoff has retries.
    pub open spec fn supported(self) -> bool {
        self.max_total_delay matches Nullable::Value(total) ==> {
            ||| duration_nanos(total) + ceiling(self.jitter_enabled, self.delay_cap()->0)
                <= max_nanos()
            ||| self.initial_model(0).generator.limit() * ceiling(
                self.jitter_enabled,
                self.delay_cap()->0,
            ) <= max_nanos()
        }
    }

    /// The bound at which the backoff keeps its delays before jitter.
    pub fn capped_max_delay(&self) -> (cap: Nullable<Duration>)
        ensures
            delay_bound(cap) == self.delay_cap(),
    {
        match (self.max_delay, self.max_total_delay) {
            (max_delay, Nullable::Null) => max_delay,
            (Nullable::Null, Nullable::Value(total)) => Nullable::Value(just_above(total)),
            (Nullable::Value(max_delay), Nullable::Value(total)) => Nullable::Value(
                shorter(max_delay, just_above(total)),
            ),
        }
    }

    /// Tells whether the configuration is [`supported`](Self::supported).
    pub fn is_supported(&self) -> (supported: bool)
        ensures
            supported == self.supported(),
    {
        match (self.max_total_delay, self.capped_max_delay()) {
            (Nullable::Value(total), Nullable::Value(cap)) => {
                let cap = cap.as_nanos();
                let most = if !self.jitter_enabled {
                    cap
                } else if 3 * cap + 1 <= MAX_NANOS {
                    3 * cap + 1
                } else {
                    MAX_NANOS
                };
                let retries = match self.max_retries {
                    Nullable::Value(max_retries) => max_retries,
                    Nullable::Null => usize::MAX,
                };
                assert(most * retries == retries * most) by (nonlinear_arith);
                total.as_nanos() + most <= MAX_NANOS || match most.checked_mul(retries as u128) {
                    Some(all) => all <= MAX_NANOS,
                    None => false,
                }
            },
            _ => true,
        }
    }
}

impl FibonacciBackoffConfig {
    /// The state of the backoff that the configuration builds. `entropy` stands for the
    /// seed that the process picks where the configuration has none.
    pub open spec fn initial_model(self, entropy: u64) -> FibonacciModel {
        FibonacciModel {
            jitter: self.jitter_enabled,
            rng: first_rng(self.jitter_seed, entropy),
            min_delay: first_delay(
                duration_nanos(self.initial_delay),
                delay_bound(self.max_delay),
            ),
            max_delay: delay_bound(self.max_delay),
            max_times: retries_bound(self.max_retries),
            previous_delay: None,
            current_delay: None,
            attempts: 0,
        }
    }

    /// Whether every delay of the backoff is a length that a `Duration` can have. Without
    /// jitter it is. With jitter, either there is room for four times the maximum delay,
    /// or the retries end before a delay and the jitter on top get too long.
    pub open spec fn supported(self) -> bool {
        self.jitter_enabled ==> {
            ||| self.max_delay matches Nullable::Value(max_delay) && 4 * duration_nanos(max_delay)
                + 1 <= max_nanos()
            ||| within_retries(self.max_retries, 0) ==> scaled_fibonacci(
                self.initial_model(0).min_delay,
                (self.initial_model(0).limit() - 1) as nat,
            ) + jitter_limit(self.initial_model(0).min_delay) <= max_nanos()
        }
    }

    /// Tells whether the configuration is [`supported`](Self::supported).
    pub fn is_supported(&self) -> (supported: bool)
        ensures
            supported == self.supported(),
    {
        if !self.jitter_enabled {
            return true;
        }
        let first = match self.max_delay {
            Nullable::Value(max_delay) => {
                if 4 * max_delay.as_nanos() + 1 <= MAX_NANOS {
                    return true;
                }
                shorter(self.initial_delay, max_delay)
            },
            Nullable::Null => self.initial_delay,
        };
        let retries = match self.max_retries {
            Nullable::Value(max_retries) => max_retries,
            Nullable::Null => usize::MAX,
        };
        fibonacci_fits(first.as_nanos(), retries)
    }
}

impl BackoffConfig {
    /// The state of the backoff that the configuration builds. `entropy` stands for the
    /// seed that the process picks where the configuration has none.
    pub open spec fn initial_model(self, entropy: u64) -> BackoffModel {
        match self {
            BackoffConfig::Constant(config) => BackoffModel::Constant(
                config.initial_model(entropy),
            ),
            BackoffConfig::Exponential(config) => BackoffModel::Exponential(
                config.initial_model(entropy),
            ),
            BackoffConfig::Fibonacci(config) => BackoffModel::Fibonacci(
                config.initial_model(entropy),
            ),
            BackoffConfig::NoBackoff => BackoffModel::NoBackoff,
        }
    }

    /// Whether jitter is enabled.
    pub open spec fn jitter_enabled(self) -> bool {
        match self {
            BackoffConfig::Constant(config) => config.jitter_enabled,
            BackoffConfig::Exponential(config) => config.jitter_enabled,
            BackoffConfig::Fibonacci(config) => config.jitter_enabled,
            BackoffConfig::NoBackoff => false,
        }
    }

    /// The jitter seed, if the configuration has one.
    pub open spec fn jitter_seed(self) -> Option<u64> {
        match self {
            BackoffConfig::Constant(config) => config.jitter_seed,
            BackoffConfig::Exponential(config) => config.jitter_seed,
            BackoffConfig::Fibonacci(config) => config.jitter_seed,
            BackoffConfig::NoBackoff => None,
        }
    }

    /// The configuration with `seed` for its jitter seed.
    pub open spec fn seeded(self, seed: u64) -> BackoffConfig {
        match self {
            BackoffConfig::Constant(config) => BackoffConfig::Constant(
                ConstantBackoffConfig { jitter_seed: Some(seed), ..config },
            ),
            BackoffConfig::Exponential(config) => BackoffConfig::Exponential(
                ExponentialBackoffConfig { jitter_seed: Some(seed), ..config },
            ),
            BackoffConfig::Fibonacci(config) => BackoffConfig::Fibonacci(
                FibonacciBackoffConfig { jitter_seed: Some(seed), ..config },
            ),
            BackoffConfig::NoBackoff => BackoffConfig::NoBackoff,
        }
    }

    /// Whether every delay of the backoff, and the sum of the delays where it is bounded,
    /// is a length that a `Duration` can have.
    pub open spec fn supported(self) -> bool {
        match self {
            BackoffConfig::Constant(config) => config.supported(),
            BackoffConfig::Exponential(config) => config.supported(),
            BackoffConfig::Fibonacci(config) => config.supported(),
            BackoffConfig::NoBackoff => true,
        }
    }

    /// Tells whether the configuration is [`supported`](Self::supported).
    pub fn is_supported(&self) -> (supported: bool)
        ensures
            supported == self.supported(),
    {
        match self {
            BackoffConfig::Constant(config) => config.is_supported(),
            BackoffConfig::Exponential(config) => config.is_supported(),
            BackoffConfig::Fibonacci(config) => config.is_supported(),
            BackoffConfig::NoBackoff => true,
        }
    }

    /// Builds the backoff that the configuration describes.
    ///
    /// The backoff starts with the initial delay, which a maximum delay bounds like any
    /// other delay. Its random number generator starts from the jitter seed; without
    /// one, from a state that the process picks.
    pub fn build(self) -> (backoff: Backoff)
        requires
            self.supported(),
        ensures
            backoff.wf(),
            backoff@ == self.initial_model(backoff@.rng()),
    {
        match self {
            BackoffConfig::Constant(
                ConstantBackoffConfig { delay, max_retries, jitter_enabled, jitter_seed },
            ) => {
                let mut builder = ConstantBuilder::new().with_delay(delay);
                builder = match max_retries {
                    Nullable::Value(max_retries) => builder.with_max_times(max_retries),
                    Nullable::Null => builder.without_max_times(),
                };

                if jitter_enabled {
                    builder = builder.with_jitter();
                }

                if let Some(jitter_seed) = jitter_seed {
                    builder = builder.with_jitter_seed(jitter_seed);
                }

                Backoff::Constant(ConstantSeries::start(builder))
            },
            BackoffConfig::Exponential(config) => {
                let ExponentialBackoffConfig {
                    initial_delay,
                    factor,
                    max_delay: _,
                    max_retries,
                    max_total_delay,
                    jitter_enabled,
                    jitter_seed,
                } = config;
                let mut builder = with_factor_of(ExponentialBuilder::new(), factor.seconds());
                builder = match config.capped_max_delay() {
                    Nullable::Value(max_delay) => builder.with_min_delay(
                        shorter(initial_delay, max_delay),
                    ).with_max_delay(max_delay),
                    Nullable::Null => builder.with_min_delay(initial_delay).without_max_delay(),
                };
                builder = match max_retries {
                    Nullable::Value(max_retries) => builder.with_max_times(max_retries),
                    Nullable::Null => builder.without_max_times(),
                };
                builder = match max_total_delay {
                    Nullable::Value(max_total_delay) => builder.with_total_delay(
                        Some(max_total_delay),
                    ),
                    Nullable::Null => builder.with_total_delay(None),
                };

                if jitter_enabled {
                    builder = builder.with_jitter();
                }

                if let Some(jitter_seed) = jitter_seed {
                    builder = builder.with_jitter_seed(jitter_seed);
                }

                Backoff::Exponential(ExponentialSeries::start(builder))
            },
            BackoffConfig::Fibonacci(
                FibonacciBackoffConfig {
                    initial_delay,
                    max_delay,
                    max_retries,
                    jitter_enabled,
                    jitter_seed,
                },
            ) => {
                let mut builder = match max_delay {
                    Nullable::Value(max_delay) => FibonacciBuilder::new().with_min_delay(
                        shorter(initial_delay, max_delay),
                    ).with_max_delay(max_delay),
                    Nullable::Null => FibonacciBuilder::new().with_min_delay(
                        initial_delay,
                    ).without_max_delay(),
                };
                builder = match max_retries {
                    Nullable::Value(max_retries) => builder.with_max_times(max_retries),
                    Nullable::Null => builder.without_max_times(),
                };
                let magnitudes = builder.with_jitter_seed(0);

                if jitter_enabled {
                    builder = builder.with_jitter();
                }

                if let Some(jitter_seed) = jitter_seed {
                    builder = builder.with_jitter_seed(jitter_seed);
                }

                Backoff::Fibonacci(FibonacciSeries::start(builder, magnitudes, max_delay))
            },
            BackoffConfig::NoBackoff => Backoff::NoBackoff,
        }
    }

    /// Builds the backoff that the configuration describes, with `entropy` in the place
    /// of what the process would pick: a configuration without jitter seed takes it for
    /// its seed.
    pub fn build_with_entropy(self, entropy: u64) -> (backoff: Backoff)
        requires
            self.supported(),
        ensures
            backoff.wf(),
            backoff@ == self.initial_model(entropy),
    {
        match self {
            BackoffConfig::Constant(config) => match config.jitter_seed {
                Some(_) => self.build(),
                None => BackoffConfig::Constant(
                    ConstantBackoffConfig { jitter_seed: Some(entropy), ..config },
                ).build(),
            },
            BackoffConfig::Exponential(config) => match config.jitter_seed {
                Some(_) => self.build(),
                None => BackoffConfig::Exponential(
                    ExponentialBackoffConfig { jitter_seed: Some(entropy), ..config },
                ).build(),
            },
            BackoffConfig::Fibonacci(config) => match config.jitter_seed {
                Some(_) => self.build(),
                None => BackoffConfig::Fibonacci(
                    FibonacciBackoffConfig { jitter_seed: Some(entropy), ..config },
                ).build(),
            },
            BackoffConfig::NoBackoff => Backoff::NoBackoff,
        }
    }

    /// Builds the backoff that the configuration describes, if the configuration is
    /// [`supported`](Self::supported).
    pub fn try_build(self) -> (backoff: Option<Backoff>)
        ensures
            backoff is Some <==> self.supported(),
            backoff matches Some(backoff) ==> backoff.wf() && backoff@ == self.initial_model(
                backoff@.rng(),
            ),
    {
        if self.is_supported() {
            Some(self.build())
        } else {
            None
        }
    }
}

} // verus!
