//! From settings as they are written down to a configuration.
use crate::backoff_config::{
    BackoffConfig, ConstantBackoffConfig, ExponentialBackoffConfig, FibonacciBackoffConfig,
};
use crate::defaults;
use crate::duration::duration_nanos;
use crate::factor::Factor;
use crate::nullable::Nullable;
use core::time::Duration;
use vstd::prelude::*;

verus! {

/// Why settings make no configuration.
#[derive(Debug, Clone, Copy, PartialEq, Eq, Structural)]
pub enum ConfigError {
    /// A setting has a value that makes no sense: the factor of an exponential backoff
    /// is not above zero.
    InvalidConfiguration,
    /// The strategy is none of `Constant`, `Exponential`, `Fibonacci` and `NoBackoff`.
    UnknownStrategy,
}

/// The settings of a backoff as they are written down. Any of them may be left out, and
/// takes its default then - see [`defaults`]. A bound that is written down as
/// [`Nullable::Null`] is lifted.
///
/// A strategy reads the settings that it has, and no others.
#[derive(Debug, Clone, Copy, PartialEq)]
pub struct BackoffSettings {
    /// Backoff delay of the constant backoff.
    pub delay: Option<Duration>,
    /// Initial backoff delay of the exponential and the Fibonacci backoff.
    pub initial_delay: Option<Duration>,
    /// Backoff factor of the exponential backoff, in thousandths.
    pub factor: Option<i64>,
    /// Maximum backoff delay of the exponential and the Fibonacci backoff.
    pub max_delay: Option<Nullable<Duration>>,
    /// Maximum amount of retries.
    pub max_retries: Option<Nullable<usize>>,
    /// Maximum total backoff delay of the exponential backoff.
    pub max_total_delay: Option<Nullable<Duration>>,
    /// Whether jitter is enabled.
    pub jitter_enabled: Option<bool>,
    /// Random seed to initialize the random jitter generator.
    pub jitter_seed: Option<u64>,
}

/// Whether `resolved` is the delay that was written down, or else a delay of
/// `default_nanos` nanoseconds.
pub open spec fn delay_resolved(given: Option<Duration>, default_nanos: nat, resolved: Duration) -> bool {
    match given {
        Some(delay) => resolved == delay,
        None => duration_nanos(resolved) == default_nanos,
    }
}

/// Whether `resolved` is the bound on a delay that was written down, or else a bound of
/// `default_nanos` nanoseconds.
pub open spec fn bound_resolved(
    given: Option<Nullable<Duration>>,
    default_nanos: nat,
    resolved: Nullable<Duration>,
) -> bool {
    match given {
        Some(bound) => resolved == bound,
        None => resolved matches Nullable::Value(delay) && duration_nanos(delay) == default_nanos,
    }
}

/// The bound on the retries that was written down, or else four retries.
pub open spec fn retries_resolved(given: Option<Nullable<usize>>) -> Nullable<usize> {
    match given {
        Some(bound) => bound,
        None => Nullable::Value(4),
    }
}

/// Whether jitter is enabled: as it was written down, or else enabled.
pub open spec fn jitter_resolved(given: Option<bool>) -> bool {
    match given {
        Some(enabled) => enabled,
        None => true,
    }
}

/// The factor that was written down, or else two, in thousandths.
pub open spec fn factor_resolved(given: Option<i64>) -> int {
    match given {
        Some(factor) => factor as int,
        None => 2000,
    }
}

impl BackoffSettings {
    /// Why the settings make no configuration of the `strategy`, if they make none.
    pub open spec fn refused(self, strategy: Seq<char>) -> Option<ConfigError> {
        if strategy == "Constant"@ {
            None
        } else if strategy == "Exponential"@ {
            if factor_resolved(self.factor) <= 0 {
                Some(ConfigError::InvalidConfiguration)
            } else {
                None
            }
        } else if strategy == "Fibonacci"@ || strategy == "NoBackoff"@ {
            None
        } else {
            Some(ConfigError::UnknownStrategy)
        }
    }

    /// Whether `config` is the configuration of the `strategy` that the settings make:
    /// each of its fields as it was written down, or else at its default.
    pub open spec fn resolves_to(self, strategy: Seq<char>, config: BackoffConfig) -> bool {
        if strategy == "Constant"@ {
            &&& config matches BackoffConfig::Constant(config)
            &&& delay_resolved(self.delay, 500_000_000, config.delay)
            &&& config.max_retries == retries_resolved(self.max_retries)
            &&& config.jitter_enabled == jitter_resolved(self.jitter_enabled)
            &&& config.jitter_seed == self.jitter_seed
        } else if strategy == "Exponential"@ {
            &&& config matches BackoffConfig::Exponential(config)
            &&& delay_resolved(self.initial_delay, 500_000_000, config.initial_delay)
            &&& config.factor@ == factor_resolved(self.factor) * 1_000_000
            &&& bound_resolved(self.max_delay, 30_000_000_000, config.max_delay)
            &&& config.max_retries == retries_resolved(self.max_retries)
            &&& bound_resolved(self.max_total_delay, 60_000_000_000, config.max_total_delay)
            &&& config.jitter_enabled == jitter_resolved(self.jitter_enabled)
            &&& config.jitter_seed == self.jitter_seed
        } else if strategy == "Fibonacci"@ {
            &&& config matches BackoffConfig::Fibonacci(config)
            &&& delay_resolved(self.initial_delay, 500_000_000, config.initial_delay)
            &&& bound_resolved(self.max_delay, 30_000_000_000, config.max_delay)
            &&& config.max_retries == retries_resolved(self.max_retries)
            &&& config.jitter_enabled == jitter_resolved(self.jitter_enabled)
            &&& config.jitter_seed == self.jitter_seed
        } else {
            strategy == "NoBackoff"@ && config is NoBackoff
        }
    }

    /// Settings with nothing written down.
    pub fn new() -> (settings: BackoffSettings)
        ensures
            settings == (BackoffSettings {
                delay: None,
                initial_delay: None,
                factor: None,
                max_delay: None,
                max_retries: None,
                max_total_delay: None,
                jitter_enabled: None,
                jitter_seed: None,
            }),
    {
        BackoffSettings {
            delay: None,
            initial_delay: None,
            factor: None,
            max_delay: None,
            max_retries: None,
            max_total_delay: None,
            jitter_enabled: None,
            jitter_seed: None,
        }
    }

    /// Makes the configuration of the `strategy` out of the settings: every setting that
    /// was left out takes its default.
    ///
    /// Fails with [`ConfigError::UnknownStrategy`] where the strategy is not known, and
    /// with [`ConfigError::InvalidConfiguration`] where the factor of an exponential backoff
    /// is not above zero.
    pub fn resolve(&self, strategy: &str) -> (result: Result<BackoffConfig, ConfigError>)
        ensures
            match result {
                Ok(config) => self.refused(strategy@) is None && self.resolves_to(
                    strategy@,
                    config,
                ),
                Err(error) => self.refused(strategy@) == Some(error),
            },
    {
        let max_retries = match self.max_retries {
            Some(max_retries) => max_retries,
            None => defaults::max_retries(),
        };
        let jitter_enabled = match self.jitter_enabled {
            Some(jitter_enabled) => jitter_enabled,
            None => defaults::jitter_enabled(),
        };
        let jitter_seed = match self.jitter_seed {
            Some(jitter_seed) => Some(jitter_seed),
            None => defaults::jitter_seed(),
        };
        if same(strategy, "Constant") {
            Ok(
                BackoffConfig::Constant(
                    ConstantBackoffConfig {
                        delay: match self.delay {
                            Some(delay) => delay,
                            None => defaults::delay(),
                        },
                        max_retries,
                        jitter_enabled,
                        jitter_seed,
                    },
                ),
            )
        } else if same(strategy, "Exponential") {
            let factor = match self.factor {
                Some(factor) => if factor > 0 {
                    Factor::from_thousandths(factor as u64)
                } else {
                    None
                },
                None => Some(defaults::factor()),
            };
            match factor {
                Some(factor) => Ok(
                    BackoffConfig::Exponential(
                        ExponentialBackoffConfig {
                            initial_delay: match self.initial_delay {
                                Some(initial_delay) => initial_delay,
                                None => defaults::delay(),
                            },
                            factor,
                            max_delay: match self.max_delay {
                                Some(max_delay) => max_delay,
                                None => defaults::max_delay(),
                            },
                            max_retries,
                            max_total_delay: match self.max_total_delay {
                                Some(max_total_delay) => max_total_delay,
                                None => defaults::max_total_delay(),
                            },
                            jitter_enabled,
                            jitter_seed,
                        },
                    ),
                ),
                None => Err(ConfigError::InvalidConfiguration),
            }
        } else if same(strategy, "Fibonacci") {
            Ok(
                BackoffConfig::Fibonacci(
                    FibonacciBackoffConfig {
                        initial_delay: match self.initial_delay {
                            Some(initial_delay) => initial_delay,
                            None => defaults::delay(),
                        },
                        max_delay: match self.max_delay {
                            Some(max_delay) => max_delay,
                            None => defaults::max_delay(),
                        },
                        max_retries,
                        jitter_enabled,
                        jitter_seed,
                    },
                ),
            )
        } else if same(strategy, "NoBackoff") {
            Ok(BackoffConfig::NoBackoff)
        } else {
            Err(ConfigError::UnknownStrategy)
        }
    }
}

/// Tells whether two strings are the same.
fn same(left: &str, right: &str) -> (same: bool)
    ensures
        same == (left@ == right@),
{
    left.to_owned() == right.to_owned()
}

} // verus!
