//! Declarative backoff strategies.
//!
//! A [`BackoffConfig`] describes how to pace the retries of a failing operation: with a
//! constant delay, with exponentially or Fibonacci-growing delays, or not at all. Its
//! [`build`](BackoffConfig::build) turns the description into a [`Backoff`], a generator that
//! hands out one delay per failed attempt until it is exhausted.
//!
//! The delays themselves are computed by the `backon` crate. What this crate adds is stated
//! in contracts and proved: which delays a description stands for, when a generator stops,
//! and that the bounds of a description are kept.
pub mod backoff;
pub mod backoff_config;
pub mod defaults;
pub mod duration;
pub mod factor;
pub mod laws;
pub mod nullable;
pub mod outside;
pub mod series;
pub mod settings;
pub mod tally;

pub use crate::backoff::Backoff;
pub use crate::backoff_config::{
    BackoffConfig, ConstantBackoffConfig, ExponentialBackoffConfig, FibonacciBackoffConfig,
};
pub use crate::factor::Factor;
pub use crate::nullable::Nullable;
pub use crate::settings::{BackoffSettings, ConfigError};
