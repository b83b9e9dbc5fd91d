//! What holds of the delays of every backoff that a configuration builds.
//!
//! Each law speaks of the state that [`BackoffConfig::build`](crate::BackoffConfig::build)
//! promises, [`initial_model`](crate::BackoffConfig::initial_model), and of what the calls of
//! [`Backoff::next`](crate::Backoff::next) return from there on,
//! [`outcome`](crate::backoff::BackoffModel::outcome).
pub mod constant;
pub mod exponential;
pub mod fibonacci;
pub mod general;
