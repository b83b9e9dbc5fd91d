//! The three kinds of delay series that a [`Backoff`](crate::Backoff) can hold.
//!
//! Each wraps the generator of the `backon` crate that computes its delays, says in a
//! `step` function on the generator's model what one call of `next` does, and adds what
//! the library promises beyond that: a bound that is kept exactly, and an end that is
//! final.
pub mod constant;
pub mod exponential;
pub mod fibonacci;
