//! The generators of the `backon` crate, as the library sees them.
//!
//! For each of backon's three generators this holds a model of its state, a step function
//! that says what one call of `next` does to that state, and the contracts that Verus
//! takes on trust for backon's builder and for `build` and `next`. Nothing in these
//! contracts is proved: they restate backon's source, one function at a time.
pub mod constant;
pub mod exponential;
pub mod fibonacci;
pub mod jitter;
