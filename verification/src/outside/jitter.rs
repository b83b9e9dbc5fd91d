//! The random part of a jittered delay.
//!
//! A backon generator with jitter holds a `fastrand::Rng`, whose whole state is one `u64`.
//! For each delay it draws one `f32` below `1.0` from it and multiplies a base delay by
//! that number with `Duration::mul_f32`. How the number comes out of the state and how the
//! product is rounded cannot be written out here, so the product gets a name. What a draw
//! does to the state is one addition.
use crate::duration::saturating_sum;
use vstd::prelude::*;

verus! {

/// The nanoseconds of `base.mul_f32(r)`, where `base` is the `Duration` of `base` nanoseconds
/// and `r` is the number that `fastrand::Rng::f32` returns on a generator whose state is
/// `rng`.
pub uninterp spec fn jitter_nanos(base: nat, rng: u64) -> nat;

/// The number that `fastrand::Rng` adds to its state at each draw.
pub const RNG_INCREMENT: u64 = 0x2d35_8dcc_aa6c_78a5;

/// The state in which `fastrand::Rng::f32` leaves a generator that it found in state
/// `rng`: it draws once, and a draw adds [`RNG_INCREMENT`] to the state, wrapping around.
///
/// This is fastrand 2.3, which the crate asks for by its exact version. From 2.4 on
/// `f32` draws another way, and can draw more than once.
pub open spec fn rng_after_draw(rng: u64) -> u64 {
    if rng + RNG_INCREMENT <= u64::MAX {
        (rng + RNG_INCREMENT) as u64
    } else {
        (rng + RNG_INCREMENT - u64::MAX - 1) as u64
    }
}

/// An upper bound of the jitter drawn on a base of `base` nanoseconds.
///
/// backon documents the jitter as less than the base. The product is rounded more than
/// once on its way, so the bound claimed here is generous: twice the base and one
/// nanosecond.
pub open spec fn jitter_limit(base: nat) -> nat {
    2 * base + 1
}

/// An upper bound of a delay of `magnitude` nanoseconds once its jitter, if any, has been
/// added with `Duration::saturating_add`.
pub open spec fn ceiling(jitter: bool, magnitude: nat) -> nat {
    if jitter {
        saturating_sum(magnitude, jitter_limit(magnitude))
    } else {
        magnitude
    }
}

} // verus!
