use crate::duration::duration_nanos;
use crate::outside::exponential::factor_code;
use core::time::Duration;
use vstd::prelude::*;

verus! {

/// The factor by which an exponential backoff grows, counted in billionths: a factor of
/// 2,000,000,000 doubles each delay, one of 1,500,000,000 adds a half to it.
///
/// A factor is above zero.
#[derive(Debug, Clone, Copy, PartialEq, Eq)]
pub struct Factor {
    whole: u64,
    billionths: u32,
}

impl View for Factor {
    type V = nat;

    /// The factor in billionths.
    closed spec fn view(&self) -> nat {
        (self.whole * 1_000_000_000 + self.billionths) as nat
    }
}

impl Factor {
    #[verifier::type_invariant]
    spec fn positive(self) -> bool {
        self.billionths < 1_000_000_000 && (self.whole > 0 || self.billionths > 0)
    }

    /// The factor as the generator of the delays holds it: in single precision, and here
    /// by the bits of that number.
    pub open spec fn code(self) -> nat {
        factor_code(self@)
    }

    /// The factor of that many thousandths, or `None` for zero.
    pub fn from_thousandths(thousandths: u64) -> (factor: Option<Factor>)
        ensures
            factor is Some <==> thousandths > 0,
            factor matches Some(f) ==> f@ == thousandths * 1_000_000,
    {
        if thousandths > 0 {
            let fraction: u64 = (thousandths % 1000) * 1_000_000;
            Some(Factor { whole: thousandths / 1000, billionths: fraction as u32 })
        } else {
            None
        }
    }

    /// The factor of that many billionths, or `None` for zero.
    pub fn from_billionths(billionths: u64) -> (factor: Option<Factor>)
        ensures
            factor is Some <==> billionths > 0,
            factor matches Some(f) ==> f@ == billionths,
    {
        if billionths > 0 {
            let fraction: u64 = billionths % 1_000_000_000;
            Some(Factor { whole: billionths / 1_000_000_000, billionths: fraction as u32 })
        } else {
            None
        }
    }

    /// The factor in billionths.
    pub fn billionths(&self) -> (billionths: u128)
        ensures
            billionths == self@,
            billionths > 0,
    {
        proof {
            use_type_invariant(self);
        }
        self.whole as u128 * 1_000_000_000 + self.billionths as u128
    }

    /// The duration of as many seconds as the factor says.
    pub fn seconds(&self) -> (seconds: Duration)
        ensures
            duration_nanos(seconds) == self@,
    {
        proof {
            use_type_invariant(self);
        }
        Duration::new(self.whole, self.billionths)
    }
}

} // verus!
