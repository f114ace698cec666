//! Exact ratios of two pixel counts.

use vstd::prelude::*;

verus! {

/// The exact quotient `num / den` of two pixel counts.
#[derive(Clone, Copy, Debug, PartialEq, Eq, Structural)]
pub struct Ratio {
    pub num: u32,
    pub den: u32,
}

impl Ratio {
    /// The quotient exists: the denominator is not zero.
    pub open spec fn wf(self) -> bool {
        self.den > 0
    }

    /// The quotient lies in the half-open interval `(0, 1]`.
    pub open spec fn in_unit_interval(self) -> bool {
        0 < self.num <= self.den
    }

    /// The quotient is greater than one.
    pub open spec fn exceeds_one(self) -> bool {
        self.num > self.den
    }

    /// The ratio turned upside down: `den / num`.
    pub open spec fn reciprocal(self) -> Ratio {
        Ratio { num: self.den, den: self.num }
    }

    /// The ratio `1 / 1`.
    pub open spec fn spec_one() -> Ratio {
        Ratio { num: 1, den: 1 }
    }

    /// The ratio `1 / 1`.
    pub fn one() -> (r: Ratio)
        ensures
            r == Ratio::spec_one(),
    {
        Ratio { num: 1, den: 1 }
    }
}

} // verus!
