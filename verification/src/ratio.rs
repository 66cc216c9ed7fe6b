//! Exact rational quantities: the optical model is computed without rounding.

use vstd::prelude::*;

verus! {

/// A mathematical fraction `num / den`.
pub struct Q {
    pub num: int,
    pub den: int,
}

impl Q {
    /// `self <= other`, for positive denominators.
    pub open spec fn le(self, other: Q) -> bool {
        self.num * other.den <= other.num * self.den
    }

    /// `self` has the value `n / d`.
    pub open spec fn is_frac(self, n: int, d: int) -> bool {
        self.num * d == n * self.den
    }

    /// The larger of the two; `other` on a tie.
    pub open spec fn max(self, other: Q) -> Q {
        if self.le(other) {
            other
        } else {
            self
        }
    }

    /// The smaller of the two; `self` on a tie.
    pub open spec fn min(self, other: Q) -> Q {
        if self.le(other) {
            self
        } else {
            other
        }
    }
}

/// A fraction held in machine integers. The denominator of a well-formed
/// value is positive.
#[derive(Clone, Copy, Debug, PartialEq, Eq)]
pub struct Ratio {
    pub num: i128,
    pub den: i128,
}

impl View for Ratio {
    type V = Q;

    open spec fn view(&self) -> Q {
        Q { num: self.num as int, den: self.den as int }
    }
}

impl Ratio {
    /// The denominator is positive.
    pub open spec fn wf(&self) -> bool {
        self.den > 0
    }

    /// Numerator and denominator are small enough to cross-multiply.
    pub open spec fn fits(&self) -> bool {
        &&& -0x4000_0000_0000_0000 < self.num < 0x4000_0000_0000_0000
        &&& 0 < self.den < 0x4000_0000_0000_0000
    }

    /// Whether `self <= other`.
    pub fn le(&self, other: &Ratio) -> (r: bool)
        requires
            self.fits(),
            other.fits(),
        ensures
            r == self@.le(other@),
    {
        proof {
            let a = self.num as int;
            let b = self.den as int;
            let c = other.num as int;
            let d = other.den as int;
            assert(-0x1000_0000_0000_0000_0000_0000_0000_0000 < a * d
                < 0x1000_0000_0000_0000_0000_0000_0000_0000) by (nonlinear_arith)
                requires
                    -0x4000_0000_0000_0000 < a < 0x4000_0000_0000_0000,
                    0 < d < 0x4000_0000_0000_0000,
            ;
            assert(-0x1000_0000_0000_0000_0000_0000_0000_0000 < c * b
                < 0x1000_0000_0000_0000_0000_0000_0000_0000) by (nonlinear_arith)
                requires
                    -0x4000_0000_0000_0000 < c < 0x4000_0000_0000_0000,
                    0 < b < 0x4000_0000_0000_0000,
            ;
        }
        self.num * other.den <= other.num * self.den
    }
}

} // verus!
