//! Exact fractions of small naturals.
//!
//! Levels and weights are kept as the two integers they were made from, so
//! that nothing is rounded before the caller turns them into samples.

use vstd::prelude::*;

verus! {

/// The fraction `num / den`.
///
/// Two fractions are equal when both integers are: `1/2` and `2/4` are
/// different values of the same size.
#[derive(Clone, Copy, Debug, PartialEq, Eq, Structural)]
pub struct Fraction {
    /// The number above the line.
    pub num: u32,
    /// The number below the line; positive in every valid fraction.
    pub den: u32,
}

impl Fraction {
    /// A fraction is valid when it can be divided out.
    pub open spec fn valid(self) -> bool {
        self.den > 0
    }

    /// The fraction is valid and stands for zero.
    pub open spec fn is_zero(self) -> bool {
        self.valid() && self.num == 0
    }

    /// The fraction is valid and stands for one.
    pub open spec fn is_one(self) -> bool {
        self.valid() && self.num == self.den
    }

    /// The fraction is valid and lies between zero and one, both included.
    pub open spec fn in_unit_range(self) -> bool {
        self.valid() && self.num <= self.den
    }

    /// `self` is strictly smaller than `other`, by cross-multiplication.
    pub open spec fn less_than(self, other: Fraction) -> bool {
        self.num * other.den < other.num * self.den
    }
}

} // verus!
