//! Exact quotients of two counts.

use vstd::prelude::*;

verus! {

/// The quotient `numerator / denominator`, kept as its two parts so that no
/// rounding takes place. A ratio whose denominator is zero stands for zero.
#[derive(Debug, Clone, Copy, PartialEq, Eq, Structural)]
pub struct Ratio {
    pub numerator: u64,
    pub denominator: u64,
}

impl Ratio {
    /// The ratio of `numerator` to `denominator`.
    pub fn new(numerator: u64, denominator: u64) -> (r: Ratio)
        ensures
            r == (Ratio { numerator, denominator }),
    {
        Ratio { numerator, denominator }
    }

    /// The ratio stands for zero.
    pub open spec fn is_zero(self) -> bool {
        self.numerator == 0 || self.denominator == 0
    }

    /// The whole part of the quotient.
    pub open spec fn spec_floor(self) -> int {
        if self.denominator == 0 {
            0
        } else {
            self.numerator as int / self.denominator as int
        }
    }

    /// The quotient is strictly greater than `numerator / denominator`, for a
    /// `denominator` above zero.
    pub open spec fn exceeds(self, numerator: u64, denominator: u64) -> bool {
        if self.denominator == 0 {
            false
        } else {
            self.numerator as int * denominator as int > numerator as int * self.denominator as int
        }
    }

    /// Whether the ratio stands for zero.
    pub fn zero(&self) -> (b: bool)
        ensures
            b == self.is_zero(),
    {
        self.numerator == 0 || self.denominator == 0
    }

    /// The whole part of the quotient.
    pub fn floor(&self) -> (q: u64)
        ensures
            q == self.spec_floor(),
    {
        if self.denominator == 0 {
            0
        } else {
            self.numerator / self.denominator
        }
    }
}

} // verus!
