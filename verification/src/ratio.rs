//! Exact non-negative fractions.

use vstd::prelude::*;

verus! {

/// Fixed-point quantities count in units of `1 / SCALE`.
pub const SCALE: u64 = 10_000_000_000;

/// The fraction `num / den`. It is a number only where `den` is positive.
#[derive(Debug, Clone, Copy, PartialEq, Eq, Structural)]
pub struct Ratio {
    pub num: u64,
    pub den: u64,
}

impl Ratio {
    /// A fraction with a positive denominator.
    pub open spec fn wf(self) -> bool {
        self.den > 0
    }

    /// Whether two fractions stand for the same number.
    pub open spec fn same_value(self, other: Ratio) -> bool {
        self.num * other.den == other.num * self.den
    }

    pub fn new(num: u64, den: u64) -> (r: Ratio)
        ensures
            r == (Ratio { num, den }),
    {
        Ratio { num, den }
    }

    /// Compares the two fractions as numbers.
    pub fn eq_value(&self, other: &Ratio) -> (r: bool)
        ensures
            r == self.same_value(*other),
    {
        proof {
            lemma_product_fits(self.num, other.den);
            lemma_product_fits(other.num, self.den);
        }
        let a: u128 = (self.num as u128) * (other.den as u128);
        let b: u128 = (other.num as u128) * (self.den as u128);
        a == b
    }
}

/// The product of two 64-bit numbers fits in 128 bits.
pub proof fn lemma_product_fits(a: u64, b: u64)
    ensures
        0 <= a * b <= 0xFFFF_FFFF_FFFF_FFFE_0000_0000_0000_0001,
{
    assert(0 <= a * b <= 0xFFFF_FFFF_FFFF_FFFF * 0xFFFF_FFFF_FFFF_FFFF) by (nonlinear_arith)
        requires
            0 <= a <= 0xFFFF_FFFF_FFFF_FFFF,
            0 <= b <= 0xFFFF_FFFF_FFFF_FFFF,
    ;
}

} // verus!
