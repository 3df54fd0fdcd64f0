//! An exact-arithmetic scalar: a ratio of two 64-bit integers.
//!
//! [`Ratio`] implements the [`Scalar`](crate::Scalar) contract with exact
//! integer arithmetic, so an engine instantiated with it is reproducible
//! down to the bit. The additive operations saturate at the numerator's
//! bounds instead of wrapping; the comparison is the usual cross
//! multiplication, meaningful for ratios kept with positive denominators.

use vstd::prelude::*;

use crate::Scalar;

verus! {

/// Clamps a mathematical integer into the `i64` range.
pub open spec fn clamp_to_i64(x: int) -> i64 {
    if x > i64::MAX {
        i64::MAX
    } else if x < i64::MIN {
        i64::MIN
    } else {
        x as i64
    }
}

/// A scalar `num / den`. The engine never divides, so a zero denominator is
/// representable; the operations below stay total and deterministic on it.
#[derive(Clone, Copy, Debug, PartialEq, Eq, Structural)]
pub struct Ratio {
    /// Numerator.
    pub num: i64,
    /// Denominator; comparisons read it as positive.
    pub den: i64,
}

impl Ratio {
    /// Builds the scalar `num / den`.
    pub fn new(num: i64, den: i64) -> (r: Self)
        ensures
            r.num == num,
            r.den == den,
    {
        Ratio { num, den }
    }
}

impl Scalar for Ratio {
    /// Swapping numerator and denominator inverts the ratio.
    open spec fn recip_spec(self) -> Self {
        Ratio { num: self.den, den: self.num }
    }

    /// Negation of the numerator, saturating at the `i64` bounds.
    open spec fn neg_spec(self) -> Self {
        Ratio { num: clamp_to_i64(-(self.num as int)), den: self.den }
    }

    /// Adding the denominator to the numerator adds one, saturating at the
    /// `i64` bounds.
    open spec fn plus_one_spec(self) -> Self {
        Ratio { num: clamp_to_i64(self.num as int + self.den as int), den: self.den }
    }

    open spec fn neg_one_spec() -> Self {
        Ratio { num: -1i64, den: 1i64 }
    }

    /// Cross multiplication: `a/b < c/d` iff `a*d < c*b`, for positive
    /// denominators.
    open spec fn lt_spec(self, other: Self) -> bool {
        self.num * other.den < other.num * self.den
    }

    fn recip(self) -> (r: Self) {
        Ratio { num: self.den, den: self.num }
    }

    fn neg(self) -> (r: Self) {
        let num: i64 = if self.num == i64::MIN {
            i64::MAX
        } else {
            -self.num
        };
        Ratio { num, den: self.den }
    }

    fn plus_one(self) -> (r: Self) {
        let wide: i128 = self.num as i128 + self.den as i128;
        let num: i64 = if wide > i64::MAX as i128 {
            i64::MAX
        } else if wide < i64::MIN as i128 {
            i64::MIN
        } else {
            wide as i64
        };
        Ratio { num, den: self.den }
    }

    fn neg_one() -> (r: Self) {
        Ratio { num: -1i64, den: 1i64 }
    }

    fn lt(self, other: Self) -> (r: bool) {
        proof {
            lemma_i64_product_fits(self.num as int, other.den as int);
            lemma_i64_product_fits(other.num as int, self.den as int);
        }
        let lhs: i128 = self.num as i128 * other.den as i128;
        let rhs: i128 = other.num as i128 * self.den as i128;
        lhs < rhs
    }
}

/// The product of two values in the `i64` range fits in the `i128` range.
proof fn lemma_i64_product_fits(a: int, b: int)
    requires
        i64::MIN <= a <= i64::MAX,
        i64::MIN <= b <= i64::MAX,
    ensures
        i128::MIN <= a * b <= i128::MAX,
{
    assert(i128::MIN <= a * b <= i128::MAX) by (nonlinear_arith)
        requires
            i64::MIN <= a <= i64::MAX,
            i64::MIN <= b <= i64::MAX,
    ;
}

} // verus!
