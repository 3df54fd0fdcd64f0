//! Unit tests for the exact-arithmetic scalar, and an engine run driven by it.

use drs::prelude::{DivideAndConcurSolver, DrsResult, Scalar, Solver, State};
use drs::ratio::Ratio;

#[test]
fn ratio_new_stores_the_fields() {
    let r = Ratio::new(3, 4);
    assert_eq!(r.num, 3);
    assert_eq!(r.den, 4);
}

#[test]
fn ratio_recip_swaps_the_fields() {
    let r = Ratio::new(3, 4).recip();
    assert_eq!((r.num, r.den), (4, 3));
}

#[test]
fn ratio_neg_flips_the_numerator() {
    let r = Ratio::new(3, 4).neg();
    assert_eq!((r.num, r.den), (-3, 4));
}

#[test]
fn ratio_neg_saturates_at_the_numerator_minimum() {
    let r = Ratio::new(i64::MIN, 1).neg();
    assert_eq!((r.num, r.den), (i64::MAX, 1));
}

#[test]
fn ratio_plus_one_adds_the_denominator() {
    // 3/4 + 1 = 7/4
    let r = Ratio::new(3, 4).plus_one();
    assert_eq!((r.num, r.den), (7, 4));
}

#[test]
fn ratio_plus_one_saturates_at_the_numerator_bounds() {
    let r = Ratio::new(i64::MAX, 5).plus_one();
    assert_eq!((r.num, r.den), (i64::MAX, 5));
    let r = Ratio::new(i64::MIN, -5).plus_one();
    assert_eq!((r.num, r.den), (i64::MIN, -5));
}

#[test]
fn ratio_neg_one_is_minus_one() {
    let r = Ratio::neg_one();
    assert_eq!((r.num, r.den), (-1, 1));
}

#[test]
fn ratio_lt_compares_by_cross_multiplication() {
    // 1/3 < 1/2
    assert!(Ratio::new(1, 3).lt(Ratio::new(1, 2)));
    assert!(!Ratio::new(1, 2).lt(Ratio::new(1, 3)));
    // equal values are not strictly below each other
    assert!(!Ratio::new(2, 4).lt(Ratio::new(1, 2)));
    // negatives
    assert!(Ratio::new(-1, 2).lt(Ratio::new(0, 1)));
    // huge cross products must not overflow
    assert!(Ratio::new(i64::MIN, i64::MAX).lt(Ratio::new(i64::MAX, i64::MAX)));
}

/// A one-dimensional state scaled by exact ratios.
#[derive(Debug, Clone, PartialEq)]
struct Q1(i64);

impl State<Ratio> for Q1 {
    fn add_spec(self, rhs: Self) -> Self {
        self.add(rhs)
    }

    fn scale_spec(self, k: Ratio) -> Self {
        self.scale(k)
    }

    fn add(self, rhs: Self) -> Self {
        Q1(self.0 + rhs.0)
    }

    fn scale(self, k: Ratio) -> Self {
        Q1(self.0 * k.num / k.den)
    }

    fn dup(&self) -> Self {
        self.clone()
    }
}

#[test]
fn engine_runs_on_the_exact_scalar() {
    // Identity projectors with beta = 1: gamma_a = -1, so the relaxation
    // coefficients are exactly 0 and 1 and every intermediate state equals
    // the input. The distance is the absolute difference over 1.
    let ident = |s: Q1| -> DrsResult<Q1, Ratio, String> { Ok(s) };
    let norm = |a: &Q1, b: &Q1| Ratio::new((a.0 - b.0).abs(), 1);
    let solver = DivideAndConcurSolver::new(
        ident,
        ident,
        norm,
        Ratio::new(1, 1),
        Ratio::new(1, 2),
        10,
    );
    let (sol, steps, delta) = solver.run(Q1(6)).unwrap();
    assert_eq!(sol, Q1(6));
    assert_eq!(steps, 0);
    assert_eq!(delta, Ratio::new(0, 1));
}
