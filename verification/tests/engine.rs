//! Exercises the engine end to end with small floating-point instances.

use drs::prelude::{
    divide_and_concur_solution, divide_and_concur_step, DivideAndConcurSolver, DrsError,
    DrsResult, Scalar, Solver, State,
};
use std::cell::Cell;

/// A floating-point scalar for the tests.
#[derive(Debug, Clone, Copy, PartialEq)]
struct Fs(f32);

impl Scalar for Fs {
    fn recip_spec(self) -> Self {
        self.recip()
    }

    fn neg_spec(self) -> Self {
        self.neg()
    }

    fn plus_one_spec(self) -> Self {
        self.plus_one()
    }

    fn neg_one_spec() -> Self {
        Self::neg_one()
    }

    fn lt_spec(self, other: Self) -> bool {
        self.lt(other)
    }

    fn recip(self) -> Self {
        Fs(1.0 / self.0)
    }

    fn neg(self) -> Self {
        Fs(-self.0)
    }

    fn plus_one(self) -> Self {
        Fs(self.0 + 1.0)
    }

    fn neg_one() -> Self {
        Fs(-1.0)
    }

    fn lt(self, other: Self) -> bool {
        self.0 < other.0
    }
}

/// A one-dimensional state.
#[derive(Debug, Clone, PartialEq)]
struct V1(f32);

impl State<Fs> for V1 {
    fn add_spec(self, rhs: Self) -> Self {
        self.add(rhs)
    }

    fn scale_spec(self, k: Fs) -> Self {
        self.scale(k)
    }

    fn add(self, rhs: Self) -> Self {
        V1(self.0 + rhs.0)
    }

    fn scale(self, k: Fs) -> Self {
        V1(self.0 * k.0)
    }

    fn dup(&self) -> Self {
        self.clone()
    }
}

fn ident(s: V1) -> DrsResult<V1, Fs, String> {
    Ok(s)
}

fn zero_norm(_a: &V1, _b: &V1) -> Fs {
    Fs(0.0)
}

fn abs_diff_norm(a: &V1, b: &V1) -> Fs {
    Fs((a.0 - b.0).abs())
}

fn plus_one_proj(s: V1) -> DrsResult<V1, Fs, String> {
    Ok(V1(s.0 + 1.0))
}

fn double_proj(s: V1) -> DrsResult<V1, Fs, String> {
    Ok(V1(s.0 * 2.0))
}

#[test]
fn zero_distance_converges_at_step_zero() {
    let solver = DivideAndConcurSolver::new(ident, ident, zero_norm, Fs(1.0), Fs(0.5), 100);
    let (sol, steps, delta) = solver.run(V1(2.0)).unwrap();
    assert_eq!(steps, 0);
    assert_eq!(delta, Fs(0.0));
    // With identity projectors and beta = 1, the extraction returns the
    // initial state itself: f_a = concur(x)*0 + x*1 = x, then divide(x) = x.
    assert_eq!(sol, V1(2.0));
}

#[test]
fn step_computes_the_splitting_formula() {
    // x = 12, beta = 0.5: gamma_a = -2, gamma_b = 2.
    // fa = concur(x)*(1 + gamma_a) + x*(-gamma_a) = 13*(-1) + 12*2 = 11
    // fb = divide(x)*(1 + gamma_b) + x*(-gamma_b) = 24*3 + 12*(-2) = 48
    // pafb = concur(fb) = 49; pbfa = divide(fa) = 22
    // result = x + (pafb - pbfa)*beta = 12 + 27*0.5 = 25.5
    let r = divide_and_concur_step(V1(12.0), double_proj, plus_one_proj, Fs(0.5)).unwrap();
    assert_eq!(r, V1(25.5));
}

#[test]
fn solution_performs_the_divide_half() {
    // Same relaxation as above: fa = 11, then divide once more: 22.
    let r = divide_and_concur_solution(V1(12.0), double_proj, plus_one_proj, Fs(0.5)).unwrap();
    assert_eq!(r, V1(22.0));
}

#[test]
fn step_invokes_each_projector_exactly_twice() {
    let divide_calls = Cell::new(0u32);
    let concur_calls = Cell::new(0u32);
    let divide = |s: V1| -> DrsResult<V1, Fs, String> {
        divide_calls.set(divide_calls.get() + 1);
        Ok(s)
    };
    let concur = |s: V1| -> DrsResult<V1, Fs, String> {
        concur_calls.set(concur_calls.get() + 1);
        Ok(s)
    };
    divide_and_concur_step(V1(3.0), divide, concur, Fs(1.0)).unwrap();
    assert_eq!(divide_calls.get(), 2);
    assert_eq!(concur_calls.get(), 2);
}

#[test]
fn step_is_deterministic_on_repeated_invocation() {
    let r1 = divide_and_concur_step(V1(0.375), double_proj, plus_one_proj, Fs(0.9));
    let r2 = divide_and_concur_step(V1(0.375), double_proj, plus_one_proj, Fs(0.9));
    assert_eq!(r1.unwrap(), r2.unwrap());
}

#[test]
fn exhaustion_reports_the_full_budget_and_last_distance() {
    // The distance is a constant equal to epsilon; strictly-below never
    // holds, so the whole budget is consumed.
    let one_norm = |_a: &V1, _b: &V1| Fs(1.0);
    let solver = DivideAndConcurSolver::new(ident, ident, one_norm, Fs(1.0), Fs(1.0), 7);
    match solver.run(V1(0.5)) {
        Err(DrsError::Convergence(steps, delta)) => {
            assert_eq!(steps, 7);
            assert_eq!(delta, Some(Fs(1.0)));
        },
        other => panic!("expected a convergence failure, got {other:?}"),
    }
}

#[test]
fn exhaustion_with_zero_budget_measures_nothing() {
    let solver = DivideAndConcurSolver::new(ident, ident, zero_norm, Fs(1.0), Fs(0.5), 0);
    match solver.run(V1(0.5)) {
        Err(DrsError::Convergence(steps, delta)) => {
            assert_eq!(steps, 0);
            assert_eq!(delta, None);
        },
        other => panic!("expected a convergence failure, got {other:?}"),
    }
}

#[test]
fn first_projector_failure_aborts_with_zero_transitions() {
    let divide_calls = Cell::new(0u32);
    let concur_calls = Cell::new(0u32);
    let divide = |s: V1| -> DrsResult<V1, Fs, String> {
        divide_calls.set(divide_calls.get() + 1);
        Ok(s)
    };
    let concur = |_s: V1| -> DrsResult<V1, Fs, String> {
        concur_calls.set(concur_calls.get() + 1);
        Err(DrsError::Projection("infeasible instance".to_string()))
    };
    let solver = DivideAndConcurSolver::new(divide, concur, zero_norm, Fs(1.0), Fs(0.5), 100);
    match solver.run(V1(0.5)) {
        Err(DrsError::Projection(cause)) => assert_eq!(cause, "infeasible instance"),
        other => panic!("expected a projection failure, got {other:?}"),
    }
    // The concur projector is the first invocation of a step; it failed
    // immediately, so the divide projector was never reached and no state
    // transition took place.
    assert_eq!(concur_calls.get(), 1);
    assert_eq!(divide_calls.get(), 0);
}

#[test]
fn mid_step_divide_failure_propagates_verbatim() {
    let divide = |_s: V1| -> DrsResult<V1, Fs, String> {
        Err(DrsError::Unknown("weight matrix is malformed".to_string()))
    };
    let solver = DivideAndConcurSolver::new(divide, ident, zero_norm, Fs(1.0), Fs(0.5), 100);
    match solver.run(V1(0.5)) {
        Err(DrsError::Unknown(cause)) => assert_eq!(cause, "weight matrix is malformed"),
        other => panic!("expected the wrapped failure, got {other:?}"),
    }
}

#[test]
fn constant_projectors_stabilize_immediately() {
    // Both projectors send every state to the fixed point 0, so the update
    // x + (concur(fb) - divide(fa)) * beta equals x at once and the very
    // first measured distance is zero.
    let to_zero = |_s: V1| -> DrsResult<V1, Fs, String> { Ok(V1(0.0)) };
    let solver =
        DivideAndConcurSolver::new(to_zero, to_zero, abs_diff_norm, Fs(1.0), Fs(0.25), 100);
    let (sol, steps, delta) = solver.run(V1(8.0)).unwrap();
    assert_eq!(sol, V1(0.0));
    assert_eq!(steps, 0);
    assert_eq!(delta, Fs(0.0));
}

#[test]
fn solver_is_reusable_across_runs() {
    let solver = DivideAndConcurSolver::new(ident, ident, zero_norm, Fs(1.0), Fs(0.5), 100);
    let first = solver.run(V1(1.0)).unwrap();
    let second = solver.run(V1(1.0)).unwrap();
    assert_eq!(first, second);
}
