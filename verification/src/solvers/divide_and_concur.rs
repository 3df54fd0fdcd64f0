//! The Divide-and-Concur splitting engine.
//!
//! One splitting step reflects the current state through each projector's
//! complementary relaxation and recombines the two projected estimates,
//! weighted by the relaxation parameter `beta`, back onto the original
//! state. The solver drives the step until the measured distance between
//! consecutive states drops strictly below the convergence threshold, or the
//! iteration budget runs out.
//!
//! The projectors and the distance function are caller-supplied closures, so
//! the contracts here are relational: they say which closure input/output
//! pairs, as described by `call_ensures`, must exist for a given engine
//! result to come about.

use core::marker::PhantomData;
use vstd::prelude::*;

use crate::errors::Error;
use crate::{DrsResult, Scalar, Solver, SolverSolution, State};

verus! {

// ----------------------------------------------------------------------------
// The splitting arithmetic, at the specification level.
// ----------------------------------------------------------------------------

/// Coefficient `1 + gamma_a`, where `gamma_a = -(1/beta)`.
pub open spec fn coeff_a1<R: Scalar>(beta: R) -> R {
    beta.recip_spec().neg_spec().plus_one_spec()
}

/// Coefficient `-gamma_a`, where `gamma_a = -(1/beta)`.
pub open spec fn coeff_a2<R: Scalar>(beta: R) -> R {
    beta.recip_spec().neg_spec().neg_spec()
}

/// Coefficient `1 + gamma_b`, where `gamma_b = 1/beta`.
pub open spec fn coeff_b1<R: Scalar>(beta: R) -> R {
    beta.recip_spec().plus_one_spec()
}

/// Coefficient `-gamma_b`, where `gamma_b = 1/beta`.
pub open spec fn coeff_b2<R: Scalar>(beta: R) -> R {
    beta.recip_spec().neg_spec()
}

/// The concur-side relaxation `f_a = concur(x)*(1 + gamma_a) + x*(-gamma_a)`,
/// given `cx`, the value the concur projector returned on `x`.
pub open spec fn fa_spec<S: State<R>, R: Scalar>(x: S, cx: S, beta: R) -> S {
    cx.scale_spec(coeff_a1(beta)).add_spec(x.scale_spec(coeff_a2(beta)))
}

/// The divide-side relaxation `f_b = divide(x)*(1 + gamma_b) + x*(-gamma_b)`,
/// given `dx`, the value the divide projector returned on `x`.
pub open spec fn fb_spec<S: State<R>, R: Scalar>(x: S, dx: S, beta: R) -> S {
    dx.scale_spec(coeff_b1(beta)).add_spec(x.scale_spec(coeff_b2(beta)))
}

/// The recombination `x + (p_afb + p_bfa * -1) * beta` closing one step,
/// given the two second-round projections `p_afb` and `p_bfa`.
pub open spec fn recombine_spec<S: State<R>, R: Scalar>(x: S, pafb: S, pbfa: S, beta: R) -> S {
    x.add_spec(pafb.add_spec(pbfa.scale_spec(R::neg_one_spec())).scale_spec(beta))
}

// ----------------------------------------------------------------------------
// Relational descriptions of the projector and distance closures.
// ----------------------------------------------------------------------------

/// The projector `f` may be applied to every state.
pub open spec fn projector_total<S, R, P, F: Fn(S) -> DrsResult<S, R, P>>(f: F) -> bool {
    forall|s: S| #[trigger] call_requires(f, (s,))
}

/// The distance function `n` may be applied to every pair of states.
pub open spec fn norm_total<S, R, N: Fn(&S, &S) -> R>(n: N) -> bool {
    forall|a: &S, b: &S| #[trigger] call_requires(n, (a, b))
}

/// The four projector invocations of one successful step on `x`: both
/// projectors answered `x` itself, then the concur projector answered the
/// divide-side relaxation `f_b` and the divide projector the concur-side
/// relaxation `f_a`.
pub open spec fn step_calls<
    S: State<R>,
    R: Scalar,
    P,
    D: Fn(S) -> DrsResult<S, R, P>,
    C: Fn(S) -> DrsResult<S, R, P>,
>(divide: D, concur: C, beta: R, x: S, cx: S, dx: S, pafb: S, pbfa: S) -> bool {
    &&& call_ensures(concur, (x,), Ok(cx))
    &&& call_ensures(divide, (x,), Ok(dx))
    &&& call_ensures(concur, (fb_spec(x, dx, beta),), Ok(pafb))
    &&& call_ensures(divide, (fa_spec(x, cx, beta),), Ok(pbfa))
}

/// `y` is a possible result of one successful splitting step on `x`: some
/// combination of projector answers permitted by the two closures yields `y`
/// under the recombination formula.
pub open spec fn step_ok<
    S: State<R>,
    R: Scalar,
    P,
    D: Fn(S) -> DrsResult<S, R, P>,
    C: Fn(S) -> DrsResult<S, R, P>,
>(divide: D, concur: C, beta: R, x: S, y: S) -> bool {
    exists|cx: S, dx: S, pafb: S, pbfa: S|
        #[trigger] step_calls(divide, concur, beta, x, cx, dx, pafb, pbfa)
        && y == recombine_spec(x, pafb, pbfa, beta)
}

/// `e` is a possible error of one splitting step on `x`: the first failing
/// projector invocation, in the order the step makes them, produced `e`,
/// and every earlier invocation succeeded.
pub open spec fn step_err<
    S: State<R>,
    R: Scalar,
    P,
    D: Fn(S) -> DrsResult<S, R, P>,
    C: Fn(S) -> DrsResult<S, R, P>,
>(divide: D, concur: C, beta: R, x: S, e: Error<R, P>) -> bool {
    ||| call_ensures(concur, (x,), Err(e))
    ||| exists|cx: S|
        #![trigger call_ensures(concur, (x,), Ok(cx))]
        {
            &&& call_ensures(concur, (x,), Ok(cx))
            &&& call_ensures(divide, (x,), Err(e))
        }
    ||| exists|cx: S, dx: S|
        #![trigger call_ensures(concur, (x,), Ok(cx)), call_ensures(divide, (x,), Ok(dx))]
        {
            &&& call_ensures(concur, (x,), Ok(cx))
            &&& call_ensures(divide, (x,), Ok(dx))
            &&& call_ensures(concur, (fb_spec(x, dx, beta),), Err(e))
        }
    ||| exists|cx: S, dx: S, pafb: S|
        #![trigger call_ensures(concur, (x,), Ok(cx)), call_ensures(
            concur,
            (fb_spec(x, dx, beta),),
            Ok(pafb),
        )]
        {
            &&& call_ensures(concur, (x,), Ok(cx))
            &&& call_ensures(divide, (x,), Ok(dx))
            &&& call_ensures(concur, (fb_spec(x, dx, beta),), Ok(pafb))
            &&& call_ensures(divide, (fa_spec(x, cx, beta),), Err(e))
        }
}

/// `y` is a possible result of the solution extraction on `x`: the divide
/// projector's answer to the concur-side relaxation `f_a` of `x`.
pub open spec fn solution_ok<
    S: State<R>,
    R: Scalar,
    P,
    D: Fn(S) -> DrsResult<S, R, P>,
    C: Fn(S) -> DrsResult<S, R, P>,
>(divide: D, concur: C, beta: R, x: S, y: S) -> bool {
    exists|cx: S|
        #![trigger call_ensures(concur, (x,), Ok(cx))]
        {
            &&& call_ensures(concur, (x,), Ok(cx))
            &&& call_ensures(divide, (fa_spec(x, cx, beta),), Ok(y))
        }
}

/// `e` is a possible error of the solution extraction on `x`.
pub open spec fn solution_err<
    S: State<R>,
    R: Scalar,
    P,
    D: Fn(S) -> DrsResult<S, R, P>,
    C: Fn(S) -> DrsResult<S, R, P>,
>(divide: D, concur: C, beta: R, x: S, e: Error<R, P>) -> bool {
    ||| call_ensures(concur, (x,), Err(e))
    ||| exists|cx: S|
        #![trigger call_ensures(concur, (x,), Ok(cx))]
        {
            &&& call_ensures(concur, (x,), Ok(cx))
            &&& call_ensures(divide, (fa_spec(x, cx, beta),), Err(e))
        }
}

// ----------------------------------------------------------------------------
// The step and solution-extraction functions.
// ----------------------------------------------------------------------------

/// One splitting step on `state`, with the closures taken by reference so
/// the solver can reuse the ones it owns.
fn step_on<S, R, P, D, C>(state: S, divide: &D, concur: &C, beta: R) -> (r: DrsResult<
    S,
    R,
    P,
>) where
    S: State<R>,
    R: Scalar,
    D: Fn(S) -> DrsResult<S, R, P>,
    C: Fn(S) -> DrsResult<S, R, P>,

    requires
        projector_total(*divide),
        projector_total(*concur),
    ensures
        match r {
            Ok(y) => step_ok(*divide, *concur, beta, state, y),
            Err(e) => step_err(*divide, *concur, beta, state, e),
        },
{
    let gamma_a = beta.recip().neg();
    let gamma_b = beta.recip();

    let cx = match (*concur)(state.dup()) {
        Ok(v) => v,
        Err(e) => {
            return Err(e);
        },
    };
    let fa = cx.scale(gamma_a.plus_one()).add(state.dup().scale(gamma_a.neg()));

    let dx = match (*divide)(state.dup()) {
        Ok(v) => v,
        Err(e) => {
            return Err(e);
        },
    };
    let fb = dx.scale(gamma_b.plus_one()).add(state.dup().scale(gamma_b.neg()));

    let pafb = match (*concur)(fb) {
        Ok(v) => v,
        Err(e) => {
            return Err(e);
        },
    };

    let pbfa = match (*divide)(fa) {
        Ok(v) => v,
        Err(e) => {
            return Err(e);
        },
    };

    let inner = pafb.add(pbfa.scale(R::neg_one()));
    let result = state.add(inner.scale(beta));
    proof {
        assert(step_calls(*divide, *concur, beta, state, cx, dx, pafb, pbfa));
    }
    Ok(result)
}

/// Computes one Douglas-Rachford update of `state` from the two projectors
/// and the relaxation parameter `beta`.
///
/// Both projectors are invoked exactly twice: once on `state` itself and
/// once on the other side's relaxation. Any projector error aborts the step
/// and propagates verbatim; no partial state is produced.
pub fn step<S, R, P, D, C>(state: S, divide: D, concur: C, beta: R) -> (r: DrsResult<
    S,
    R,
    P,
>) where
    S: State<R>,
    R: Scalar,
    D: Fn(S) -> DrsResult<S, R, P>,
    C: Fn(S) -> DrsResult<S, R, P>,

    requires
        projector_total(divide),
        projector_total(concur),
    ensures
        match r {
            Ok(y) => step_ok(divide, concur, beta, state, y),
            Err(e) => step_err(divide, concur, beta, state, e),
        },
{
    step_on(state, &divide, &concur, beta)
}

/// Like [`step`], with the closures taken by reference.
fn solution_on<S, R, P, D, C>(state: S, divide: &D, concur: &C, beta: R) -> (r:
    DrsResult<S, R, P>) where
    S: State<R>,
    R: Scalar,
    D: Fn(S) -> DrsResult<S, R, P>,
    C: Fn(S) -> DrsResult<S, R, P>,

    requires
        projector_total(*divide),
        projector_total(*concur),
    ensures
        match r {
            Ok(y) => solution_ok(*divide, *concur, beta, state, y),
            Err(e) => solution_err(*divide, *concur, beta, state, e),
        },
{
    let gamma_a = beta.recip().neg();
    let cx = match (*concur)(state.dup()) {
        Ok(v) => v,
        Err(e) => {
            return Err(e);
        },
    };
    let fa = cx.scale(gamma_a.plus_one()).add(state.dup().scale(gamma_a.neg()));
    (*divide)(fa)
}

/// Snaps a converged `state` onto the feasible manifold the divide projector
/// defines: computes only the concur-side relaxation `f_a`, then applies the
/// divide projector once more and returns its answer.
///
/// Pre-convergence states are blends that satisfy neither projector exactly;
/// this is the state the caller actually wants.
pub fn solution<S, R, P, D, C>(state: S, divide: D, concur: C, beta: R) -> (r: DrsResult<
    S,
    R,
    P,
>) where
    S: State<R>,
    R: Scalar,
    D: Fn(S) -> DrsResult<S, R, P>,
    C: Fn(S) -> DrsResult<S, R, P>,

    requires
        projector_total(divide),
        projector_total(concur),
    ensures
        match r {
            Ok(y) => solution_ok(divide, concur, beta, state, y),
            Err(e) => solution_err(divide, concur, beta, state, e),
        },
{
    solution_on(state, &divide, &concur, beta)
}

// ----------------------------------------------------------------------------
// The iterate-until-convergence control flow, at the specification level.
// ----------------------------------------------------------------------------

/// One accepted (non-converged) transition of the run loop: a step took
/// `prev` to `next`, the distance function measured `delta` between the two,
/// and `delta` did not fall strictly below `eps`.
pub open spec fn accepted_step<
    S: State<R>,
    R: Scalar,
    P,
    D: Fn(S) -> DrsResult<S, R, P>,
    C: Fn(S) -> DrsResult<S, R, P>,
    N: Fn(&S, &S) -> R,
>(divide: D, concur: C, norm: N, beta: R, eps: R, prev: S, next: S, delta: R) -> bool {
    &&& step_ok(divide, concur, beta, prev, next)
    &&& call_ensures(norm, (&next, &prev), delta)
    &&& !delta.lt_spec(eps)
}

/// `st` is reachable from `s0` by exactly `t` accepted transitions of the
/// run loop.
pub open spec fn advances<
    S: State<R>,
    R: Scalar,
    P,
    D: Fn(S) -> DrsResult<S, R, P>,
    C: Fn(S) -> DrsResult<S, R, P>,
    N: Fn(&S, &S) -> R,
>(divide: D, concur: C, norm: N, beta: R, eps: R, s0: S, t: nat, st: S) -> bool
    decreases t,
{
    if t == 0 {
        st == s0
    } else {
        exists|prev: S, delta: R|
            #![trigger accepted_step(divide, concur, norm, beta, eps, prev, st, delta)]
            {
                &&& advances(divide, concur, norm, beta, eps, s0, (t - 1) as nat, prev)
                &&& accepted_step(divide, concur, norm, beta, eps, prev, st, delta)
            }
    }
}

/// The witnesses behind a convergent run of `steps` accepted transitions:
/// the run reached `cur`, one more step produced `up`, the measured distance
/// `delta` fell strictly below `eps`, and the solution extraction on the
/// *pre-update* state `cur` — not on `up` — produced `sol`.
pub open spec fn convergence_evidence<
    S: State<R>,
    R: Scalar,
    P,
    D: Fn(S) -> DrsResult<S, R, P>,
    C: Fn(S) -> DrsResult<S, R, P>,
    N: Fn(&S, &S) -> R,
>(
    divide: D,
    concur: C,
    norm: N,
    beta: R,
    eps: R,
    s0: S,
    steps: nat,
    cur: S,
    up: S,
    sol: S,
    delta: R,
) -> bool {
    &&& advances(divide, concur, norm, beta, eps, s0, steps, cur)
    &&& step_ok(divide, concur, beta, cur, up)
    &&& call_ensures(norm, (&up, &cur), delta)
    &&& delta.lt_spec(eps)
    &&& solution_ok(divide, concur, beta, cur, sol)
}

/// The run converged after `steps` accepted transitions, returning the
/// solution `sol` and the convergent distance `delta`.
pub open spec fn converged_run<
    S: State<R>,
    R: Scalar,
    P,
    D: Fn(S) -> DrsResult<S, R, P>,
    C: Fn(S) -> DrsResult<S, R, P>,
    N: Fn(&S, &S) -> R,
>(divide: D, concur: C, norm: N, beta: R, eps: R, s0: S, steps: nat, sol: S, delta: R) -> bool {
    exists|cur: S, up: S|
        #[trigger] convergence_evidence(
            divide,
            concur,
            norm,
            beta,
            eps,
            s0,
            steps,
            cur,
            up,
            sol,
            delta,
        )
}

/// The witnesses behind the `delta` measured at the `t`-th (1-based, last
/// accepted) transition of a run: the chain reached `prev` in `t - 1`
/// transitions and the `t`-th took it to `st` with measured distance
/// `delta`.
pub open spec fn exhaustion_evidence<
    S: State<R>,
    R: Scalar,
    P,
    D: Fn(S) -> DrsResult<S, R, P>,
    C: Fn(S) -> DrsResult<S, R, P>,
    N: Fn(&S, &S) -> R,
>(divide: D, concur: C, norm: N, beta: R, eps: R, s0: S, t: nat, prev: S, st: S, delta: R) -> bool {
    &&& t > 0
    &&& advances(divide, concur, norm, beta, eps, s0, (t - 1) as nat, prev)
    &&& accepted_step(divide, concur, norm, beta, eps, prev, st, delta)
}

/// The evidence behind a convergence failure after `n_steps` budgeted
/// iterations: either the budget was zero and nothing was ever measured, or
/// the full chain of `n_steps` accepted transitions exists and `dl` carries
/// the distance measured at the last of them.
pub open spec fn exhausted_run<
    S: State<R>,
    R: Scalar,
    P,
    D: Fn(S) -> DrsResult<S, R, P>,
    C: Fn(S) -> DrsResult<S, R, P>,
    N: Fn(&S, &S) -> R,
>(divide: D, concur: C, norm: N, beta: R, eps: R, s0: S, n_steps: usize, dl: Option<R>) -> bool {
    if n_steps == 0 {
        dl is None
    } else {
        dl matches Some(delta) && exists|prev: S, st: S|
            #[trigger] exhaustion_evidence(
                divide,
                concur,
                norm,
                beta,
                eps,
                s0,
                n_steps as nat,
                prev,
                st,
                delta,
            )
    }
}

/// After `t` accepted transitions the run had reached `cur`, and the step
/// taken from there failed with `e`.
pub open spec fn run_step_failure<
    S: State<R>,
    R: Scalar,
    P,
    D: Fn(S) -> DrsResult<S, R, P>,
    C: Fn(S) -> DrsResult<S, R, P>,
    N: Fn(&S, &S) -> R,
>(
    divide: D,
    concur: C,
    norm: N,
    beta: R,
    eps: R,
    n_steps: usize,
    s0: S,
    t: nat,
    cur: S,
    e: Error<R, P>,
) -> bool {
    &&& t < n_steps
    &&& advances(divide, concur, norm, beta, eps, s0, t, cur)
    &&& step_err(divide, concur, beta, cur, e)
}

/// After `t` accepted transitions the run had reached `cur`, the next step
/// produced `up`, the measured distance `delta` converged, and the solution
/// extraction on `cur` failed with `e`.
pub open spec fn run_extraction_failure<
    S: State<R>,
    R: Scalar,
    P,
    D: Fn(S) -> DrsResult<S, R, P>,
    C: Fn(S) -> DrsResult<S, R, P>,
    N: Fn(&S, &S) -> R,
>(
    divide: D,
    concur: C,
    norm: N,
    beta: R,
    eps: R,
    n_steps: usize,
    s0: S,
    t: nat,
    cur: S,
    up: S,
    delta: R,
    e: Error<R, P>,
) -> bool {
    &&& t < n_steps
    &&& advances(divide, concur, norm, beta, eps, s0, t, cur)
    &&& step_ok(divide, concur, beta, cur, up)
    &&& call_ensures(norm, (&up, &cur), delta)
    &&& delta.lt_spec(eps)
    &&& solution_err(divide, concur, beta, cur, e)
}

/// `e` is a possible error of a run from `s0`: the budget ran out without
/// convergence, or some reachable state made a step fail with `e`, or the
/// run converged and the final solution extraction failed with `e`.
///
/// A projector may itself answer any [`Error`] value, so the convergence
/// variant in the first disjunct is distinguished by its evidence, not by
/// its shape alone.
pub open spec fn run_err<
    S: State<R>,
    R: Scalar,
    P,
    D: Fn(S) -> DrsResult<S, R, P>,
    C: Fn(S) -> DrsResult<S, R, P>,
    N: Fn(&S, &S) -> R,
>(divide: D, concur: C, norm: N, beta: R, eps: R, n_steps: usize, s0: S, e: Error<R, P>) -> bool {
    ||| (e matches Error::Convergence(k, dl) && k == n_steps && exhausted_run(
        divide,
        concur,
        norm,
        beta,
        eps,
        s0,
        n_steps,
        dl,
    ))
    ||| exists|t: nat, cur: S|
        #[trigger] run_step_failure(divide, concur, norm, beta, eps, n_steps, s0, t, cur, e)
    ||| exists|t: nat, cur: S, up: S, delta: R|
        #[trigger] run_extraction_failure(
            divide,
            concur,
            norm,
            beta,
            eps,
            n_steps,
            s0,
            t,
            cur,
            up,
            delta,
            e,
        )
}

/// Everything a finished run guarantees about its result `r`.
pub open spec fn run_post<
    S: State<R>,
    R: Scalar,
    P,
    D: Fn(S) -> DrsResult<S, R, P>,
    C: Fn(S) -> DrsResult<S, R, P>,
    N: Fn(&S, &S) -> R,
>(
    divide: D,
    concur: C,
    norm: N,
    beta: R,
    eps: R,
    n_steps: usize,
    s0: S,
    r: DrsResult<SolverSolution<S, R>, R, P>,
) -> bool {
    match r {
        Ok(out) => out.1 < n_steps && converged_run(
            divide,
            concur,
            norm,
            beta,
            eps,
            s0,
            out.1 as nat,
            out.0,
            out.2,
        ),
        Err(e) => run_err(divide, concur, norm, beta, eps, n_steps, s0, e),
    }
}

// ----------------------------------------------------------------------------
// The solver.
// ----------------------------------------------------------------------------

/// A Divide-and-Concur solver: owns the two projectors, the distance
/// function, and the three tunable parameters, and drives the
/// iterate-until-convergence loop.
#[verifier::reject_recursive_types(S)]
#[verifier::reject_recursive_types(R)]
#[verifier::reject_recursive_types(P)]
pub struct DivideAndConcurSolver<S, R, P, D, C, N> where
    S: State<R>,
    R: Scalar,
    D: Fn(S) -> DrsResult<S, R, P>,
    C: Fn(S) -> DrsResult<S, R, P>,
    N: Fn(&S, &S) -> R,
{
    divide: D,
    concur: C,
    norm: N,
    beta: R,
    epsilon: R,
    n_steps: usize,
    _marker: PhantomData<(S, P)>,
}

impl<S, R, P, D, C, N> DivideAndConcurSolver<S, R, P, D, C, N> where
    S: State<R>,
    R: Scalar,
    D: Fn(S) -> DrsResult<S, R, P>,
    C: Fn(S) -> DrsResult<S, R, P>,
    N: Fn(&S, &S) -> R,
{
    /// The divide projector this solver was constructed with.
    pub closed spec fn spec_divide(&self) -> D {
        self.divide
    }

    /// The concur projector this solver was constructed with.
    pub closed spec fn spec_concur(&self) -> C {
        self.concur
    }

    /// The distance function this solver was constructed with.
    pub closed spec fn spec_norm(&self) -> N {
        self.norm
    }

    /// The relaxation parameter this solver was constructed with.
    pub closed spec fn spec_beta(&self) -> R {
        self.beta
    }

    /// The convergence threshold this solver was constructed with.
    pub closed spec fn spec_epsilon(&self) -> R {
        self.epsilon
    }

    /// The iteration budget this solver was constructed with.
    pub closed spec fn spec_n_steps(&self) -> usize {
        self.n_steps
    }

    /// Builds a solver from the two projectors, the distance function, the
    /// relaxation parameter `beta`, the convergence threshold `epsilon`, and
    /// the iteration budget `n_steps`. All are fixed for the solver's
    /// lifetime.
    ///
    /// `beta` appears in the splitting step only as the argument of the
    /// scalar's `recip`; callers are expected to supply a nonzero value for
    /// the relaxation to be meaningful.
    pub fn new(divide: D, concur: C, norm: N, beta: R, epsilon: R, n_steps: usize) -> (s: Self)
        ensures
            s.spec_divide() == divide,
            s.spec_concur() == concur,
            s.spec_norm() == norm,
            s.spec_beta() == beta,
            s.spec_epsilon() == epsilon,
            s.spec_n_steps() == n_steps,
    {
        Self { divide, concur, norm, beta, epsilon, n_steps, _marker: PhantomData }
    }

    /// Runs the solver on `initial_state` until the measured distance
    /// between consecutive states drops strictly below the convergence
    /// threshold — exact equality does not count — or the iteration budget
    /// runs out.
    ///
    /// The very first distance is measured against the initial state before
    /// any acceptance, so a trivially-already-converged initial state
    /// converges in zero recorded steps. On convergence the solution is
    /// extracted from the pre-update current state, not the just-computed
    /// update. Any projector error aborts the run immediately and surfaces
    /// verbatim — no retry, no partial result.
    pub fn run(&self, initial_state: S) -> (r: DrsResult<SolverSolution<S, R>, R, P>)
        requires
            projector_total(self.spec_divide()),
            projector_total(self.spec_concur()),
            norm_total(self.spec_norm()),
        ensures
            run_post(
                self.spec_divide(),
                self.spec_concur(),
                self.spec_norm(),
                self.spec_beta(),
                self.spec_epsilon(),
                self.spec_n_steps(),
                initial_state,
                r,
            ),
    {
        let mut state = initial_state;
        let ghost s0 = state;
        let mut delta_last: Option<R> = None;
        let mut t: usize = 0;

        while t < self.n_steps
            invariant
                projector_total(self.spec_divide()),
                projector_total(self.spec_concur()),
                norm_total(self.spec_norm()),
                s0 == initial_state,
                t <= self.n_steps,
                advances(
                    self.spec_divide(),
                    self.spec_concur(),
                    self.spec_norm(),
                    self.spec_beta(),
                    self.spec_epsilon(),
                    s0,
                    t as nat,
                    state,
                ),
                t == 0 ==> delta_last is None,
                t > 0 ==> delta_last is Some,
                t > 0 ==> exists|prev: S|
                    #[trigger] exhaustion_evidence(
                        self.spec_divide(),
                        self.spec_concur(),
                        self.spec_norm(),
                        self.spec_beta(),
                        self.spec_epsilon(),
                        s0,
                        t as nat,
                        prev,
                        state,
                        delta_last->0,
                    ),
            decreases self.n_steps - t,
        {
            let ghost cur = state;
            let update = match step_on(state.dup(), &self.divide, &self.concur, self.beta) {
                Ok(u) => u,
                Err(e) => {
                    proof {
                        assert(run_step_failure(
                            self.spec_divide(),
                            self.spec_concur(),
                            self.spec_norm(),
                            self.spec_beta(),
                            self.spec_epsilon(),
                            self.spec_n_steps(),
                            s0,
                            t as nat,
                            cur,
                            e,
                        ));
                    }
                    return Err(e);
                },
            };
            let delta = (self.norm)(&update, &state);

            if delta.lt(self.epsilon) {
                let sol = match solution_on(state, &self.divide, &self.concur, self.beta) {
                    Ok(s) => s,
                    Err(e) => {
                        proof {
                            assert(run_extraction_failure(
                                self.spec_divide(),
                                self.spec_concur(),
                                self.spec_norm(),
                                self.spec_beta(),
                                self.spec_epsilon(),
                                self.spec_n_steps(),
                                s0,
                                t as nat,
                                cur,
                                update,
                                delta,
                                e,
                            ));
                        }
                        return Err(e);
                    },
                };
                proof {
                    assert(convergence_evidence(
                        self.spec_divide(),
                        self.spec_concur(),
                        self.spec_norm(),
                        self.spec_beta(),
                        self.spec_epsilon(),
                        s0,
                        t as nat,
                        cur,
                        update,
                        sol,
                        delta,
                    ));
                }
                return Ok((sol, t, delta));
            }

            state = update;
            delta_last = Some(delta);
            t = t + 1;
            proof {
                assert(delta_last->0 == delta);
                assert(exhaustion_evidence(
                    self.spec_divide(),
                    self.spec_concur(),
                    self.spec_norm(),
                    self.spec_beta(),
                    self.spec_epsilon(),
                    s0,
                    t as nat,
                    cur,
                    state,
                    delta,
                ));
            }
        }

        Err(Error::Convergence(self.n_steps, delta_last))
    }
}

impl<S, R, P, D, C, N> Solver<S, R, P, D, C, N> for DivideAndConcurSolver<S, R, P, D, C, N> where
    S: State<R>,
    R: Scalar,
    D: Fn(S) -> DrsResult<S, R, P>,
    C: Fn(S) -> DrsResult<S, R, P>,
    N: Fn(&S, &S) -> R,
{
    /// The supplied closures accept every state and every pair of states.
    open spec fn wf(&self) -> bool {
        &&& projector_total(self.spec_divide())
        &&& projector_total(self.spec_concur())
        &&& norm_total(self.spec_norm())
    }

    /// Runs the solver; see the inherent method of the same name, which
    /// carries the full contract of the iteration.
    fn run(&self, initial_state: S) -> (r: DrsResult<SolverSolution<S, R>, R, P>)
        ensures
            run_post(
                self.spec_divide(),
                self.spec_concur(),
                self.spec_norm(),
                self.spec_beta(),
                self.spec_epsilon(),
                self.spec_n_steps(),
                initial_state,
                r,
            ),
    {
        self.run(initial_state)
    }
}

// ----------------------------------------------------------------------------
// Laws of the engine.
// ----------------------------------------------------------------------------

/// Every answer of the single-argument closure `f` is uniquely determined by
/// its argument: `f` hides no randomness.
pub open spec fn single_valued<A, B, F: Fn(A) -> B>(f: F) -> bool {
    forall|a: A, o1: B, o2: B|
        #![trigger call_ensures(f, (a,), o1), call_ensures(f, (a,), o2)]
        call_ensures(f, (a,), o1) && call_ensures(f, (a,), o2) ==> o1 == o2
}

/// The projector `f` never answers an error.
pub open spec fn never_fails<S, R, P, F: Fn(S) -> DrsResult<S, R, P>>(f: F) -> bool {
    forall|s: S, o: DrsResult<S, R, P>| #[trigger] call_ensures(f, (s,), o) ==> o is Ok
}

/// Every answer of the projector `f` is a projection failure.
pub open spec fn fails_projection<S, R, P, F: Fn(S) -> DrsResult<S, R, P>>(f: F) -> bool {
    forall|s: S, o: DrsResult<S, R, P>|
        #[trigger] call_ensures(f, (s,), o) ==> (o matches Err(e) && e matches Error::Projection(
            _,
        ))
}

/// Every distance the function `n` may measure lies strictly below `eps`.
pub open spec fn distances_below<S, R: Scalar, N: Fn(&S, &S) -> R>(n: N, eps: R) -> bool {
    forall|a: &S, b: &S, d: R| #[trigger] call_ensures(n, (a, b), d) ==> d.lt_spec(eps)
}

/// No distance the function `n` may measure lies strictly below `eps`.
pub open spec fn distances_not_below<S, R: Scalar, N: Fn(&S, &S) -> R>(n: N, eps: R) -> bool {
    forall|a: &S, b: &S, d: R| #[trigger] call_ensures(n, (a, b), d) ==> !d.lt_spec(eps)
}

/// **Step determinism.** For a fixed `state`, `divide`, `concur` and `beta`,
/// the splitting step produces one identical result on repeated invocation,
/// provided the two projectors themselves hide no randomness: the splitting
/// arithmetic introduces none of its own.
pub proof fn lemma_step_deterministic<S, R, P, D, C>(
    divide: D,
    concur: C,
    beta: R,
    x: S,
    r1: DrsResult<S, R, P>,
    r2: DrsResult<S, R, P>,
) where
    S: State<R>,
    R: Scalar,
    D: Fn(S) -> DrsResult<S, R, P>,
    C: Fn(S) -> DrsResult<S, R, P>,

    requires
        single_valued(divide),
        single_valued(concur),
        (match r1 {
            Ok(y) => step_ok(divide, concur, beta, x, y),
            Err(e) => step_err(divide, concur, beta, x, e),
        }),
        (match r2 {
            Ok(y) => step_ok(divide, concur, beta, x, y),
            Err(e) => step_err(divide, concur, beta, x, e),
        }),
    ensures
        r1 == r2,
{
    if r1 is Ok {
        let (cx1, dx1, pafb1, pbfa1) = choose|cx: S, dx: S, pafb: S, pbfa: S|
            step_calls(divide, concur, beta, x, cx, dx, pafb, pbfa) && r1->Ok_0
                == recombine_spec(x, pafb, pbfa, beta);
        if r2 is Ok {
            let (cx2, dx2, pafb2, pbfa2) = choose|cx: S, dx: S, pafb: S, pbfa: S|
                step_calls(divide, concur, beta, x, cx, dx, pafb, pbfa) && r2->Ok_0
                    == recombine_spec(x, pafb, pbfa, beta);
            assert(cx1 == cx2 && dx1 == dx2);
            assert(pafb1 == pafb2 && pbfa1 == pbfa2);
        } else {
            assert(false);
        }
    } else {
        if r2 is Ok {
            let (cx2, dx2, pafb2, pbfa2) = choose|cx: S, dx: S, pafb: S, pbfa: S|
                step_calls(divide, concur, beta, x, cx, dx, pafb, pbfa) && r2->Ok_0
                    == recombine_spec(x, pafb, pbfa, beta);
            assert(false);
        }
    }
}

/// **Step totality.** A step fails only with an error some projector
/// answered: on projectors that never fail, the step cannot fail either.
pub proof fn lemma_step_never_fails<S, R, P, D, C>(
    divide: D,
    concur: C,
    beta: R,
    x: S,
    r: DrsResult<S, R, P>,
) where
    S: State<R>,
    R: Scalar,
    D: Fn(S) -> DrsResult<S, R, P>,
    C: Fn(S) -> DrsResult<S, R, P>,

    requires
        never_fails(divide),
        never_fails(concur),
        (match r {
            Ok(y) => step_ok(divide, concur, beta, x, y),
            Err(e) => step_err(divide, concur, beta, x, e),
        }),
    ensures
        r is Ok,
{
}

/// **Zero-distance early stop.** If every distance the supplied function can
/// measure already lies strictly below `eps` — as when it returns zero and
/// the threshold is positive — and the projectors never fail, a run with a
/// nonzero budget converges at step zero and its answer is a solution
/// extraction of the initial state itself.
pub proof fn lemma_zero_distance_early_stop<S, R, P, D, C, N>(
    divide: D,
    concur: C,
    norm: N,
    beta: R,
    eps: R,
    n_steps: usize,
    s0: S,
    r: DrsResult<SolverSolution<S, R>, R, P>,
) where
    S: State<R>,
    R: Scalar,
    D: Fn(S) -> DrsResult<S, R, P>,
    C: Fn(S) -> DrsResult<S, R, P>,
    N: Fn(&S, &S) -> R,

    requires
        run_post(divide, concur, norm, beta, eps, n_steps, s0, r),
        n_steps >= 1,
        never_fails(divide),
        never_fails(concur),
        distances_below(norm, eps),
    ensures
        r is Ok,
        r->Ok_0.1 == 0,
        r->Ok_0.2.lt_spec(eps),
        solution_ok(divide, concur, beta, s0, r->Ok_0.0),
{
    match r {
        Ok(out) => {
            let (cur, up) = choose|cur: S, up: S|
                convergence_evidence(
                    divide,
                    concur,
                    norm,
                    beta,
                    eps,
                    s0,
                    out.1 as nat,
                    cur,
                    up,
                    out.0,
                    out.2,
                );
            assert(out.1 == 0 && cur == s0);
        },
        Err(e) => {
            assert(false);
        },
    }
}

/// **Exhaustion contract.** If no distance the supplied function can measure
/// ever drops strictly below `eps` and the projectors never fail, a run with
/// budget `n_steps` fails with a convergence error reporting exactly
/// `n_steps` exhausted steps.
pub proof fn lemma_exhaustion<S, R, P, D, C, N>(
    divide: D,
    concur: C,
    norm: N,
    beta: R,
    eps: R,
    n_steps: usize,
    s0: S,
    r: DrsResult<SolverSolution<S, R>, R, P>,
) where
    S: State<R>,
    R: Scalar,
    D: Fn(S) -> DrsResult<S, R, P>,
    C: Fn(S) -> DrsResult<S, R, P>,
    N: Fn(&S, &S) -> R,

    requires
        run_post(divide, concur, norm, beta, eps, n_steps, s0, r),
        never_fails(divide),
        never_fails(concur),
        distances_not_below(norm, eps),
    ensures
        r matches Err(e) && e matches Error::Convergence(k, _) && k == n_steps,
{
    match r {
        Ok(out) => {
            let (cur, up) = choose|cur: S, up: S|
                convergence_evidence(
                    divide,
                    concur,
                    norm,
                    beta,
                    eps,
                    s0,
                    out.1 as nat,
                    cur,
                    up,
                    out.0,
                    out.2,
                );
            assert(false);
        },
        Err(e) => {},
    }
}

/// **Error propagation.** If every answer of the concur projector — the
/// first one a step invokes — is a projection failure, a run with a nonzero
/// budget performs zero accepted transitions and surfaces a projection
/// failure produced on the initial state itself.
pub proof fn lemma_error_propagation<S, R, P, D, C, N>(
    divide: D,
    concur: C,
    norm: N,
    beta: R,
    eps: R,
    n_steps: usize,
    s0: S,
    r: DrsResult<SolverSolution<S, R>, R, P>,
) where
    S: State<R>,
    R: Scalar,
    D: Fn(S) -> DrsResult<S, R, P>,
    C: Fn(S) -> DrsResult<S, R, P>,
    N: Fn(&S, &S) -> R,

    requires
        run_post(divide, concur, norm, beta, eps, n_steps, s0, r),
        n_steps >= 1,
        fails_projection(concur),
    ensures
        r matches Err(e) && e matches Error::Projection(_) && call_ensures(concur, (s0,), Err(e)),
{
    match r {
        Ok(out) => {
            let (cur, up) = choose|cur: S, up: S|
                convergence_evidence(
                    divide,
                    concur,
                    norm,
                    beta,
                    eps,
                    s0,
                    out.1 as nat,
                    cur,
                    up,
                    out.0,
                    out.2,
                );
            assert(false);
        },
        Err(e) => {
            assert(call_ensures(concur, (s0,), Err(e)));
        },
    }
}

} // verus!
