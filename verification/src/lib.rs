//! Divide-and-Concur fixed-point iteration, a variant of Douglas-Rachford
//! splitting for constraint-satisfaction and constrained-optimization
//! problems.
//!
//! The engine alternates between two caller-supplied, idempotent "projector"
//! operators over a common state space until the state stabilizes within a
//! tolerance. The state space is abstract: the engine only needs vector
//! addition and scalar scaling on states, the arithmetic on the scalar that
//! builds the relaxation coefficients, and a distance function that signals
//! convergence.
//!
//! Every public operation carries a contract. The contracts pin the exact
//! splitting arithmetic down to the sequence of scalar operations, and they
//! describe the iterate-until-convergence control flow relationally, in terms
//! of what the supplied projectors and distance function may return.

use vstd::prelude::*;

pub mod errors;
pub mod prelude;
pub mod ratio;
pub mod solvers;

verus! {

/// Scalar arithmetic required by the splitting step.
///
/// The engine never interprets scalar values; it only builds the relaxation
/// coefficients from `beta` with these operations and compares a measured
/// distance against the convergence threshold. Each executable operation is
/// pinned to its specification counterpart, so the coefficient arithmetic of
/// a step is a mathematical function of `beta`.
pub trait Scalar: Sized + Copy {
    /// Value of the multiplicative inverse, `1 / self`.
    spec fn recip_spec(self) -> Self;

    /// Value of the additive inverse, `-self`.
    spec fn neg_spec(self) -> Self;

    /// Value of `self + 1`.
    spec fn plus_one_spec(self) -> Self;

    /// Value of the constant `-1`.
    spec fn neg_one_spec() -> Self;

    /// Whether `self` is strictly below `other`.
    spec fn lt_spec(self, other: Self) -> bool;

    /// Multiplicative inverse, `1 / self`.
    fn recip(self) -> (r: Self)
        ensures
            r == self.recip_spec(),
    ;

    /// Additive inverse, `-self`.
    fn neg(self) -> (r: Self)
        ensures
            r == self.neg_spec(),
    ;

    /// `self + 1`.
    fn plus_one(self) -> (r: Self)
        ensures
            r == self.plus_one_spec(),
    ;

    /// The constant `-1`.
    fn neg_one() -> (r: Self)
        ensures
            r == Self::neg_one_spec(),
    ;

    /// Strict comparison, used for the convergence test `delta < epsilon`.
    fn lt(self, other: Self) -> (r: bool)
        ensures
            r == self.lt_spec(other),
    ;
}

/// Basic operations required of a problem state.
///
/// A state is an opaque point in a linear space. Vector addition and scalar
/// scaling are the entire interface the engine needs; both are pinned to
/// specification counterparts so that the splitting arithmetic of a step is
/// a mathematical function of the projector outputs.
pub trait State<R>: Sized {
    /// Value of the component-wise vector addition `self + rhs`.
    spec fn add_spec(self, rhs: Self) -> Self;

    /// Value of the uniform scalar multiplication `self * k`.
    spec fn scale_spec(self, k: R) -> Self;

    /// Component-wise vector addition.
    fn add(self, rhs: Self) -> (r: Self)
        ensures
            r == self.add_spec(rhs),
    ;

    /// Uniform scalar multiplication.
    fn scale(self, k: R) -> (r: Self)
        ensures
            r == self.scale_spec(k),
    ;

    /// An independent copy of the state, equal to the original.
    fn dup(&self) -> (r: Self)
        ensures
            r == *self,
    ;
}

/// Defines the required behavior of a solver engine.
///
/// The names for the type parameters are inspired by the first algorithm the
/// engine implemented, *Divide and Concur*:
///    * **S**: the problem state,
///    * **R**: the scalar of the state's linear space,
///    * **P**: the opaque payload of projector failures,
///    * **D**: projector mapping the state onto the solution manifold,
///    * **C**: projector reconciling per-constraint views into one estimate,
///    * **N**: distance between the current and the previous state.
pub trait Solver<S, R, P, D, C, N> where
    S: State<R>,
    R: Scalar,
    D: Fn(S) -> DrsResult<S, R, P>,
    C: Fn(S) -> DrsResult<S, R, P>,
    N: Fn(&S, &S) -> R,
{
    /// What the solver's configuration must satisfy before a run; typically
    /// that the supplied closures accept every state the run may produce.
    spec fn wf(&self) -> bool;

    /// Runs the solver on the initial state.
    fn run(&self, initial_state: S) -> (r: DrsResult<SolverSolution<S, R>, R, P>)
        requires
            self.wf(),
    ;
}

/// Outcome of engine operations: either a value or an [`Error`](crate::errors::Error).
///
/// Caller-supplied projectors return this type as well, which lets a
/// projector's own failure surface through the engine verbatim.
pub type DrsResult<T, R, P> = core::result::Result<T, crate::errors::Error<R, P>>;

/// Output of a successful solver run.
///
/// The elements are:
///    1. the solution state, snapped onto the feasible manifold,
///    2. the number of steps taken before convergence,
///    3. the measured distance at the convergent step.
pub type SolverSolution<T, R> = (T, usize, R);

} // verus!
