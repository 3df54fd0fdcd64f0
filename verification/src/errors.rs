use vstd::prelude::*;

verus! {

/// Error taxonomy of the engine.
///
/// `R` is the scalar type of the distance measurements; `P` is an opaque
/// payload carrying the underlying cause of a failure inside a
/// caller-supplied projector, so the engine's error type stays decoupled
/// from every possible projector failure mode.
#[derive(Debug)]
pub enum Error<R, P> {
    /// The iteration budget ran out before the measured distance dropped
    /// below the convergence threshold. Carries the exhausted step count and
    /// the last measured distance; the distance is absent when the budget
    /// was zero, in which case nothing was ever measured.
    Convergence(usize, Option<R>),
    /// A caller-supplied projector failed; the payload is surfaced verbatim.
    Projection(P),
    /// A failure from any other source reaching the engine boundary,
    /// preserved for diagnostics.
    Unknown(P),
}

} // verus!
