//! Convenience re-exports of the engine's public surface.

pub use crate::errors::Error as DrsError;
pub use crate::solvers::divide_and_concur::solution as divide_and_concur_solution;
pub use crate::solvers::divide_and_concur::step as divide_and_concur_step;
pub use crate::solvers::divide_and_concur::DivideAndConcurSolver;
pub use crate::DrsResult;
pub use crate::Scalar;
pub use crate::Solver;
pub use crate::SolverSolution;
pub use crate::State;
