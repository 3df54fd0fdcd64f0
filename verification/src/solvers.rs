//! Solver engines built on the abstract state and scalar contracts.

pub mod divide_and_concur;
