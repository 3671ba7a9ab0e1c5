//! Error kinds of the micelle solver.

use vstd::prelude::*;

verus! {

/// The operation that an iteration error names, so that a caller can tell
/// which stage of the computation exhausted its budget.
#[derive(Clone, Copy, Debug, PartialEq, Eq, Structural)]
pub enum Operation {
    /// The inner self-consistent field iteration of a density profile.
    ProfileSolve,
    /// The outer Newton search for the critical micelle concentration.
    CriticalMicelle,
}

/// An error of the solver core. No kind is ever swallowed: every failure
/// aborts the current solve or search and is returned to the caller.
#[derive(Clone, Debug, PartialEq, Eq)]
pub enum MicelleError {
    /// An iteration exhausted its budget without meeting its tolerance.
    NotConverged(Operation),
    /// A reduction of a physical quantity to a dimensionless number was
    /// undefined: a division by zero, or a value outside the representable
    /// fixed-point range.
    NumericalReduction,
    /// An error raised by the equation-of-state, grid, or convolution
    /// collaborator, passed through unchanged.
    Collaborator(String),
}

} // verus!
