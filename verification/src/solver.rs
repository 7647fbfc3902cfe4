//! Decision rule of the bounded Newton-Raphson iteration.
//!
//! The root solver refines a candidate rate until the net present value is
//! numerically zero or a fixed iteration cap is reached. The refinement step
//! itself is floating-point arithmetic and lives with the caller that runs
//! the loop; the control decision taken at the head of every pass — keep
//! iterating, stop converged, or stop exhausted — is verified here, together
//! with the bound it puts on the number of passes.
use vstd::prelude::*;

verus! {

/// Cap on Newton-Raphson passes; the sole bound on the solver's running
/// time.
pub const MAX_ITERATIONS: u64 = 100;

/// What the solver does at the head of a pass.
#[derive(Clone, Copy, Debug, PartialEq, Eq, Structural)]
pub enum SolverDecision {
    /// The net present value rounds to zero: stop and report the rate.
    Converged,
    /// The iteration cap is reached without convergence: stop and report
    /// the failure sentinel.
    Exhausted,
    /// Neither: take one more Newton-Raphson step.
    Refine,
}

/// The decision at the head of a pass: exhaustion is checked first, so a
/// net present value that only reaches zero on the capped pass still counts
/// as a failure.
pub open spec fn solver_decision_spec(iterations: u64, npv_is_zero: bool) -> SolverDecision {
    if iterations >= MAX_ITERATIONS {
        SolverDecision::Exhausted
    } else if npv_is_zero {
        SolverDecision::Converged
    } else {
        SolverDecision::Refine
    }
}

/// Decide whether the solver stops or takes another pass, given how many
/// passes ran so far and whether the current net present value rounds to
/// zero.
pub fn solver_decision(iterations: u64, npv_is_zero: bool) -> (d: SolverDecision)
    ensures
        d == solver_decision_spec(iterations, npv_is_zero),
{
    if iterations >= MAX_ITERATIONS {
        SolverDecision::Exhausted
    } else if npv_is_zero {
        SolverDecision::Converged
    } else {
        SolverDecision::Refine
    }
}

/// Law: the iteration cap terminates the solver. A further pass is taken
/// only below the cap, and once the cap is reached the decision is to stop
/// with the failure sentinel whatever the net present value does — so a
/// loop that takes one decision per pass stops after at most
/// [`MAX_ITERATIONS`] refinements.
pub proof fn lemma_iteration_cap(iterations: u64, npv_is_zero: bool)
    ensures
        solver_decision_spec(iterations, npv_is_zero) == SolverDecision::Refine ==> iterations
            < MAX_ITERATIONS,
        iterations >= MAX_ITERATIONS ==> solver_decision_spec(iterations, npv_is_zero)
            == SolverDecision::Exhausted,
{
}

} // verus!
