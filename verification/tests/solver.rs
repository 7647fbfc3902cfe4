use xirr::solver::solver_decision;
use xirr::solver::SolverDecision;
use xirr::solver::MAX_ITERATIONS;

#[test]
fn refines_below_the_cap_while_npv_is_nonzero() {
    assert_eq!(solver_decision(0, false), SolverDecision::Refine);
    assert_eq!(solver_decision(MAX_ITERATIONS - 1, false), SolverDecision::Refine);
}

#[test]
fn converges_when_npv_rounds_to_zero() {
    assert_eq!(solver_decision(0, true), SolverDecision::Converged);
    assert_eq!(solver_decision(MAX_ITERATIONS - 1, true), SolverDecision::Converged);
}

#[test]
fn stops_exhausted_at_the_cap() {
    assert_eq!(solver_decision(MAX_ITERATIONS, false), SolverDecision::Exhausted);
    assert_eq!(solver_decision(MAX_ITERATIONS + 50, false), SolverDecision::Exhausted);
}

#[test]
fn exhaustion_wins_over_late_convergence() {
    // Even a zero net present value no longer counts once the cap is hit.
    assert_eq!(solver_decision(MAX_ITERATIONS, true), SolverDecision::Exhausted);
}
