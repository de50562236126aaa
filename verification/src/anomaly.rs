use vstd::prelude::*;

use crate::scalar::Scalar;

verus! {

/// What an eccentric anomaly solve does after one Newton-Raphson step.
#[derive(Clone, Copy, PartialEq, Eq, Structural, Debug)]
pub enum SolveStep {
    /// The step's magnitude is within tolerance: the iterate is the answer.
    Converged,
    /// Not yet within tolerance; take another step.
    Continue,
    /// Not within tolerance and the iteration cap is spent: the solve is
    /// abandoned and reported, never looped on.
    Exhausted,
}

/// The convergence policy of the eccentric anomaly solver, decided from the
/// latest Newton step alone: a step no larger in magnitude than the
/// tolerance means the iterate is accepted; otherwise the solve continues
/// until the iteration cap is spent, and is then reported as a failure
/// rather than iterated without bound (near-parabolic eccentricities make
/// the iteration ill-conditioned). The numerical step itself is computed by
/// the caller; only its encoding is inspected here. A step that is not a
/// number never converges, so a broken iterate cannot be accepted.
pub fn newton_decision(delta_e: Scalar, iters: u32, cap: u32, tolerance: Scalar) -> (d: SolveStep)
    ensures
        d == SolveStep::Converged <==> delta_e.spec_magnitude_le(tolerance),
        d == SolveStep::Exhausted <==> !delta_e.spec_magnitude_le(tolerance) && iters >= cap,
        d == SolveStep::Continue <==> !delta_e.spec_magnitude_le(tolerance) && iters < cap,
{
    if delta_e.magnitude_le(tolerance) {
        SolveStep::Converged
    } else if iters >= cap {
        SolveStep::Exhausted
    } else {
        SolveStep::Continue
    }
}

} // verus!
