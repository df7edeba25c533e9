//! The polymorphic algorithm contract: every solver variant advances one
//! step at a time under the same interface, and the control loop drives
//! any of them uniformly.

use vstd::prelude::*;
use crate::bound::Bounds;
use crate::summary::Summary;
use crate::traits::{CostFunction, MinimizeError};
use crate::vecs::all_canon;

verus! {

/// Evaluation counters stay below this cap so that a step can always
/// account for its own evaluations without overflowing.
pub const EVAL_CAP: u64 = 0x1000_0000_0000_0000;

/// Whether an optional bounds collection fits a problem of dimension `n`.
pub open spec fn bounds_ok(bounds: Option<Bounds>, n: nat) -> bool {
    match bounds {
        Some(b) => b.wf() && b.sq().len() == n,
        None => true,
    }
}

/// The contract every minimization algorithm implements.
///
/// A solver owns its private algorithmic state; the control loop owns the
/// step budget, the abort signal, and the running [`Summary`]. Each method
/// leaves the record well formed, never shrinks an evaluation counter
/// (counters are monotonically non-decreasing across the run), never
/// touches the recorded initial vector, and accounts for at most a
/// dimension-proportional number of new evaluations.
pub trait Solver<U, F: CostFunction<U>> {
    /// Whether the solver has been initialized against a problem.
    spec fn ready(&self) -> bool;

    /// The dimensionality the solver was initialized with.
    spec fn sdim(&self) -> nat;

    /// Validate the problem, seed the private algorithmic state, and
    /// perform the first evaluations. Failure means the objective could
    /// not be evaluated at or near the starting point.
    fn initialize(&mut self, func: &F, x0: &Vec<i64>, bounds: &Option<Bounds>,
        user_data: &mut U, status: &mut Summary) -> (r: Result<(), MinimizeError>)
        requires
            1 <= x0@.len() <= 0xFFFF,
            all_canon(x0@),
            old(status).wf(),
            old(status).x0@ == x0@,
            old(status).x@ == x0@,
            old(status).cost_evals == 0,
            old(status).gradient_evals == 0,
            !old(status).converged,
            bounds_ok(*bounds, x0@.len()),
        ensures
            r is Ok ==> final(self).ready() && final(self).sdim() == x0@.len(),
            r is Err ==> (r == Err::<(), MinimizeError>(MinimizeError::InvalidInitialPoint)
                || r == Err::<(), MinimizeError>(MinimizeError::EvaluationFailed)),
            final(status).wf(),
            final(status).x0@ == x0@,
            final(status).x@ == x0@,
            final(status).cost_evals as int <= x0@.len() + 1,
            final(status).gradient_evals as int <= 2 * x0@.len() + 2,
            final(status).converged == old(status).converged,
            final(status).message@ == old(status).message@,
    ;

    /// Advance the algorithm by exactly one logical iteration, updating
    /// the private state and writing the new best point into the record.
    /// The step neither checks global step limits nor polls the abort
    /// signal: that is the control loop's responsibility.
    fn step(&mut self, func: &F, bounds: &Option<Bounds>, user_data: &mut U,
        status: &mut Summary) -> (r: Result<(), MinimizeError>)
        requires
            old(self).ready(),
            old(status).wf(),
            old(status).x@.len() == old(self).sdim(),
            old(status).cost_evals < EVAL_CAP,
            old(status).gradient_evals < EVAL_CAP,
            bounds_ok(*bounds, old(self).sdim()),
        ensures
            r is Err ==> r == Err::<(), MinimizeError>(MinimizeError::EvaluationFailed),
            final(self).ready(),
            final(self).sdim() == old(self).sdim(),
            final(status).wf(),
            final(status).x@.len() == old(self).sdim(),
            final(status).x0@ == old(status).x0@,
            old(status).cost_evals <= final(status).cost_evals,
            final(status).cost_evals as int
                <= old(status).cost_evals as int + old(self).sdim() + 2,
            old(status).gradient_evals <= final(status).gradient_evals,
            final(status).gradient_evals as int
                <= old(status).gradient_evals as int + 2 * old(self).sdim() + 2,
            final(status).converged == old(status).converged,
            final(status).message@ == old(status).message@,
    ;

    /// Whether the algorithm's own termination criterion is satisfied at
    /// its current state.
    fn check_convergence(&self, bounds: &Option<Bounds>, status: &Summary) -> (r: bool)
        requires
            self.ready(),
            status.wf(),
    ;

    /// Optional finalization, invoked once after the loop exits and before
    /// the record is frozen: may fill the dispersion estimate, but leaves
    /// the best point, the verdict, and the message alone.
    fn postprocess(&mut self, func: &F, bounds: &Option<Bounds>, user_data: &mut U,
        status: &mut Summary) -> (r: Result<(), MinimizeError>)
        requires
            old(self).ready(),
            old(status).wf(),
            old(status).x@.len() == old(self).sdim(),
            old(status).cost_evals < EVAL_CAP,
            old(status).gradient_evals < EVAL_CAP,
            bounds_ok(*bounds, old(self).sdim()),
        ensures
            r is Err ==> r == Err::<(), MinimizeError>(MinimizeError::EvaluationFailed),
            final(self).ready(),
            final(self).sdim() == old(self).sdim(),
            final(status).wf(),
            final(status).x@ == old(status).x@,
            final(status).x0@ == old(status).x0@,
            final(status).fx == old(status).fx,
            old(status).cost_evals <= final(status).cost_evals,
            final(status).cost_evals as int
                <= old(status).cost_evals as int + 2 * old(self).sdim() + 2,
            old(status).gradient_evals <= final(status).gradient_evals,
            final(status).gradient_evals as int
                <= old(status).gradient_evals as int + 2 * old(self).sdim() + 2,
            final(status).converged == old(status).converged,
            final(status).message@ == old(status).message@,
    ;
}

} // verus!
