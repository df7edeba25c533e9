//! The capability contracts a user-supplied problem implements, the
//! cancellation contract the control loop polls, and the engine's error
//! taxonomy.

use vstd::prelude::*;
use crate::summary::Summary;

verus! {

/// Why a run failed. Reaching the step limit or an external abort is not
/// an error: those end the run with a usable, non-converged record.
#[derive(Clone, Copy, Debug, PartialEq, Eq, Structural)]
pub enum MinimizeError {
    /// The initial vector, the bounds, or the parameter names disagree in
    /// length; detected at setup, before any objective evaluation.
    DimensionMismatch,
    /// The objective could not be evaluated at (or near) the starting
    /// point.
    InvalidInitialPoint,
    /// The objective could not be evaluated during the search.
    EvaluationFailed,
}

/// A user-supplied objective: evaluate the cost at a parameter vector
/// given in external (user-visible) coordinates.
///
/// `None` means the objective cannot be evaluated there at all; an
/// evaluation that merely produces a meaningless magnitude (the analogue
/// of a non-finite value) should instead return `Some(FIX_MAX)`, which the
/// search treats as a worst-possible value and steers away from.
pub trait CostFunction<U> {
    /// The cost at `x`. `user_data` is an arbitrary mutable workspace that
    /// is threaded through the whole run.
    fn evaluate(&self, x: &Vec<i64>, user_data: &mut U) -> (r: Option<i64>);
}

/// A user-supplied problem that can also supply an analytic gradient.
/// Problems without one rely on the engine's central finite-difference
/// fallback instead.
pub trait GradientFunction<U>: CostFunction<U> {
    /// The gradient at `x`, or `None` when it cannot be computed there.
    fn gradient(&self, x: &Vec<i64>, user_data: &mut U) -> (r: Option<Vec<i64>>);
}

/// A per-step callback the control loop invokes around every solver step.
///
/// A hook may inspect the running record and adjust its current point and
/// diagnostics, but it must leave the record's shape, the recorded start,
/// the evaluation counters, and the verdict fields alone: those carry the
/// loop's proved guarantees.
pub trait StepHook<U> {
    /// Called immediately before each solver step.
    fn before_step(&mut self, status: &mut Summary, user_data: &mut U)
        requires
            old(status).wf(),
        ensures
            final(status).wf(),
            final(status).x@.len() == old(status).x@.len(),
            final(status).x0@ == old(status).x0@,
            final(status).cost_evals == old(status).cost_evals,
            final(status).gradient_evals == old(status).gradient_evals,
            final(status).converged == old(status).converged,
            final(status).message@ == old(status).message@,
    ;

    /// Called immediately after each completed solver step.
    fn after_step(&mut self, status: &mut Summary, user_data: &mut U)
        requires
            old(status).wf(),
        ensures
            final(status).wf(),
            final(status).x@.len() == old(status).x@.len(),
            final(status).x0@ == old(status).x0@,
            final(status).cost_evals == old(status).cost_evals,
            final(status).gradient_evals == old(status).gradient_evals,
            final(status).converged == old(status).converged,
            final(status).message@ == old(status).message@,
    ;
}

/// A hook that does nothing.
pub struct NopHook {}

impl NopHook {
    /// A hook that does nothing.
    pub fn new() -> NopHook {
        NopHook {}
    }
}

impl<U> StepHook<U> for NopHook {
    fn before_step(&mut self, status: &mut Summary, user_data: &mut U) {
    }

    fn after_step(&mut self, status: &mut Summary, user_data: &mut U) {
    }
}

/// A cooperative cancellation source, polled by the control loop once per
/// completed step and never blocking.
pub trait AbortSignal {
    /// Whether an abort has been requested, as the verifier models it.
    /// Implementations inside this library override the model with their
    /// real flag. An unverified implementation that keeps this default
    /// body is taken by the verifier to claim that the signal never
    /// fires; if it does fire anyway, the run still ends with the abort
    /// message, but the proved abort clauses of the control loop do not
    /// describe that implementation.
    open spec fn aborted_spec(&self) -> bool {
        false
    }

    /// Poll the signal.
    fn is_aborted(&self) -> (r: bool)
        ensures
            r == self.aborted_spec(),
    ;
}

/// An abort signal that never fires.
pub struct NopAbortSignal {}

impl NopAbortSignal {
    /// A signal that never fires.
    pub fn new() -> (r: NopAbortSignal)
        ensures
            !r.aborted_spec(),
    {
        NopAbortSignal {}
    }
}

impl AbortSignal for NopAbortSignal {
    open spec fn aborted_spec(&self) -> bool {
        false
    }

    fn is_aborted(&self) -> (r: bool) {
        false
    }
}

/// An abort signal backed by a plain settable flag: set once, never
/// unset, read on every step boundary.
pub struct FlagAbortSignal {
    aborted: bool,
}

impl FlagAbortSignal {
    /// A fresh, unset flag.
    pub fn new() -> (r: FlagAbortSignal)
        ensures
            !r.aborted_spec(),
    {
        FlagAbortSignal { aborted: false }
    }

    /// Request an abort.
    pub fn abort(&mut self)
        ensures
            final(self).aborted_spec(),
    {
        self.aborted = true;
    }
}

impl AbortSignal for FlagAbortSignal {
    closed spec fn aborted_spec(&self) -> bool {
        self.aborted
    }

    fn is_aborted(&self) -> (r: bool) {
        self.aborted
    }
}

} // verus!
