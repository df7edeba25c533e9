//! The orchestrator: owns a solver, runs the step / convergence / abort
//! loop, and maintains the running [`Summary`].

use vstd::prelude::*;
use crate::bound::Bounds;
use crate::solver::{bounds_ok, Solver, EVAL_CAP};
use crate::summary::Summary;
use crate::traits::{AbortSignal, CostFunction, MinimizeError, StepHook};
use crate::vecs::{all_canon, canon_vec, copy_names, copy_vec};

verus! {

/// How many steps a run may take when no limit is configured explicitly.
pub const DEFAULT_MAX_STEPS: usize = 4000;

/// The minimization driver: a solver plus the run configuration and the
/// evolving results record.
pub struct Minimizer<U, F: CostFunction<U>, S: Solver<U, F>> {
    /// The algorithm that advances the search.
    pub solver: S,
    /// The dimensionality the driver was built for.
    pub dimension: usize,
    /// The step budget of a run.
    pub max_steps: usize,
    /// Optional per-parameter box constraints.
    pub bounds: Option<Bounds>,
    /// Optional per-parameter names, carried into the record.
    pub parameter_names: Option<Vec<String>>,
    /// How many completed steps the last run took.
    pub steps: usize,
    /// The running (and, after a run, final) results record.
    pub status: Summary,
    /// Carrier for the problem and workspace types the solver works with.
    pub marker: core::marker::PhantomData<(U, F)>,
}

impl<U, F: CostFunction<U>, S: Solver<U, F>> Minimizer<U, F, S> {
    /// Whether the run configuration disagrees with the length of a
    /// starting vector of length `n`.
    pub open spec fn config_mismatch(self, n: nat) -> bool {
        ||| self.dimension != n
        ||| (match self.bounds {
            Some(b) => b.sq().len() != n,
            None => false,
        })
        ||| (match self.parameter_names {
            Some(p) => p@.len() != n,
            None => false,
        })
    }

    /// A driver around `solver` for problems of the given dimensionality,
    /// with the default step budget, no bounds, and no names.
    pub fn new(solver: S, dimension: usize) -> (r: Minimizer<U, F, S>)
        ensures
            r.solver == solver,
            r.dimension == dimension,
            r.max_steps == DEFAULT_MAX_STEPS,
            r.bounds is None,
            r.parameter_names is None,
            r.steps == 0,
    {
        Minimizer {
            solver,
            dimension,
            max_steps: DEFAULT_MAX_STEPS,
            bounds: None,
            parameter_names: None,
            steps: 0,
            status: Summary::new(Vec::new(), Vec::new(), None, None),
            marker: core::marker::PhantomData,
        }
    }

    /// Run the full minimization: validate the configuration, initialize
    /// the solver, then repeatedly step until the solver converges, the
    /// abort signal fires, or the step budget runs out. The two
    /// non-converged endings are not errors: they leave a usable record
    /// whose message names the cause.
    pub fn minimize<A: AbortSignal, H: StepHook<U>>(&mut self, func: &F, x0: &Vec<i64>,
        user_data: &mut U, abort_signal: &A, hooks: &mut H) -> (r: Result<(), MinimizeError>)
        requires
            1 <= x0@.len() <= 0xFFFF,
            old(self).max_steps <= 0xFFFF_FFFF,
            (match old(self).bounds {
                Some(b) => b.wf(),
                None => true,
            }),
        ensures
            final(self).max_steps == old(self).max_steps,
            final(self).dimension == old(self).dimension,
            old(self).config_mismatch(x0@.len()) <==> r == Err::<(), MinimizeError>(
                MinimizeError::DimensionMismatch),
            r == Err::<(), MinimizeError>(MinimizeError::DimensionMismatch)
                ==> final(self).status.cost_evals == 0
                    && final(self).status.gradient_evals == 0
                    && final(self).steps == 0
                    && !final(self).status.converged,
            r is Ok ==> final(self).status.wf()
                && final(self).status.x0@.len() == x0@.len(),
            (r is Ok && all_canon(x0@)) ==> final(self).status.x0@ == x0@,
            r is Ok ==> (final(self).status.converged
                ==> final(self).status.message@ == "Converged"@),
            (r is Ok && !final(self).status.converged)
                ==> (final(self).status.message@ == "Aborted"@
                    || final(self).status.message@ == "Max steps reached"@),
            (r is Ok && abort_signal.aborted_spec()) ==> (final(self).steps == 0
                && !final(self).status.converged
                && final(self).status.message@ == "Aborted"@
                && final(self).status.x@ == final(self).status.x0@),
            (r is Ok && !abort_signal.aborted_spec() && old(self).max_steps == 0)
                ==> (final(self).steps == 0
                    && !final(self).status.converged
                    && final(self).status.message@ == "Max steps reached"@
                    && final(self).status.x@ == final(self).status.x0@),
            r is Ok ==> final(self).steps <= old(self).max_steps,
            (r is Ok && !abort_signal.aborted_spec()
                && final(self).steps < old(self).max_steps)
                ==> final(self).status.converged,
            (r is Ok && !abort_signal.aborted_spec()
                && !final(self).status.converged)
                ==> final(self).status.message@ == "Max steps reached"@,
            r is Ok ==> final(self).status.cost_evals as int
                <= (x0@.len() + 1) + final(self).steps * (x0@.len() + 2)
                    + (2 * x0@.len() + 2),
            r is Ok ==> final(self).status.gradient_evals as int
                <= (2 * x0@.len() + 2) * (final(self).steps + 2),
    {
        let n = x0.len();
        let xc = canon_vec(x0);
        let x0copy = copy_vec(&xc);
        let xcopy = copy_vec(&xc);
        let bounds_copy = match &self.bounds {
            Some(b) => Some(b.duplicate()),
            None => None,
        };
        let names_copy = match &self.parameter_names {
            Some(p) => Some(copy_names(p)),
            None => None,
        };
        self.steps = 0;
        self.status = Summary::new(x0copy, xcopy, bounds_copy, names_copy);

        let mut mismatch = self.dimension != n;
        match &self.bounds {
            Some(b) => {
                if b.len() != n {
                    mismatch = true;
                }
            },
            None => {},
        }
        match &self.parameter_names {
            Some(p) => {
                if p.len() != n {
                    mismatch = true;
                }
            },
            None => {},
        }
        if mismatch {
            return Err(MinimizeError::DimensionMismatch);
        }

        match self.solver.initialize(func, &xc, &self.bounds, user_data,
            &mut self.status) {
            Err(e) => {
                return Err(e);
            },
            Ok(()) => {},
        }

        let mut finished: bool = false;
        while !finished
            invariant
                1 <= n <= 0xFFFF,
                n == x0@.len(),
                xc@.len() == n,
                self.dimension == old(self).dimension,
                self.max_steps == old(self).max_steps,
                self.max_steps <= 0xFFFF_FFFF,
                bounds_ok(self.bounds, n as nat),
                self.solver.ready(),
                self.solver.sdim() == n as nat,
                self.status.wf(),
                self.status.x0@ == xc@,
                self.status.x@.len() == n,
                self.steps <= self.max_steps,
                self.status.cost_evals as int <= (n + 1) + self.steps * (n + 2),
                self.status.gradient_evals as int <= (2 * n + 2) * (self.steps + 1),
                !old(self).config_mismatch(x0@.len()),
                !finished ==> (abort_signal.aborted_spec() ==> self.steps == 0),
                !finished ==> !self.status.converged,
                !finished ==> self.status.message@ == Seq::<char>::empty(),
                (!finished && self.steps == 0) ==> self.status.x@ == xc@,
                finished ==> (self.status.converged
                    ==> self.status.message@ == "Converged"@),
                (finished && !self.status.converged) ==> (self.status.message@
                    == "Aborted"@ || self.status.message@ == "Max steps reached"@),
                (finished && abort_signal.aborted_spec()) ==> (self.steps == 0
                    && !self.status.converged
                    && self.status.message@ == "Aborted"@
                    && self.status.x@ == xc@),
                (finished && !abort_signal.aborted_spec() && self.max_steps == 0)
                    ==> (self.steps == 0
                        && !self.status.converged
                        && self.status.message@ == "Max steps reached"@
                        && self.status.x@ == xc@),
                (finished && !abort_signal.aborted_spec()
                    && self.steps < self.max_steps) ==> self.status.converged,
                (finished && !abort_signal.aborted_spec()
                    && !self.status.converged)
                    ==> self.status.message@ == "Max steps reached"@,
            decreases 2 * (self.max_steps - self.steps) + (if finished {
                0int
            } else {
                1int
            }),
        {
            if abort_signal.is_aborted() {
                self.status.message = "Aborted".to_owned();
                finished = true;
            } else if self.steps >= self.max_steps {
                self.status.message = "Max steps reached".to_owned();
                finished = true;
            } else {
                proof {
                    lemma_eval_budget(n as int, self.steps as int,
                        self.max_steps as int);
                }
                hooks.before_step(&mut self.status, user_data);
                match self.solver.step(func, &self.bounds, user_data,
                    &mut self.status) {
                    Err(e) => {
                        return Err(e);
                    },
                    Ok(()) => {},
                }
                hooks.after_step(&mut self.status, user_data);
                self.steps = self.steps + 1;
                proof {
                    lemma_budget_roll(n as int, self.steps as int);
                }
                if self.solver.check_convergence(&self.bounds, &self.status) {
                    self.status.converged = true;
                    self.status.message = "Converged".to_owned();
                    finished = true;
                }
            }
        }

        proof {
            lemma_eval_budget(n as int, self.steps as int, self.max_steps as int);
        }
        match self.solver.postprocess(func, &self.bounds, user_data,
            &mut self.status) {
            Err(e) => {
                return Err(e);
            },
            Ok(()) => {},
        }
        proof {
            lemma_budget_roll(n as int, self.steps as int + 1);
        }
        Ok(())
    }
}

/// The running evaluation totals stay far below the counter cap.
proof fn lemma_eval_budget(n: int, steps: int, max_steps: int)
    requires
        1 <= n <= 0xFFFF,
        0 <= steps <= max_steps,
        max_steps <= 0xFFFF_FFFF,
    ensures
        (n + 1) + steps * (n + 2) < EVAL_CAP as int,
        (2 * n + 2) * (steps + 1) < EVAL_CAP as int,
{
    assert(steps * (n + 2) <= 0xFFFF_FFFF * (0xFFFF + 2)) by (nonlinear_arith)
        requires
            0 <= steps <= 0xFFFF_FFFF,
            0 <= n <= 0xFFFF;
    assert((2 * n + 2) * (steps + 1) < 0x1000_0000_0000_0000) by (nonlinear_arith)
        requires
            0 <= steps <= 0xFFFF_FFFF,
            0 <= n <= 0xFFFF;
}

/// One more step keeps the evaluation totals within the per-step budget
/// shape.
proof fn lemma_budget_roll(n: int, steps1: int)
    requires
        steps1 >= 1,
    ensures
        (n + 1) + (steps1 - 1) * (n + 2) + (n + 2) == (n + 1) + steps1 * (n + 2),
        (2 * n + 2) * ((steps1 - 1) + 1) + (2 * n + 2) == (2 * n + 2) * (steps1 + 1),
{
    assert((steps1 - 1) * (n + 2) + (n + 2) == steps1 * (n + 2)) by (nonlinear_arith);
    assert((2 * n + 2) * ((steps1 - 1) + 1) + (2 * n + 2) == (2 * n + 2) * (steps1 + 1))
        by (nonlinear_arith);
}

} // verus!
