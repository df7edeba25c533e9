//! The run's evolving and final record: status fields the control loop
//! updates on every step, frozen once minimization returns.

use vstd::prelude::*;
use crate::bound::Bounds;
use crate::vecs::zeros;

verus! {

/// The results record of a minimization run.
pub struct Summary {
    /// The bounds of the parameters; `None` when no bounds were set.
    pub bounds: Option<Bounds>,
    /// The names of the parameters; `None` when no names were set.
    pub parameter_names: Option<Vec<String>>,
    /// A free-text message describing how the run ended.
    pub message: String,
    /// The initial parameter vector.
    pub x0: Vec<i64>,
    /// The current best parameter vector (external coordinates).
    pub x: Vec<i64>,
    /// A per-parameter dispersion estimate at the end of the run.
    pub std: Vec<i64>,
    /// The objective value at [`Summary::x`].
    pub fx: i64,
    /// How many objective evaluations the run has performed.
    pub cost_evals: u64,
    /// How many gradient evaluations the run has performed.
    pub gradient_evals: u64,
    /// Whether the algorithm's own convergence criterion was met.
    pub converged: bool,
}

impl Summary {
    /// The record is well formed when the current, initial, and dispersion
    /// vectors all have the problem's dimensionality.
    pub open spec fn wf(self) -> bool {
        &&& self.x@.len() == self.x0@.len()
        &&& self.std@.len() == self.x0@.len()
    }

    /// A fresh record for a run starting at `x0`: the current vector is
    /// the initial one, counters are zero, and no convergence is claimed.
    pub fn new(x0: Vec<i64>, x: Vec<i64>, bounds: Option<Bounds>,
        parameter_names: Option<Vec<String>>) -> (r: Summary)
        requires
            x@.len() == x0@.len(),
        ensures
            r.wf(),
            r.x0@ == x0@,
            r.x@ == x@,
            r.std@.len() == x0@.len(),
            r.fx == crate::fixed::FIX_MAX,
            r.cost_evals == 0,
            r.gradient_evals == 0,
            !r.converged,
            r.message@ == Seq::<char>::empty(),
            r.bounds == bounds,
            r.parameter_names == parameter_names,
    {
        let n = x0.len();
        Summary {
            bounds,
            parameter_names,
            message: String::new(),
            x0,
            x,
            std: zeros(n),
            fx: crate::fixed::FIX_MAX,
            cost_evals: 0,
            gradient_evals: 0,
            converged: false,
        }
    }
}

} // verus!
