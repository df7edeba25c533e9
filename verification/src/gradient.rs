//! The engine's gradient fallback: a central finite-difference
//! approximation with a fixed relative step per parameter, used when a
//! problem supplies no analytic gradient.

use vstd::prelude::*;
use crate::fixed::{div_fix, fadd, fdiv, fdivk, fmulk, fneg, fsub, sat, FIX_MAX, FIX_MIN};
use crate::solver::EVAL_CAP;
use crate::summary::Summary;
use crate::traits::{CostFunction, MinimizeError};
use crate::vecs::copy_vec;

verus! {

/// Smallest finite-difference step (about one ten-thousandth), used where
/// a relative step would vanish.
pub const GRAD_STEP_MIN: i64 = 429497;

/// The exact finite-difference step for a coordinate: a thousandth of its
/// magnitude, floored at [`GRAD_STEP_MIN`].
pub open spec fn rel_step_fix(xj: int) -> int {
    let m = if xj < 0 {
        -xj
    } else {
        xj
    };
    let h0 = m / 1000;
    if h0 < GRAD_STEP_MIN as int {
        GRAD_STEP_MIN as int
    } else {
        h0
    }
}

/// The finite-difference step for a coordinate.
pub fn relative_step(xj: i64) -> (h: i64)
    requires
        FIX_MIN <= xj,
    ensures
        h as int == rel_step_fix(xj as int),
        0 < h,
        2 * (h as int) <= FIX_MAX as int,
{
    let mag = if xj < 0 {
        fneg(xj)
    } else {
        xj
    };
    let h0 = fdivk(mag, 1000);
    if h0 < GRAD_STEP_MIN {
        GRAD_STEP_MIN
    } else {
        h0
    }
}

/// The central difference quotient: the (saturated) difference of the two
/// objective values, divided by twice the step.
pub fn difference_quotient(fp: i64, fm: i64, h: i64) -> (r: i64)
    requires
        0 < h,
        2 * (h as int) <= FIX_MAX as int,
    ensures
        r as int == div_fix(sat(fp as int - fm as int), 2 * h as int),
{
    fdiv(fsub(fp, fm), fmulk(h, 2))
}

/// Evaluate the objective once and count it.
fn eval_once<U, F: CostFunction<U>>(func: &F, x: &Vec<i64>, user_data: &mut U,
    status: &mut Summary) -> (r: Result<i64, MinimizeError>)
    requires
        old(status).cost_evals < 2 * EVAL_CAP,
    ensures
        r matches Ok(v) ==> final(status).cost_evals == old(status).cost_evals + 1
            && FIX_MIN <= v,
        r is Err ==> final(status).cost_evals == old(status).cost_evals
            && r == Err::<i64, MinimizeError>(MinimizeError::EvaluationFailed),
        final(status).x@ == old(status).x@,
        final(status).x0@ == old(status).x0@,
        final(status).std@ == old(status).std@,
        final(status).fx == old(status).fx,
        final(status).gradient_evals == old(status).gradient_evals,
        final(status).converged == old(status).converged,
        final(status).message@ == old(status).message@,
{
    match func.evaluate(x, user_data) {
        Some(v) => {
            status.cost_evals = status.cost_evals + 1;
            Ok(crate::fixed::canon(v))
        },
        None => Err(MinimizeError::EvaluationFailed),
    }
}

/// The central finite-difference gradient of the objective at `x`: each
/// component is `(f(x + h e_j) - f(x - h e_j)) / (2 h)` with a relative
/// step `h` floored at [`GRAD_STEP_MIN`]. On success exactly two cost
/// evaluations per parameter and one gradient evaluation are counted.
#[verifier::loop_isolation(false)]
pub fn central_difference<U, F: CostFunction<U>>(func: &F, x: &Vec<i64>,
    user_data: &mut U, status: &mut Summary) -> (r: Result<Vec<i64>, MinimizeError>)
    requires
        1 <= x@.len() <= 0xFFFF,
        crate::vecs::all_canon(x@),
        old(status).cost_evals < EVAL_CAP,
        old(status).gradient_evals < EVAL_CAP,
    ensures
        r matches Ok(g) ==> g@.len() == x@.len()
            && final(status).cost_evals as int
                == old(status).cost_evals as int + 2 * x@.len()
            && final(status).gradient_evals == old(status).gradient_evals + 1,
        r is Err ==> r == Err::<Vec<i64>, MinimizeError>(MinimizeError::EvaluationFailed)
            && final(status).gradient_evals == old(status).gradient_evals,
        old(status).cost_evals <= final(status).cost_evals,
        final(status).cost_evals as int
            <= old(status).cost_evals as int + 2 * x@.len(),
        final(status).x@ == old(status).x@,
        final(status).x0@ == old(status).x0@,
        final(status).std@ == old(status).std@,
        final(status).fx == old(status).fx,
        final(status).converged == old(status).converged,
        final(status).message@ == old(status).message@,
{
    let n = x.len();
    let mut g: Vec<i64> = Vec::new();
    let ghost st0 = *status;
    let mut j: usize = 0;
    while j < n
        invariant
            j <= n,
            g@.len() == j,
            status.cost_evals as int == st0.cost_evals as int + 2 * j,
            status.x@ == st0.x@,
            status.x0@ == st0.x0@,
            status.std@ == st0.std@,
            status.fx == st0.fx,
            status.gradient_evals == st0.gradient_evals,
            status.converged == st0.converged,
            status.message@ == st0.message@,
        decreases n - j,
    {
        let xj = x[j];
        let h = relative_step(xj);

        let mut xp = copy_vec(x);
        xp[j] = fadd(xj, h);
        let fp = match eval_once(func, &xp, user_data, status) {
            Ok(v) => v,
            Err(e) => {
                return Err(e);
            },
        };

        let mut xm = copy_vec(x);
        xm[j] = fsub(xj, h);
        let fm = match eval_once(func, &xm, user_data, status) {
            Ok(v) => v,
            Err(e) => {
                return Err(e);
            },
        };

        g.push(difference_quotient(fp, fm, h));
        j = j + 1;
    }
    status.gradient_evals = status.gradient_evals + 1;
    Ok(g)
}

} // verus!
