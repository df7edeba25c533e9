//! The simplex search: the engine's reference gradient-free solver.
//!
//! The algorithm keeps `n + 1` evaluated points in n-dimensional internal
//! space and, each step, reflects the worst vertex through the centroid of
//! the others, optionally expanding, contracting, or shrinking the whole
//! simplex toward the best vertex. An objective value that cannot be used
//! (the analogue of a non-finite value) is the worst possible scalar, so
//! the search steers away from such points instead of terminating.

use vstd::prelude::*;
use crate::bound::Bounds;
use crate::fixed::{fadd, fdivk, fmul, fneg, fsub, FIX_MAX, SCALE};
use crate::point::Point;
use crate::solver::{bounds_ok, Solver, EVAL_CAP};
use crate::summary::Summary;
use crate::traits::{CostFunction, MinimizeError};
use crate::vecs::copy_vec;

verus! {

/// Default convergence tolerance on the objective-value spread across the
/// simplex (about a ten-millionth).
pub const DEFAULT_TOL_F: i64 = 430;

/// Smallest edge the initial simplex may have, so that a degenerate
/// (zero-volume) start is impossible (about a quarter thousandth).
pub const MIN_SIMPLEX_STEP: i64 = 1073742;

/// The objective value a point carries, or the worst possible value when
/// it was never evaluated.
pub open spec fn fxv(p: Point) -> i64 {
    match p.fx_spec() {
        Some(v) => v,
        None => FIX_MAX,
    }
}

/// One step's first possible outcome: exactly one vertex changed, it was
/// a worst vertex of the old simplex, and its new objective value is
/// strictly better than the old one.
pub open spec fn replaced_worst(os: Seq<Point>, fs: Seq<Point>, w: int) -> bool {
    &&& 0 <= w < os.len()
    &&& fs.len() == os.len()
    &&& forall|k: int| 0 <= k < os.len() && k != w ==> fs[k] == #[trigger] os[k]
    &&& forall|k: int| 0 <= k < os.len() ==> fxv(#[trigger] os[k]) <= fxv(os[w])
    &&& fxv(fs[w]) < fxv(os[w])
}

/// One step's other possible outcome: a full shrink, which keeps a best
/// vertex of the old simplex in place.
pub open spec fn kept_best(os: Seq<Point>, fs: Seq<Point>, b: int) -> bool {
    &&& 0 <= b < os.len()
    &&& fs.len() == os.len()
    &&& fs[b] == os[b]
    &&& forall|k: int| 0 <= k < os.len() ==> fxv(os[b]) <= fxv(#[trigger] os[k])
}

/// `a` indexes a vertex whose coordinate `j` is largest across the
/// simplex.
pub open spec fn coord_max_at(s: Seq<Point>, j: int, a: int) -> bool {
    &&& 0 <= a < s.len()
    &&& forall|k: int| 0 <= k < s.len()
        ==> (#[trigger] s[k]).x_spec()[j] <= s[a].x_spec()[j]
}

/// `b` indexes a vertex whose coordinate `j` is smallest across the
/// simplex.
pub open spec fn coord_min_at(s: Seq<Point>, j: int, b: int) -> bool {
    &&& 0 <= b < s.len()
    &&& forall|k: int| 0 <= k < s.len()
        ==> (#[trigger] s[k]).x_spec()[j] >= s[b].x_spec()[j]
}

/// `v` is half the spread of coordinate `j` across the simplex: half the
/// (saturated) distance between the largest and smallest value it takes.
pub open spec fn half_spread_at(s: Seq<Point>, j: int, v: int) -> bool {
    exists|a: int, b: int|
        #![trigger coord_max_at(s, j, a), coord_min_at(s, j, b)]
        coord_max_at(s, j, a) && coord_min_at(s, j, b)
            && v == crate::fixed::sat(s[a].x_spec()[j] - s[b].x_spec()[j]) / 2
}

/// Index of a vertex with the lowest objective value.
fn argmin(s: &Vec<Point>) -> (r: usize)
    requires
        s@.len() >= 1,
    ensures
        r < s@.len(),
        forall|j: int| 0 <= j < s@.len() ==> fxv(s@[r as int]) <= fxv(#[trigger] s@[j]),
{
    let mut r: usize = 0;
    let mut rv: i64 = s[0].fx_or_worst();
    let mut i: usize = 1;
    while i < s.len()
        invariant
            1 <= i <= s@.len(),
            r < i,
            rv == fxv(s@[r as int]),
            forall|j: int| 0 <= j < i ==> rv <= fxv(#[trigger] s@[j]),
        decreases s@.len() - i,
    {
        let v = s[i].fx_or_worst();
        if v < rv {
            r = i;
            rv = v;
        }
        i = i + 1;
    }
    r
}

/// Index of a vertex with the highest objective value.
fn argmax(s: &Vec<Point>) -> (r: usize)
    requires
        s@.len() >= 1,
    ensures
        r < s@.len(),
        forall|j: int| 0 <= j < s@.len() ==> fxv(s@[r as int]) >= fxv(#[trigger] s@[j]),
{
    let mut r: usize = 0;
    let mut rv: i64 = s[0].fx_or_worst();
    let mut i: usize = 1;
    while i < s.len()
        invariant
            1 <= i <= s@.len(),
            r < i,
            rv == fxv(s@[r as int]),
            forall|j: int| 0 <= j < i ==> rv >= fxv(#[trigger] s@[j]),
        decreases s@.len() - i,
    {
        let v = s[i].fx_or_worst();
        if v > rv {
            r = i;
            rv = v;
        }
        i = i + 1;
    }
    r
}

/// The highest objective value among vertices other than `excl`.
fn max_value_excluding(s: &Vec<Point>, excl: usize) -> (r: i64)
    requires
        s@.len() >= 2,
        excl < s@.len(),
    ensures
        forall|j: int| 0 <= j < s@.len() && j != excl
            ==> r >= fxv(#[trigger] s@[j]),
        exists|j: int| 0 <= j < s@.len() && j != excl && r == fxv(#[trigger] s@[j]),
{
    let mut rv: i64 = if excl == 0 {
        s[1].fx_or_worst()
    } else {
        s[0].fx_or_worst()
    };
    let mut i: usize = 0;
    while i < s.len()
        invariant
            i <= s@.len(),
            excl < s@.len(),
            s@.len() >= 2,
            forall|j: int| 0 <= j < i && j != excl ==> rv >= fxv(#[trigger] s@[j]),
            exists|j: int| 0 <= j < s@.len() && j != excl && rv == fxv(#[trigger] s@[j]),
        decreases s@.len() - i,
    {
        if i != excl {
            let v = s[i].fx_or_worst();
            if v > rv {
                rv = v;
            }
        }
        i = i + 1;
    }
    rv
}

/// The centroid of all vertices except `excl`: each coordinate is the
/// saturating mean of the remaining vertices' coordinates.
fn centroid(s: &Vec<Point>, excl: usize, dim: usize) -> (r: Vec<i64>)
    requires
        s@.len() >= 2,
        excl < s@.len(),
        forall|i: int| 0 <= i < s@.len()
            ==> (#[trigger] s@[i]).x_spec().len() == dim,
        s@.len() <= 0x10000,
    ensures
        r@.len() == dim,
{
    let n: i64 = (s.len() - 1) as i64;
    let mut r: Vec<i64> = Vec::new();
    let mut j: usize = 0;
    while j < dim
        invariant
            j <= dim,
            r@.len() == j,
            excl < s@.len(),
            s@.len() >= 2,
            s@.len() <= 0x10000,
            n == s@.len() - 1,
            forall|i: int| 0 <= i < s@.len()
                ==> (#[trigger] s@[i]).x_spec().len() == dim,
        decreases dim - j,
    {
        let mut sum: i64 = 0;
        let mut i: usize = 0;
        while i < s.len()
            invariant
                i <= s@.len(),
                excl < s@.len(),
                j < dim,
                crate::fixed::FIX_MIN <= sum,
                forall|k: int| 0 <= k < s@.len()
                    ==> (#[trigger] s@[k]).x_spec().len() == dim,
            decreases s@.len() - i,
        {
            if i != excl {
                sum = fadd(sum, s[i].coord(j));
            }
            i = i + 1;
        }
        r.push(fdivk(sum, n));
        j = j + 1;
    }
    r
}

/// The affine combination `c + coef * (d - c)`, element by element with
/// saturating arithmetic.
fn combine(c: &Vec<i64>, d: &Vec<i64>, coef: i64) -> (r: Vec<i64>)
    requires
        c@.len() == d@.len(),
    ensures
        r@.len() == c@.len(),
{
    let mut r: Vec<i64> = Vec::new();
    let mut j: usize = 0;
    while j < c.len()
        invariant
            j <= c@.len(),
            c@.len() == d@.len(),
            r@.len() == j,
        decreases c@.len() - j,
    {
        r.push(fadd(c[j], fmul(coef, fsub(d[j], c[j]))));
        j = j + 1;
    }
    r
}

/// Evaluate the objective at the internal point `x`: map to external
/// coordinates when bounds are set, call the user's cost function, and
/// count exactly one evaluation on success.
fn eval_at<U, F: CostFunction<U>>(func: &F, x: &Vec<i64>, bounds: &Option<Bounds>,
    user_data: &mut U, status: &mut Summary) -> (r: Result<i64, MinimizeError>)
    requires
        bounds_ok(*bounds, x@.len()),
        old(status).cost_evals < 2 * EVAL_CAP,
    ensures
        r matches Ok(v) ==> final(status).cost_evals == old(status).cost_evals + 1
            && crate::fixed::FIX_MIN <= v,
        r is Err ==> final(status).cost_evals == old(status).cost_evals
            && r == Err::<i64, MinimizeError>(MinimizeError::EvaluationFailed),
        final(status).x@ == old(status).x@,
        final(status).x0@ == old(status).x0@,
        final(status).std@ == old(status).std@,
        final(status).fx == old(status).fx,
        final(status).gradient_evals == old(status).gradient_evals,
        final(status).converged == old(status).converged,
        final(status).message@ == old(status).message@,
{
    let out = match bounds {
        Some(b) => {
            let ext = b.to_external_vec(x);
            func.evaluate(&ext, user_data)
        },
        None => func.evaluate(x, user_data),
    };
    match out {
        Some(v) => {
            status.cost_evals = status.cost_evals + 1;
            Ok(crate::fixed::canon(v))
        },
        None => Err(MinimizeError::EvaluationFailed),
    }
}

/// The simplex search solver with optional adaptive coefficients.
pub struct NelderMead {
    simplex: Vec<Point>,
    dim: usize,
    is_ready: bool,
    adaptive: bool,
    alpha: i64,
    gamma: i64,
    rho: i64,
    sigma: i64,
    tol_f: i64,
}

impl NelderMead {
    /// The held simplex.
    pub closed spec fn simplex_spec(self) -> Seq<Point> {
        self.simplex@
    }

    /// Whether adaptive (dimension-scaled) coefficients are in use.
    pub closed spec fn adaptive_spec(self) -> bool {
        self.adaptive
    }

    /// The simplex is complete: one vertex more than the dimension, every
    /// vertex of the right dimension and carrying an objective value.
    pub closed spec fn simplex_wf(self) -> bool {
        &&& self.simplex@.len() == self.dim + 1
        &&& 1 <= self.dim <= 0xFFFF
        &&& forall|i: int| 0 <= i < self.simplex@.len() ==> {
            &&& (#[trigger] self.simplex@[i]).x_spec().len() == self.dim
            &&& self.simplex@[i].fx_spec() is Some
        }
    }

    /// A solver with the standard coefficients (reflection one, expansion
    /// two, contraction one half, shrink one half) and the default
    /// value-spread tolerance.
    pub fn new() -> (r: NelderMead)
        ensures
            !r.adaptive_spec(),
            !r.is_ready_spec(),
            r.alpha_spec() == SCALE,
            r.gamma_spec() == 2 * SCALE,
            r.rho_spec() == SCALE / 2,
            r.sigma_spec() == SCALE / 2,
            r.tol_f_spec() == DEFAULT_TOL_F,
    {
        NelderMead {
            simplex: Vec::new(),
            dim: 0,
            is_ready: false,
            adaptive: false,
            alpha: SCALE,
            gamma: 2 * SCALE,
            rho: SCALE / 2,
            sigma: SCALE / 2,
            tol_f: DEFAULT_TOL_F,
        }
    }

    /// Switch to adaptive coefficients, which are rescaled by the problem
    /// dimension at initialization to keep convergence behavior in higher
    /// dimensions.
    pub fn with_adaptive(self) -> (r: NelderMead)
        ensures
            r.adaptive_spec(),
            r.is_ready_spec() == self.is_ready_spec(),
            r.alpha_spec() == self.alpha_spec(),
            r.gamma_spec() == self.gamma_spec(),
            r.rho_spec() == self.rho_spec(),
            r.sigma_spec() == self.sigma_spec(),
            r.tol_f_spec() == self.tol_f_spec(),
            r.simplex_spec() == self.simplex_spec(),
            r.dim_spec() == self.dim_spec(),
    {
        NelderMead { adaptive: true, ..self }
    }

    /// Replace the convergence tolerance on the simplex value spread.
    pub fn with_tolerance(self, tol_f: i64) -> (r: NelderMead)
        ensures
            r.tol_f_spec() == tol_f,
            r.adaptive_spec() == self.adaptive_spec(),
            r.is_ready_spec() == self.is_ready_spec(),
            r.alpha_spec() == self.alpha_spec(),
            r.gamma_spec() == self.gamma_spec(),
            r.rho_spec() == self.rho_spec(),
            r.sigma_spec() == self.sigma_spec(),
            r.simplex_spec() == self.simplex_spec(),
            r.dim_spec() == self.dim_spec(),
    {
        NelderMead { tol_f, ..self }
    }

    /// Store vertex `i`.
    fn put_vertex(&mut self, i: usize, x: Vec<i64>, fx: i64)
        requires
            old(self).simplex_wf(),
            i < old(self).simplex_spec().len(),
            x@.len() == old(self).simplex_spec()[i as int].x_spec().len(),
        ensures
            final(self).simplex_wf(),
            final(self).simplex_spec().len() == old(self).simplex_spec().len(),
            final(self).simplex_spec()[i as int].x_spec() == x@,
            final(self).simplex_spec()[i as int].fx_spec() == Some(fx),
            forall|k: int| 0 <= k < old(self).simplex_spec().len() && k != i
                ==> final(self).simplex_spec()[k] == old(self).simplex_spec()[k],
            final(self).dim_spec() == old(self).dim_spec(),
            final(self).is_ready_spec() == old(self).is_ready_spec(),
            final(self).adaptive_spec() == old(self).adaptive_spec(),
            final(self).tol_f_spec() == old(self).tol_f_spec(),
    {
        let mut p = Point::new(x);
        p.set_fx(fx);
        self.simplex[i] = p;
    }

    /// The recorded dimensionality.
    pub closed spec fn dim_spec(self) -> nat {
        self.dim as nat
    }

    /// Whether initialization completed.
    pub closed spec fn is_ready_spec(self) -> bool {
        self.is_ready
    }

    /// The convergence tolerance on the simplex value spread.
    pub closed spec fn tol_f_spec(self) -> i64 {
        self.tol_f
    }

    /// The reflection coefficient in use.
    pub closed spec fn alpha_spec(self) -> i64 {
        self.alpha
    }

    /// The expansion coefficient in use.
    pub closed spec fn gamma_spec(self) -> i64 {
        self.gamma
    }

    /// The contraction coefficient in use.
    pub closed spec fn rho_spec(self) -> i64 {
        self.rho
    }

    /// The shrink coefficient in use.
    pub closed spec fn sigma_spec(self) -> i64 {
        self.sigma
    }

    /// The termination criterion holds: the objective values of every
    /// pair of vertices lie within the configured tolerance of one
    /// another.
    pub open spec fn spread_converged(self) -> bool {
        forall|i: int, j: int|
            0 <= i < self.simplex_spec().len() && 0 <= j < self.simplex_spec().len()
                ==> crate::fixed::sat(fxv(#[trigger] self.simplex_spec()[i])
                    - fxv(#[trigger] self.simplex_spec()[j])) <= self.tol_f_spec()
    }

    /// The termination criterion of the simplex search: true exactly when
    /// the objective values of every pair of vertices lie within the
    /// configured tolerance of one another.
    pub fn value_spread_within_tolerance(&self) -> (r: bool)
        requires
            self.simplex_wf(),
        ensures
            r == self.spread_converged(),
    {
        let worst = argmax(&self.simplex);
        let best = argmin(&self.simplex);
        let spread = fsub(self.simplex[worst].fx_or_worst(),
            self.simplex[best].fx_or_worst());
        proof {
            if spread <= self.tol_f {
                assert forall|i: int, j: int|
                    0 <= i < self.simplex_spec().len()
                        && 0 <= j < self.simplex_spec().len()
                    implies crate::fixed::sat(fxv(#[trigger] self.simplex_spec()[i])
                        - fxv(#[trigger] self.simplex_spec()[j])) <= self.tol_f_spec() by {
                    assert(fxv(self.simplex_spec()[i])
                        <= fxv(self.simplex_spec()[worst as int]));
                    assert(fxv(self.simplex_spec()[best as int])
                        <= fxv(self.simplex_spec()[j]));
                }
            }
        }
        spread <= self.tol_f
    }
}

impl<U, F: CostFunction<U>> Solver<U, F> for NelderMead {
    open spec fn ready(&self) -> bool {
        self.is_ready_spec() && self.simplex_wf()
    }

    open spec fn sdim(&self) -> nat {
        self.dim_spec()
    }

    #[verifier::loop_isolation(false)]
    fn initialize(&mut self, func: &F, x0: &Vec<i64>, bounds: &Option<Bounds>,
        user_data: &mut U, status: &mut Summary) -> (r: Result<(), MinimizeError>)
        ensures
            // exactly one evaluation per vertex of the fresh simplex
            r is Ok ==> final(status).cost_evals as int == x0@.len() + 1,
            r is Ok ==> final(status).gradient_evals == old(status).gradient_evals,
            final(self).adaptive_spec() == old(self).adaptive_spec(),
            final(self).tol_f_spec() == old(self).tol_f_spec(),
            r is Ok ==> final(self).simplex_spec().len() == x0@.len() + 1,
            // without bounds the base vertex is the start itself
            (r is Ok && bounds is None) ==> final(self).simplex_spec()[0].x_spec()
                == x0@,
            // vertex i differs from the base vertex only in coordinate i - 1
            r is Ok ==> forall|i: int, j: int|
                1 <= i < final(self).simplex_spec().len() && 0 <= j < x0@.len()
                    && j != i - 1
                    ==> (#[trigger] final(self).simplex_spec()[i].x_spec()[j])
                        == final(self).simplex_spec()[0].x_spec()[j],
            // and there it is displaced upward by at least the minimum
            // edge, so the simplex cannot be degenerate
            r is Ok ==> forall|i: int|
                1 <= i < final(self).simplex_spec().len()
                    ==> (#[trigger] final(self).simplex_spec()[i]).x_spec()[
                        i - 1] as int
                        >= crate::fixed::sat(final(self).simplex_spec()[0].x_spec()[
                            i - 1] as int + MIN_SIMPLEX_STEP as int),
            // adaptive mode pins the dimension-scaled coefficients
            (r is Ok && old(self).adaptive_spec()) ==> (final(self).alpha_spec()
                == SCALE
                && final(self).gamma_spec() as int == crate::fixed::sat(
                    SCALE as int + (2 * SCALE as int) / (x0@.len() as int))
                && final(self).rho_spec() as int == crate::fixed::sat(
                    3 * (SCALE as int / 4) - (SCALE as int) / (2 * x0@.len() as int))
                && final(self).sigma_spec() as int == crate::fixed::sat(
                    SCALE as int - (SCALE as int) / (x0@.len() as int))),
            (r is Ok && !old(self).adaptive_spec()) ==> (final(self).alpha_spec()
                == old(self).alpha_spec()
                && final(self).gamma_spec() == old(self).gamma_spec()
                && final(self).rho_spec() == old(self).rho_spec()
                && final(self).sigma_spec() == old(self).sigma_spec()),
    {
        let n = x0.len();
        let xi = match bounds {
            Some(b) => {
                let clipped = b.clip_vec(x0);
                b.to_internal_vec(&clipped)
            },
            None => copy_vec(x0),
        };

        let mut simplex: Vec<Point> = Vec::new();
        let f0 = match eval_at(func, &xi, bounds, user_data, status) {
            Ok(v) => v,
            Err(_) => {
                return Err(MinimizeError::InvalidInitialPoint);
            },
        };
        let mut p0 = Point::new(copy_vec(&xi));
        p0.set_fx(f0);
        simplex.push(p0);
        let ghost st0 = *status;

        let mut i: usize = 0;
        while i < n
            invariant
                i <= n,
                n == x0@.len(),
                1 <= n <= 0xFFFF,
                xi@.len() == n,
                simplex@.len() == i + 1,
                forall|k: int| 0 <= k < simplex@.len() ==> {
                    &&& (#[trigger] simplex@[k]).x_spec().len() == n
                    &&& simplex@[k].fx_spec() is Some
                },
                simplex@[0].x_spec() == xi@,
                forall|k: int, j: int| 1 <= k < simplex@.len() && 0 <= j < n
                    && j != k - 1
                    ==> (#[trigger] simplex@[k].x_spec()[j]) == xi@[j],
                forall|k: int| 1 <= k < simplex@.len()
                    ==> (#[trigger] simplex@[k]).x_spec()[k - 1] as int
                        >= crate::fixed::sat(xi@[k - 1] as int
                            + MIN_SIMPLEX_STEP as int),
                bounds_ok(*bounds, n as nat),
                status.cost_evals as int == st0.cost_evals as int + i,
                status.cost_evals < 2 * EVAL_CAP,
                status.wf(),
                status.x@ == st0.x@,
                status.x0@ == st0.x0@,
                status.std@ == st0.std@,
                status.gradient_evals == st0.gradient_evals,
                status.converged == st0.converged,
                status.message@ == st0.message@,
            decreases n - i,
        {
            let ci = xi[i];
            let mag = if ci < 0 {
                fneg(ci)
            } else {
                ci
            };
            let mut h = fdivk(mag, 20);
            if h < MIN_SIMPLEX_STEP {
                h = MIN_SIMPLEX_STEP;
            }
            let mut v = copy_vec(&xi);
            v[i] = fadd(ci, h);
            let fv = match eval_at(func, &v, bounds, user_data, status) {
                Ok(w) => w,
                Err(_) => {
                    return Err(MinimizeError::InvalidInitialPoint);
                },
            };
            let mut p = Point::new(v);
            p.set_fx(fv);
            simplex.push(p);
            i = i + 1;
        }

        self.simplex = simplex;
        self.dim = n;
        self.is_ready = true;
        let ni: i64 = n as i64;
        if self.adaptive {
            self.alpha = SCALE;
            self.gamma = fadd(SCALE, fdivk(2 * SCALE, ni));
            self.rho = fsub(3 * (SCALE / 4), fdivk(SCALE, 2 * ni));
            self.sigma = fsub(SCALE, fdivk(SCALE, ni));
        }
        status.fx = f0;
        Ok(())
    }

    #[verifier::loop_isolation(false)]
    fn step(&mut self, func: &F, bounds: &Option<Bounds>, user_data: &mut U,
        status: &mut Summary) -> (r: Result<(), MinimizeError>)
        ensures
            r is Ok ==> forall|i: int| 0 <= i < final(self).simplex_spec().len()
                ==> final(status).fx <= fxv(#[trigger] final(self).simplex_spec()[i]),
            // one evaluation for an accepted reflection, two with an
            // expansion or contraction, and the dimension plus two for a
            // full shrink
            r is Ok ==> (((exists|w: int| #[trigger] replaced_worst(
                    old(self).simplex_spec(), final(self).simplex_spec(), w))
                && old(status).cost_evals as int + 1 <= final(status).cost_evals as int
                && final(status).cost_evals as int
                    <= old(status).cost_evals as int + 2)
                || ((exists|b: int| #[trigger] kept_best(
                    old(self).simplex_spec(), final(self).simplex_spec(), b))
                && final(status).cost_evals as int
                    == old(status).cost_evals as int + old(self).dim_spec() + 2)),
    {
        let n = self.dim;
        let ghost os = self.simplex@;
        let worst = argmax(&self.simplex);
        let best = argmin(&self.simplex);
        let f_best = self.simplex[best].fx_or_worst();
        let f_worst = self.simplex[worst].fx_or_worst();
        let f_second_worst = max_value_excluding(&self.simplex, worst);

        let c = centroid(&self.simplex, worst, n);
        let xr = combine(&c, self.simplex[worst].coords(), fneg(self.alpha));
        let fr = match eval_at(func, &xr, bounds, user_data, status) {
            Ok(v) => v,
            Err(e) => {
                return Err(e);
            },
        };

        if fr < f_best {
            let xe = combine(&c, &xr, self.gamma);
            let fe = match eval_at(func, &xe, bounds, user_data, status) {
                Ok(v) => v,
                Err(e) => {
                    return Err(e);
                },
            };
            if fe < fr {
                self.put_vertex(worst, xe, fe);
            } else {
                self.put_vertex(worst, xr, fr);
            }
            proof {
                assert(replaced_worst(os, self.simplex@, worst as int));
            }
        } else if fr < f_second_worst {
            self.put_vertex(worst, xr, fr);
            proof {
                assert(replaced_worst(os, self.simplex@, worst as int));
            }
        } else {
            let inside = fr >= f_worst;
            let xc = if inside {
                combine(&c, &xr, fneg(self.rho))
            } else {
                combine(&c, &xr, self.rho)
            };
            let fc = match eval_at(func, &xc, bounds, user_data, status) {
                Ok(v) => v,
                Err(e) => {
                    return Err(e);
                },
            };
            let improved = if inside {
                fc < f_worst
            } else {
                fc <= fr
            };
            if improved {
                self.put_vertex(worst, xc, fc);
                proof {
                    assert(replaced_worst(os, self.simplex@, worst as int));
                }
            } else {
                // full shrink toward the best vertex
                let ghost st1 = *status;
                let mut i: usize = 0;
                while i < self.simplex.len()
                    invariant
                        self.simplex_wf(),
                        self.dim_spec() == n as nat,
                        self.is_ready_spec(),
                        i <= self.simplex_spec().len(),
                        best < self.simplex_spec().len(),
                        self.simplex_spec().len() == os.len(),
                        self.simplex_spec()[best as int] == os[best as int],
                        bounds_ok(*bounds, n as nat),
                        st1.cost_evals < 2 * EVAL_CAP - 0x20000,
                        status.cost_evals as int == st1.cost_evals as int + i
                            - (if best < i { 1int } else { 0int }),
                        st1.cost_evals <= status.cost_evals,
                        status.wf(),
                        status.x@.len() == st1.x@.len(),
                        status.x0@ == st1.x0@,
                        status.std@ == st1.std@,
                        status.gradient_evals == st1.gradient_evals,
                        status.converged == st1.converged,
                        status.message@ == st1.message@,
                    decreases self.simplex_spec().len() - i,
                {
                    if i != best {
                        let v = combine(self.simplex[best].coords(),
                            self.simplex[i].coords(), self.sigma);
                        let fv = match eval_at(func, &v, bounds, user_data, status) {
                            Ok(w) => w,
                            Err(e) => {
                                return Err(e);
                            },
                        };
                        self.put_vertex(i, v, fv);
                    }
                    i = i + 1;
                }
                proof {
                    assert(kept_best(os, self.simplex@, best as int));
                }
            }
        }

        let b2 = argmin(&self.simplex);
        let bx = self.simplex[b2].coords();
        let ext = match bounds {
            Some(b) => b.to_external_vec(bx),
            None => copy_vec(bx),
        };
        status.x = ext;
        status.fx = self.simplex[b2].fx_or_worst();
        proof {
            assert(os == old(self).simplex_spec());
            assert((exists|w: int| #[trigger] replaced_worst(os, self.simplex@, w))
                || (exists|b: int| #[trigger] kept_best(os, self.simplex@, b)));
        }
        Ok(())
    }

    // The exact criterion (`r == self.spread_converged()`) is stated and
    // proved on `value_spread_within_tolerance`, the body's one call; an
    // ensures clause here would need the impl's problem types, which this
    // method's signature does not mention.
    fn check_convergence(&self, bounds: &Option<Bounds>, status: &Summary) -> (r: bool)
    {
        self.value_spread_within_tolerance()
    }

    // Fill the dispersion estimate: half the spread of each internal
    // coordinate across the simplex at termination.
    #[verifier::loop_isolation(false)]
    fn postprocess(&mut self, func: &F, bounds: &Option<Bounds>, user_data: &mut U,
        status: &mut Summary) -> (r: Result<(), MinimizeError>)
        ensures
            final(self).simplex_spec() == old(self).simplex_spec(),
            r is Ok ==> final(status).std@.len() == old(self).dim_spec(),
            r is Ok ==> forall|j: int| 0 <= j < old(self).dim_spec()
                ==> half_spread_at(old(self).simplex_spec(), j,
                    (#[trigger] final(status).std@[j]) as int),
    {
        let n = self.dim;
        let mut std: Vec<i64> = Vec::new();
        let mut j: usize = 0;
        while j < n
            invariant
                self.simplex_wf(),
                n == self.dim_spec(),
                j <= n,
                std@.len() == j,
                forall|jj: int| 0 <= jj < j
                    ==> half_spread_at(self.simplex@, jj,
                        (#[trigger] std@[jj]) as int),
            decreases n - j,
        {
            let mut lo: i64 = self.simplex[0].coord(j);
            let mut hi: i64 = lo;
            let ghost mut ilo: int = 0;
            let ghost mut ihi: int = 0;
            let mut i: usize = 1;
            while i < self.simplex.len()
                invariant
                    self.simplex_wf(),
                    n == self.dim_spec(),
                    j < n,
                    i <= self.simplex_spec().len(),
                    0 <= ilo < self.simplex_spec().len(),
                    0 <= ihi < self.simplex_spec().len(),
                    lo == self.simplex_spec()[ilo].x_spec()[j as int],
                    hi == self.simplex_spec()[ihi].x_spec()[j as int],
                    forall|k: int| 0 <= k < i
                        ==> (#[trigger] self.simplex_spec()[k]).x_spec()[j as int]
                            >= lo,
                    forall|k: int| 0 <= k < i
                        ==> (#[trigger] self.simplex_spec()[k]).x_spec()[j as int]
                            <= hi,
                decreases self.simplex_spec().len() - i,
            {
                let v = self.simplex[i].coord(j);
                if v < lo {
                    lo = v;
                    proof {
                        ilo = i as int;
                    }
                }
                if v > hi {
                    hi = v;
                    proof {
                        ihi = i as int;
                    }
                }
                i = i + 1;
            }
            let half = fdivk(fsub(hi, lo), 2);
            proof {
                assert(coord_max_at(self.simplex@, j as int, ihi));
                assert(coord_min_at(self.simplex@, j as int, ilo));
                assert(half_spread_at(self.simplex@, j as int, half as int));
            }
            std.push(half);
            j = j + 1;
        }
        status.std = std;
        Ok(())
    }
}

} // verus!
