//! Per-parameter box constraints and the transform between the internal
//! (unconstrained) and the external (user-visible, constrained)
//! representation of a parameter.
//!
//! Search algorithms that natively work on an unconstrained space run in
//! internal coordinates; the objective is only ever evaluated at external
//! coordinates obtained through [`Bound::to_external`], which provably
//! lands inside the bound's closed interval.

use vstd::prelude::*;
use crate::fixed::{
    asin_cases, canon, clamp_fix, fadd, fclamp, fdiv, fdivk, div_fix, fmul, fmulk, fneg,
    fsin, fsqrt, fsub, fasin, is_sqrt_floor, mul_fix, sat, sin_fix,
    FIX_MAX, FIX_MIN, PI_2_FIX, SCALE,
};

verus! {

/// Numerical tolerance used by [`Bound::at_bound`]: about six millionths
/// in fixed-point form.
pub const AT_BOUND_TOL: i64 = 25770;

/// A single-parameter constraint: none, lower only, upper only, or both.
#[derive(Clone, Copy, Debug, PartialEq, Eq, Structural)]
pub enum Bound {
    /// The parameter is free.
    NoBound,
    /// The parameter may not go below the carried limit.
    LowerBound(i64),
    /// The parameter may not go above the carried limit.
    UpperBound(i64),
    /// The parameter is confined to the closed interval between the two
    /// carried limits.
    LowerAndUpperBound(i64, i64),
}

impl Bound {
    /// A bound is well formed when its limits lie in the scalar range and,
    /// if both are present, the lower is strictly below the upper.
    pub open spec fn wf(self) -> bool {
        match self {
            Bound::NoBound => true,
            Bound::LowerBound(m) => FIX_MIN <= m,
            Bound::UpperBound(m) => FIX_MIN <= m,
            Bound::LowerAndUpperBound(lo, hi) => FIX_MIN <= lo && lo < hi,
        }
    }

    /// The effective lower limit (the bottom of the scalar range when the
    /// bound has none).
    pub open spec fn lower_spec(self) -> i64 {
        match self {
            Bound::NoBound => FIX_MIN,
            Bound::LowerBound(m) => m,
            Bound::UpperBound(_) => FIX_MIN,
            Bound::LowerAndUpperBound(lo, _) => lo,
        }
    }

    /// The effective upper limit (the top of the scalar range when the
    /// bound has none).
    pub open spec fn upper_spec(self) -> i64 {
        match self {
            Bound::NoBound => FIX_MAX,
            Bound::LowerBound(_) => FIX_MAX,
            Bound::UpperBound(m) => m,
            Bound::LowerAndUpperBound(_, hi) => hi,
        }
    }

    /// The effective lower limit as a value.
    pub fn lower(&self) -> (r: i64)
        ensures
            r == self.lower_spec(),
    {
        match self {
            Bound::NoBound => FIX_MIN,
            Bound::LowerBound(m) => *m,
            Bound::UpperBound(_) => FIX_MIN,
            Bound::LowerAndUpperBound(lo, _) => *lo,
        }
    }

    /// The effective upper limit as a value.
    pub fn upper(&self) -> (r: i64)
        ensures
            r == self.upper_spec(),
    {
        match self {
            Bound::NoBound => FIX_MAX,
            Bound::LowerBound(_) => FIX_MAX,
            Bound::UpperBound(m) => *m,
            Bound::LowerAndUpperBound(_, hi) => *hi,
        }
    }

    /// Whether `x` lies within the bound's closed interval.
    pub fn contains(&self, x: i64) -> (r: bool)
        ensures
            r == (self.lower_spec() <= x <= self.upper_spec()),
    {
        let lo = self.lower();
        let hi = self.upper();
        lo <= x && x <= hi
    }

    /// Clamp `x` into the bound's closed interval.
    pub fn clip(&self, x: i64) -> (r: i64)
        requires
            self.wf(),
        ensures
            r == if x < self.lower_spec() {
                self.lower_spec()
            } else if x > self.upper_spec() {
                self.upper_spec()
            } else {
                x
            },
            self.lower_spec() <= r <= self.upper_spec(),
    {
        fclamp(x, self.lower(), self.upper())
    }

    /// Whether `x` lies within a small numerical tolerance of the bound's
    /// lower or upper limit (never true for a missing limit).
    pub fn at_bound(&self, x: i64) -> (r: bool)
        requires
            self.wf(),
        ensures
            r == (self.near_lower(x) || self.near_upper(x)),
    {
        let near_lo = match self {
            Bound::NoBound => false,
            Bound::UpperBound(_) => false,
            Bound::LowerBound(m) => {
                let d = fsub(x, *m);
                -AT_BOUND_TOL <= d && d <= AT_BOUND_TOL
            },
            Bound::LowerAndUpperBound(lo, _) => {
                let d = fsub(x, *lo);
                -AT_BOUND_TOL <= d && d <= AT_BOUND_TOL
            },
        };
        let near_hi = match self {
            Bound::NoBound => false,
            Bound::LowerBound(_) => false,
            Bound::UpperBound(m) => {
                let d = fsub(x, *m);
                -AT_BOUND_TOL <= d && d <= AT_BOUND_TOL
            },
            Bound::LowerAndUpperBound(_, hi) => {
                let d = fsub(x, *hi);
                -AT_BOUND_TOL <= d && d <= AT_BOUND_TOL
            },
        };
        near_lo || near_hi
    }

    /// Whether `x` is within tolerance of a present lower limit.
    pub open spec fn near_lower(self, x: i64) -> bool {
        match self {
            Bound::NoBound => false,
            Bound::UpperBound(_) => false,
            Bound::LowerBound(m) => -AT_BOUND_TOL <= crate::fixed::sat(x - m)
                <= AT_BOUND_TOL,
            Bound::LowerAndUpperBound(lo, _) => -AT_BOUND_TOL <= crate::fixed::sat(x - lo)
                <= AT_BOUND_TOL,
        }
    }

    /// Whether `x` is within tolerance of a present upper limit.
    pub open spec fn near_upper(self, x: i64) -> bool {
        match self {
            Bound::NoBound => false,
            Bound::LowerBound(_) => false,
            Bound::UpperBound(m) => -AT_BOUND_TOL <= crate::fixed::sat(x - m)
                <= AT_BOUND_TOL,
            Bound::LowerAndUpperBound(_, hi) => -AT_BOUND_TOL <= crate::fixed::sat(x - hi)
                <= AT_BOUND_TOL,
        }
    }

    /// Map an external (constrained) value to the internal (unconstrained)
    /// representation. External values are clamped into the interval
    /// first; for a free parameter this is the identity.
    pub fn to_internal(&self, x: i64) -> (r: i64)
        requires
            self.wf(),
        ensures
            matches!(self, Bound::NoBound) ==> r == canon_spec(x),
            matches!(self, Bound::LowerBound(_)) ==> 0 <= r,
            matches!(self, Bound::UpperBound(_)) ==> 0 <= r,
            matches!(self, Bound::LowerAndUpperBound(_, _))
                ==> -PI_2_FIX <= r <= PI_2_FIX,
            internal_image(*self, x, r),
    {
        match self {
            Bound::NoBound => canon(x),
            Bound::LowerBound(m) => {
                let xc = self.clip(x);
                let d = fadd(fsub(xc, *m), SCALE);
                let inner = fsub(fmul(d, d), SCALE);
                let inner = if inner < 0 {
                    0
                } else {
                    inner
                };
                let rt = fsqrt(inner);
                proof {
                    assert(inner as int == one_sided_sq_arg(
                        sat(clamp_fix(x as int, *m as int, FIX_MAX as int)
                            - *m as int)));
                    assert(is_sqrt_floor(one_sided_sq_arg(
                        sat(clamp_fix(x as int, *m as int, FIX_MAX as int)
                            - *m as int)) * (SCALE as int), rt as int));
                }
                rt
            },
            Bound::UpperBound(m) => {
                let xc = self.clip(x);
                let d = fadd(fsub(*m, xc), SCALE);
                let inner = fsub(fmul(d, d), SCALE);
                let inner = if inner < 0 {
                    0
                } else {
                    inner
                };
                let rt = fsqrt(inner);
                proof {
                    assert(inner as int == one_sided_sq_arg(
                        sat(*m as int - clamp_fix(x as int, FIX_MIN as int,
                            *m as int))));
                    assert(is_sqrt_floor(one_sided_sq_arg(
                        sat(*m as int - clamp_fix(x as int, FIX_MIN as int,
                            *m as int))) * (SCALE as int), rt as int));
                }
                rt
            },
            Bound::LowerAndUpperBound(lo, hi) => {
                let xc = self.clip(x);
                let w = fsub(*hi, *lo);
                let u = fsub(fdiv(fmulk(fsub(xc, *lo), 2), w), SCALE);
                let u = fclamp(u, -SCALE, SCALE);
                proof {
                    assert(u as int == both_internal_arg(x as int, lo as int,
                        hi as int));
                }
                fasin(u)
            },
        }
    }

    /// Map an internal (unconstrained) value back to the external
    /// (constrained) representation. The result provably lies inside the
    /// bound's closed interval; for a free parameter this is the identity.
    pub fn to_external(&self, x: i64) -> (r: i64)
        requires
            self.wf(),
        ensures
            matches!(self, Bound::NoBound) ==> r == canon_spec(x),
            self.lower_spec() <= r <= self.upper_spec(),
            external_image(*self, x, r),
    {
        match self {
            Bound::NoBound => canon(x),
            Bound::LowerBound(m) => {
                let s = sqrt_sq_plus_one(x);
                fadd(fsub(*m, SCALE), s)
            },
            Bound::UpperBound(m) => {
                let s = sqrt_sq_plus_one(x);
                fsub(fadd(*m, SCALE), s)
            },
            Bound::LowerAndUpperBound(lo, hi) => {
                let s = fsin(x);
                let sp1 = fadd(s, SCALE);
                let hw = fdivk(fsub(*hi, *lo), 2);
                let t = fmul(sp1, hw);
                proof {
                    lemma_ext_both(sp1 as int, hw as int, t as int,
                        lo as int, hi as int);
                }
                fadd(*lo, t)
            },
        }
    }
}

/// The quantity the one-sided internal map takes the square root of: the
/// shifted distance from the limit, squared, less one (never negative).
pub open spec fn one_sided_sq_arg(dist: int) -> int {
    let d = sat(dist + SCALE as int);
    let i0 = sat(mul_fix(d, d) - SCALE as int);
    if i0 < 0 {
        0
    } else {
        i0
    }
}

/// The argument the doubly-bounded internal map hands to the arcsine:
/// the clamped value's position in the interval, rescaled to one-of-one.
pub open spec fn both_internal_arg(x: int, lo: int, hi: int) -> int {
    let xc = clamp_fix(x, lo, hi);
    let w = sat(hi - lo);
    clamp_fix(sat(div_fix(sat(sat(xc - lo) * 2), w) - SCALE as int),
        -(SCALE as int), SCALE as int)
}

/// Exactly what [`Bound::to_internal`] returns for one parameter.
pub open spec fn internal_image(b: Bound, x: i64, r: i64) -> bool {
    &&& (b is NoBound ==> r == canon_spec(x))
    &&& (b matches Bound::LowerBound(m) ==> (exists|sq: int|
        #[trigger] is_sqrt_floor(one_sided_sq_arg(
            sat(clamp_fix(x as int, m as int, FIX_MAX as int) - m))
            * (SCALE as int), sq) && r == sq))
    &&& (b matches Bound::UpperBound(m) ==> (exists|sq: int|
        #[trigger] is_sqrt_floor(one_sided_sq_arg(
            sat(m - clamp_fix(x as int, FIX_MIN as int, m as int)))
            * (SCALE as int), sq) && r == sq))
    &&& (b matches Bound::LowerAndUpperBound(lo, hi)
        ==> asin_cases(both_internal_arg(x as int, lo as int, hi as int), r as int))
}

/// Exactly what [`Bound::to_external`] returns for one parameter.
pub open spec fn external_image(b: Bound, x: i64, r: i64) -> bool {
    &&& (b is NoBound ==> r == canon_spec(x))
    &&& (b matches Bound::LowerBound(m) ==> (exists|sq: int|
        #[trigger] is_sqrt_floor(sat(mul_fix(x as int, x as int) + SCALE as int)
            * (SCALE as int), sq) && r == sat(sat(m - SCALE as int) + sq)))
    &&& (b matches Bound::UpperBound(m) ==> (exists|sq: int|
        #[trigger] is_sqrt_floor(sat(mul_fix(x as int, x as int) + SCALE as int)
            * (SCALE as int), sq) && r == sat(sat(m + SCALE as int) - sq)))
    &&& (b matches Bound::LowerAndUpperBound(lo, hi)
        ==> r == sat(lo + mul_fix(sat(sin_fix(x as int) + SCALE as int),
            sat(hi - lo) / 2)))
}

/// Saturation of an `i64` into the scalar range, in specification form.
pub open spec fn canon_spec(x: i64) -> i64 {
    if x < FIX_MIN {
        FIX_MIN
    } else {
        x
    }
}

/// `sqrt(x*x + 1)` in fixed-point form; the result is provably at least
/// one.
fn sqrt_sq_plus_one(x: i64) -> (r: i64)
    ensures
        SCALE <= r,
        is_sqrt_floor(sat(mul_fix(x as int, x as int) + SCALE as int)
            * (SCALE as int), r as int),
{
    let sq = fmul(x, x);
    proof {
        assert(x as int * x as int >= 0) by (nonlinear_arith);
        assert(sq >= 0);
    }
    let a = fadd(sq, SCALE);
    let r = fsqrt(a);
    proof {
        assert((r as int + 1) * (r as int + 1) > (a as int) * (SCALE as int));
        assert((a as int) * (SCALE as int) >= (SCALE as int) * (SCALE as int))
            by (nonlinear_arith)
            requires
                a as int >= SCALE as int,
                SCALE > 0;
        assert(r as int + 1 > SCALE as int) by (nonlinear_arith)
            requires
                (r as int + 1) * (r as int + 1) > (SCALE as int) * (SCALE as int),
                r as int + 1 > 0,
                SCALE > 0;
    }
    r
}

/// The interpolation step of the doubly-bounded external map stays inside
/// the interval.
proof fn lemma_ext_both(sp1: int, hw: int, t: int, lo: int, hi: int)
    requires
        0 <= sp1 <= 2 * (SCALE as int),
        0 <= hw,
        2 * hw <= hi - lo,
        2 * hw <= FIX_MAX as int,
        hi <= FIX_MAX as int,
        FIX_MIN as int <= lo,
        crate::fixed::floor_scaled(sp1 * hw, t),
    ensures
        0 <= t,
        t <= hi - lo,
{
    assert(0 <= sp1 * hw) by (nonlinear_arith)
        requires
            0 <= sp1,
            0 <= hw;
    assert(sp1 * hw <= 2 * (SCALE as int) * hw) by (nonlinear_arith)
        requires
            sp1 <= 2 * (SCALE as int),
            0 <= hw;
    assert(sp1 * hw < (FIX_MAX as int + 1) * (SCALE as int)) by (nonlinear_arith)
        requires
            sp1 * hw <= 2 * (SCALE as int) * hw,
            0 <= hw,
            2 * hw <= FIX_MAX as int,
            SCALE > 0;
    assert(t * (SCALE as int) <= sp1 * hw);
    assert(t <= 2 * hw) by (nonlinear_arith)
        requires
            t * (SCALE as int) <= sp1 * hw,
            sp1 * hw <= 2 * (SCALE as int) * hw,
            SCALE > 0;
    assert(0 <= t) by (nonlinear_arith)
        requires
            sp1 * hw < ((t + 1) * (SCALE as int)),
            0 <= sp1 * hw,
            SCALE > 0;
}

/// An ordered collection of per-parameter bounds, one per dimension.
pub struct Bounds {
    inner: Vec<Bound>,
}

impl Bounds {
    /// The sequence of bounds the collection holds.
    pub closed spec fn sq(self) -> Seq<Bound> {
        self.inner@
    }

    /// Every held bound is well formed. Construction through [`Bounds::new`]
    /// guarantees this.
    pub open spec fn wf(self) -> bool {
        forall|i: int| 0 <= i < self.sq().len() ==> (#[trigger] self.sq()[i]).wf()
    }

    /// Build a collection after checking each bound; a malformed bound
    /// (both limits present but not strictly ordered, or a limit outside
    /// the scalar range) yields `None`.
    pub fn new(v: Vec<Bound>) -> (r: Option<Bounds>)
        ensures
            r matches Some(b) ==> b.sq() == v@ && b.wf(),
            r is None ==> !(forall|i: int| 0 <= i < v@.len() ==> (#[trigger] v@[i]).wf()),
    {
        let mut i: usize = 0;
        while i < v.len()
            invariant
                i <= v@.len(),
                forall|j: int| 0 <= j < i ==> (#[trigger] v@[j]).wf(),
            decreases v@.len() - i,
        {
            let ok = match v[i] {
                Bound::NoBound => true,
                Bound::LowerBound(m) => FIX_MIN <= m,
                Bound::UpperBound(m) => FIX_MIN <= m,
                Bound::LowerAndUpperBound(lo, hi) => FIX_MIN <= lo && lo < hi,
            };
            if !ok {
                return None;
            }
            i = i + 1;
        }
        Some(Bounds { inner: v })
    }

    /// The number of bounded parameters.
    pub fn len(&self) -> (r: usize)
        ensures
            r == self.sq().len(),
    {
        self.inner.len()
    }

    /// The bound of parameter `i`.
    pub fn get(&self, i: usize) -> (r: Bound)
        requires
            i < self.sq().len(),
        ensures
            r == self.sq()[i as int],
    {
        self.inner[i]
    }

    /// Surrender the underlying vector.
    pub fn into_inner(self) -> (r: Vec<Bound>)
        ensures
            r@ == self.sq(),
    {
        self.inner
    }

    /// An element-wise copy.
    pub fn duplicate(&self) -> (r: Bounds)
        ensures
            r.sq() == self.sq(),
    {
        let mut inner: Vec<Bound> = Vec::new();
        let mut i: usize = 0;
        while i < self.inner.len()
            invariant
                i <= self.inner@.len(),
                inner@ == self.inner@.subrange(0, i as int),
            decreases self.inner@.len() - i,
        {
            inner.push(self.inner[i]);
            i = i + 1;
        }
        proof {
            assert(self.inner@.subrange(0, self.inner@.len() as int) == self.inner@);
        }
        Bounds { inner }
    }

    /// Map a full external vector to internal coordinates, element by
    /// element. Free parameters pass through unchanged.
    pub fn to_internal_vec(&self, x: &Vec<i64>) -> (r: Vec<i64>)
        requires
            self.wf(),
            x@.len() == self.sq().len(),
        ensures
            r@.len() == x@.len(),
            forall|i: int| 0 <= i < x@.len() && self.sq()[i] is NoBound
                ==> #[trigger] r@[i] == canon_spec(x@[i]),
            forall|i: int| 0 <= i < x@.len()
                ==> #[trigger] internal_image(self.sq()[i], x@[i], r@[i]),
    {
        let mut r: Vec<i64> = Vec::new();
        let mut i: usize = 0;
        while i < x.len()
            invariant
                i <= x@.len(),
                x@.len() == self.sq().len(),
                self.wf(),
                r@.len() == i,
                forall|j: int| 0 <= j < i && self.sq()[j] is NoBound
                    ==> #[trigger] r@[j] == canon_spec(x@[j]),
                forall|j: int| 0 <= j < i
                    ==> #[trigger] internal_image(self.sq()[j], x@[j], r@[j]),
            decreases x@.len() - i,
        {
            let b = self.get(i);
            r.push(b.to_internal(x[i]));
            i = i + 1;
        }
        r
    }

    /// Map a full internal vector back to external coordinates, element by
    /// element. Every element of the result provably lies inside its
    /// bound's closed interval.
    pub fn to_external_vec(&self, x: &Vec<i64>) -> (r: Vec<i64>)
        requires
            self.wf(),
            x@.len() == self.sq().len(),
        ensures
            r@.len() == x@.len(),
            forall|i: int| 0 <= i < x@.len()
                ==> (#[trigger] self.sq()[i]).lower_spec() <= r@[i]
                    <= self.sq()[i].upper_spec(),
            forall|i: int| 0 <= i < x@.len() && self.sq()[i] is NoBound
                ==> #[trigger] r@[i] == canon_spec(x@[i]),
            forall|i: int| 0 <= i < x@.len()
                ==> #[trigger] external_image(self.sq()[i], x@[i], r@[i]),
    {
        let mut r: Vec<i64> = Vec::new();
        let mut i: usize = 0;
        while i < x.len()
            invariant
                i <= x@.len(),
                x@.len() == self.sq().len(),
                self.wf(),
                r@.len() == i,
                forall|j: int| 0 <= j < i
                    ==> (#[trigger] self.sq()[j]).lower_spec() <= r@[j]
                        <= self.sq()[j].upper_spec(),
                forall|j: int| 0 <= j < i && self.sq()[j] is NoBound
                    ==> #[trigger] r@[j] == canon_spec(x@[j]),
                forall|j: int| 0 <= j < i
                    ==> #[trigger] external_image(self.sq()[j], x@[j], r@[j]),
            decreases x@.len() - i,
        {
            let b = self.get(i);
            r.push(b.to_external(x[i]));
            i = i + 1;
        }
        r
    }

    /// Clamp a full external vector into the box, element by element.
    pub fn clip_vec(&self, x: &Vec<i64>) -> (r: Vec<i64>)
        requires
            self.wf(),
            x@.len() == self.sq().len(),
        ensures
            r@.len() == x@.len(),
            forall|i: int| 0 <= i < x@.len()
                ==> (#[trigger] self.sq()[i]).lower_spec() <= r@[i]
                    <= self.sq()[i].upper_spec(),
            forall|i: int| 0 <= i < x@.len()
                && self.sq()[i].lower_spec() <= x@[i] <= self.sq()[i].upper_spec()
                ==> #[trigger] r@[i] == x@[i],
    {
        let mut r: Vec<i64> = Vec::new();
        let mut i: usize = 0;
        while i < x.len()
            invariant
                i <= x@.len(),
                x@.len() == self.sq().len(),
                self.wf(),
                r@.len() == i,
                forall|j: int| 0 <= j < i
                    ==> (#[trigger] self.sq()[j]).lower_spec() <= r@[j]
                        <= self.sq()[j].upper_spec(),
                forall|j: int| 0 <= j < i
                    && self.sq()[j].lower_spec() <= x@[j] <= self.sq()[j].upper_spec()
                    ==> #[trigger] r@[j] == x@[j],
            decreases x@.len() - i,
        {
            let b = self.get(i);
            r.push(b.clip(x[i]));
            i = i + 1;
        }
        r
    }
}

} // verus!
