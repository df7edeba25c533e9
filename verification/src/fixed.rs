//! The engine's scalar type: signed 64-bit fixed-point numbers with 32
//! fractional bits. A raw value `v` stands for the real number `v / SCALE`.
//!
//! All operations are total: results outside the representable range
//! saturate to `FIX_MAX` / `FIX_MIN`. `FIX_MAX` doubles as the
//! "worst possible" objective value, so an objective that cannot be
//! evaluated sensibly at a point (the analogue of a non-finite value)
//! sorts behind every ordinary value.

use vstd::prelude::*;
use vstd::arithmetic::div_mod::{lemma_fundamental_div_mod, lemma_mod_bound, lemma_remainder};

verus! {

/// One in fixed-point form: the scale factor 2^32.
pub const SCALE: i64 = 0x1_0000_0000;

/// Largest representable scalar; also the "worst possible" objective value.
pub const FIX_MAX: i64 = 0x7FFF_FFFF_FFFF_FFFF;

/// Smallest representable scalar (kept symmetric to `FIX_MAX` so that
/// negation is always defined).
pub const FIX_MIN: i64 = -0x7FFF_FFFF_FFFF_FFFF;

/// The circle constant, scaled by 2^32.
pub const PI_FIX: i64 = 13493037704;

/// Half the circle constant, scaled by 2^32.
pub const PI_2_FIX: i64 = 6746518852;

/// Twice the circle constant, scaled by 2^32.
pub const TWO_PI_FIX: i64 = 26986075409;

/// Mathematical saturation of an unbounded integer into the scalar range.
pub open spec fn sat(v: int) -> int {
    if v > FIX_MAX as int {
        FIX_MAX as int
    } else if v < FIX_MIN as int {
        FIX_MIN as int
    } else {
        v
    }
}

/// The exact result of fixed-point multiplication: the floor of the real
/// product, saturated into the scalar range.
pub open spec fn mul_fix(a: int, b: int) -> int {
    sat((a * b) / (SCALE as int))
}

/// The exact result of fixed-point division by a positive scalar: the
/// floor of the scaled quotient, saturated into the scalar range.
pub open spec fn div_fix(a: int, b: int) -> int {
    sat((a * (SCALE as int)) / b)
}

/// What a floor-then-saturate operation guarantees: `r` is the floor of
/// `p / SCALE` whenever that floor is representable, and the nearer range
/// end otherwise.
pub open spec fn floor_scaled(p: int, r: int) -> bool {
    &&& p >= (FIX_MAX as int + 1) * (SCALE as int) ==> r == FIX_MAX as int
    &&& p < (FIX_MIN as int) * (SCALE as int) ==> r == FIX_MIN as int
    &&& ((FIX_MIN as int) * (SCALE as int) <= p < ((FIX_MAX as int + 1) * (SCALE as int)))
        ==> (r * (SCALE as int) <= p < ((r + 1) * (SCALE as int)))
}

/// Bring an arbitrary `i64` into the scalar range (only `i64::MIN` lies
/// outside it).
pub fn canon(v: i64) -> (r: i64)
    ensures
        r as int == sat(v as int),
{
    if v < FIX_MIN {
        FIX_MIN
    } else {
        v
    }
}

/// Saturating addition.
pub fn fadd(a: i64, b: i64) -> (r: i64)
    ensures
        r as int == sat(a as int + b as int),
{
    let s: i128 = a as i128 + b as i128;
    if s > FIX_MAX as i128 {
        FIX_MAX
    } else if s < FIX_MIN as i128 {
        FIX_MIN
    } else {
        s as i64
    }
}

/// Saturating subtraction.
pub fn fsub(a: i64, b: i64) -> (r: i64)
    ensures
        r as int == sat(a as int - b as int),
{
    let s: i128 = a as i128 - b as i128;
    if s > FIX_MAX as i128 {
        FIX_MAX
    } else if s < FIX_MIN as i128 {
        FIX_MIN
    } else {
        s as i64
    }
}

/// Saturating negation (total because the range is symmetric).
pub fn fneg(a: i64) -> (r: i64)
    ensures
        r as int == sat(-(a as int)),
{
    if a == i64::MIN {
        FIX_MAX
    } else if -a < FIX_MIN {
        FIX_MIN
    } else {
        -a
    }
}

/// A value pinned by the floor inequalities is the (Euclidean) quotient.
proof fn lemma_floor_unique(a: int, k: int, q: int)
    requires
        k > 0,
        q * k <= a < ((q + 1) * k),
    ensures
        q == a / k,
{
    lemma_fundamental_div_mod(a, k);
    lemma_mod_bound(a, k);
    assert(q == a / k) by (nonlinear_arith)
        requires
            k > 0,
            q * k <= a < ((q + 1) * k),
            a == k * (a / k) + a % k,
            0 <= a % k < k;
}

/// A value pinned by the saturating-floor case split equals the saturated
/// quotient.
proof fn lemma_floor_sat(p: int, d: int, r: int)
    requires
        d > 0,
        p >= (FIX_MAX as int + 1) * d ==> r == FIX_MAX as int,
        p < (FIX_MIN as int) * d ==> r == FIX_MIN as int,
        ((FIX_MIN as int) * d <= p < ((FIX_MAX as int + 1) * d))
            ==> (r * d <= p < ((r + 1) * d)),
        FIX_MIN as int <= r <= FIX_MAX as int,
    ensures
        r == sat(p / d),
{
    lemma_fundamental_div_mod(p, d);
    lemma_mod_bound(p, d);
    let q = p / d;
    if (FIX_MIN as int) * d <= p < ((FIX_MAX as int + 1) * d) {
        lemma_floor_unique(p, d, r);
    } else if p >= (FIX_MAX as int + 1) * d {
        assert(q > FIX_MAX as int) by (nonlinear_arith)
            requires
                d > 0,
                p >= (FIX_MAX as int + 1) * d,
                p == d * q + p % d,
                0 <= p % d < d;
    } else {
        assert(q < FIX_MIN as int) by (nonlinear_arith)
            requires
                d > 0,
                p < (FIX_MIN as int) * d,
                p == d * q + p % d,
                0 <= p % d < d;
    }
}

/// The product of two values in the `i64` range stays strictly inside the
/// `i128` range.
proof fn lemma_prod_in_i128(a: int, b: int)
    requires
        -0x8000_0000_0000_0000 <= a <= 0x7FFF_FFFF_FFFF_FFFF,
        -0x8000_0000_0000_0000 <= b <= 0x7FFF_FFFF_FFFF_FFFF,
    ensures
        -0x4000_0000_0000_0000_0000_0000_0000_0000 <= a * b
            <= 0x4000_0000_0000_0000_0000_0000_0000_0000,
{
    assert(-0x4000_0000_0000_0000_0000_0000_0000_0000 <= a * b
        <= 0x4000_0000_0000_0000_0000_0000_0000_0000) by (nonlinear_arith)
        requires
            -0x8000_0000_0000_0000 <= a <= 0x7FFF_FFFF_FFFF_FFFF,
            -0x8000_0000_0000_0000 <= b <= 0x7FFF_FFFF_FFFF_FFFF;
}

/// Saturating multiplication by a plain integer factor.
pub fn fmulk(a: i64, k: i64) -> (r: i64)
    ensures
        r as int == sat(a as int * k as int),
{
    proof {
        lemma_prod_in_i128(a as int, k as int);
    }
    let p: i128 = (a as i128) * (k as i128);
    if p > FIX_MAX as i128 {
        FIX_MAX
    } else if p < FIX_MIN as i128 {
        FIX_MIN
    } else {
        p as i64
    }
}

/// Floor division of an `i128` by a positive divisor: the unique `q` with
/// `q * d <= n < (q + 1) * d`, which also lies between `n` and `0`.
fn div_floor(n: i128, d: i128) -> (q: i128)
    requires
        d > 0,
        n > i128::MIN + d,
    ensures
        (q * d <= n < ((q + 1) * d)),
        n >= 0 ==> 0 <= q <= n,
        n < 0 ==> n <= q <= 0,
{
    if n >= 0 {
        let nu: u128 = n as u128;
        let du: u128 = d as u128;
        let qu: u128 = nu / du;
        proof {
            lemma_remainder(n as int, d as int);
            assert((qu as int) * (d as int) <= (n as int) < ((qu as int + 1) * (d as int)))
                by (nonlinear_arith)
                requires
                    qu as int == n as int / d as int,
                    d > 0,
                    n >= 0,
                    0 <= (n as int - (n as int / d as int) * (d as int)) < (d as int);
            assert(qu <= nu) by (nonlinear_arith)
                requires
                    qu as int * d as int <= nu as int,
                    d as int >= 1,
                    qu as int >= 0,
                    nu as int >= 0;
        }
        qu as i128
    } else {
        let m: u128 = (-n) as u128;
        let du: u128 = d as u128;
        let c: u128 = (m + (du - 1)) / du;
        proof {
            let top: int = m as int + (d as int - 1);
            lemma_remainder(top, d as int);
            assert((c as int) * (d as int) <= top && top < ((c as int + 1) * (d as int)))
                by (nonlinear_arith)
                requires
                    c as int == top / d as int,
                    d > 0,
                    top >= 0,
                    0 <= (top - (top / d as int) * (d as int)) < (d as int);
            assert(c <= m) by (nonlinear_arith)
                requires
                    c as int * d as int <= m as int + d as int - 1,
                    d as int >= 1,
                    c as int >= 0,
                    m as int >= 0;
            assert((-(c as int)) * (d as int) <= (n as int)
                < ((-(c as int) + 1) * (d as int))) by (nonlinear_arith)
                requires
                    c as int * d as int <= m as int + d as int - 1,
                    m as int + d as int - 1 < ((c as int + 1) * d as int),
                    n as int == -(m as int),
                    d > 0;
        }
        -(c as i128)
    }
}

/// Fixed-point multiplication: the floor of the real product, saturated.
pub fn fmul(a: i64, b: i64) -> (r: i64)
    ensures
        r as int == mul_fix(a as int, b as int),
        floor_scaled(a as int * b as int, r as int),
{
    proof {
        lemma_prod_in_i128(a as int, b as int);
    }
    let p: i128 = (a as i128) * (b as i128);
    let q: i128 = div_floor(p, SCALE as i128);
    let out: i64 = if q > FIX_MAX as i128 {
        FIX_MAX
    } else if q < FIX_MIN as i128 {
        FIX_MIN
    } else {
        q as i64
    };
    proof {
        lemma_floor_unique(p as int, SCALE as int, q as int);
    }
    out
}

/// Floor division of a scalar by a positive plain integer.
pub fn fdivk(a: i64, k: i64) -> (r: i64)
    requires
        k > 0,
        FIX_MIN <= a,
    ensures
        r as int == (a as int) / (k as int),
        ((r as int) * (k as int) <= (a as int) < ((r as int + 1) * (k as int))),
        FIX_MIN <= r,
        a >= 0 ==> 0 <= r <= a,
        a < 0 ==> a <= r <= 0,
{
    let q: i128 = div_floor(a as i128, k as i128);
    proof {
        lemma_floor_unique(a as int, k as int, q as int);
    }
    q as i64
}

/// What fixed-point division guarantees: `r` is the floor of the scaled
/// quotient when representable, and the nearer range end otherwise.
pub open spec fn floor_div_sat(a: int, b: int, r: int) -> bool {
    let n = a * (SCALE as int);
    &&& n >= (FIX_MAX as int + 1) * b ==> r == FIX_MAX as int
    &&& n < (FIX_MIN as int) * b ==> r == FIX_MIN as int
    &&& ((FIX_MIN as int) * b <= n < ((FIX_MAX as int + 1) * b))
        ==> (r * b <= n < ((r + 1) * b))
}

/// Fixed-point division by a positive scalar: the floor of the real
/// quotient, saturated.
pub fn fdiv(a: i64, b: i64) -> (r: i64)
    requires
        b > 0,
        FIX_MIN <= a,
    ensures
        r as int == div_fix(a as int, b as int),
        floor_div_sat(a as int, b as int, r as int),
{
    proof {
        lemma_prod_in_i128(a as int, SCALE as int);
    }
    let n: i128 = (a as i128) * (SCALE as i128);
    let q: i128 = div_floor(n, b as i128);
    proof {
        if q > FIX_MAX as i128 {
            assert((FIX_MAX as int + 1) * (b as int) <= q * (b as int)) by (nonlinear_arith)
                requires
                    q >= FIX_MAX as int + 1,
                    b > 0;
        } else {
            assert((q + 1) * (b as int) <= (FIX_MAX as int + 1) * (b as int))
                by (nonlinear_arith)
                requires
                    q + 1 <= FIX_MAX as int + 1,
                    b > 0;
        }
        if q < FIX_MIN as i128 {
            assert((q + 1) * (b as int) <= (FIX_MIN as int) * (b as int)) by (nonlinear_arith)
                requires
                    q + 1 <= FIX_MIN as int,
                    b > 0;
        } else {
            assert((FIX_MIN as int) * (b as int) <= q * (b as int)) by (nonlinear_arith)
                requires
                    FIX_MIN as int <= q,
                    b > 0;
        }
    }
    proof {
        lemma_floor_unique(n as int, b as int, q as int);
    }
    if q > FIX_MAX as i128 {
        FIX_MAX
    } else if q < FIX_MIN as i128 {
        FIX_MIN
    } else {
        q as i64
    }
}

/// Fixed-point square root of a non-negative scalar: the floor of the
/// real square root in fixed-point form.
pub fn fsqrt(a: i64) -> (r: i64)
    requires
        a >= 0,
    ensures
        0 <= r,
        ((r as int) * (r as int) <= (a as int) * (SCALE as int)
            < ((r as int + 1) * (r as int + 1))),
{
    let m: u128 = (a as u128) * 4294967296u128;
    let mut lo: u128 = 0;
    let mut hi: u128 = 0x1_0000_0000_0000u128;
    while hi - lo > 1
        invariant
            lo < hi <= 0x1_0000_0000_0000u128,
            (lo as int) * (lo as int) <= m as int,
            (m as int) < (hi as int) * (hi as int),
        decreases hi - lo,
    {
        let mid: u128 = lo + (hi - lo) / 2;
        proof {
            assert((mid as int) * (mid as int)
                <= 0x1_0000_0000_0000 * 0x1_0000_0000_0000) by (nonlinear_arith)
                requires
                    0 <= (mid as int) <= 0x1_0000_0000_0000;
        }
        if mid * mid <= m {
            lo = mid;
        } else {
            hi = mid;
        }
    }
    lo as i64
}

/// Clamp a scalar into the closed interval `[lo, hi]`.
pub fn fclamp(x: i64, lo: i64, hi: i64) -> (r: i64)
    requires
        lo <= hi,
    ensures
        r == if x < lo { lo } else if x > hi { hi } else { x },
        lo <= r <= hi,
{
    if x < lo {
        lo
    } else if x > hi {
        hi
    } else {
        x
    }
}

/// Clamping of an integer into a closed interval, in specification form.
pub open spec fn clamp_fix(x: int, lo: int, hi: int) -> int {
    if x < lo {
        lo
    } else if x > hi {
        hi
    } else {
        x
    }
}

/// The exact value of one arcsine series step: the running term times
/// `v2 * k1 / k2` in saturating fixed point.
pub open spec fn asin_step_fix(term: int, v2: int, k1: int, k2: int) -> int {
    sat(mul_fix(term, v2) * k1) / k2
}

/// The exact value of one sine series step: the running term times
/// `-x2 / k` in saturating fixed point.
pub open spec fn sin_step_fix(term: int, x2: int, k: int) -> int {
    -(mul_fix(term, x2) / k)
}

/// The exact value the arcsine series computes on a non-negative
/// argument.
pub open spec fn asin_core_fix(v: int) -> int {
    let v2 = mul_fix(v, v);
    let t0 = v;
    let a0 = v;
    let t1 = asin_step_fix(t0, v2, 1, 6);
    let a1 = sat(a0 + t1);
    let t2 = asin_step_fix(t1, v2, 9, 20);
    let a2 = sat(a1 + t2);
    let t3 = asin_step_fix(t2, v2, 25, 42);
    let a3 = sat(a2 + t3);
    let t4 = asin_step_fix(t3, v2, 49, 72);
    let a4 = sat(a3 + t4);
    let t5 = asin_step_fix(t4, v2, 81, 110);
    let a5 = sat(a4 + t5);
    let t6 = asin_step_fix(t5, v2, 121, 156);
    let a6 = sat(a5 + t6);
    let t7 = asin_step_fix(t6, v2, 169, 210);
    let a7 = sat(a6 + t7);
    let t8 = asin_step_fix(t7, v2, 225, 272);
    let a8 = sat(a7 + t8);
    let t9 = asin_step_fix(t8, v2, 289, 342);
    let a9 = sat(a8 + t9);
    let t10 = asin_step_fix(t9, v2, 361, 420);
    let a10 = sat(a9 + t10);
    let t11 = asin_step_fix(t10, v2, 441, 506);
    let a11 = sat(a10 + t11);
    let t12 = asin_step_fix(t11, v2, 529, 600);
    let a12 = sat(a11 + t12);
    let t13 = asin_step_fix(t12, v2, 625, 702);
    let a13 = sat(a12 + t13);
    let t14 = asin_step_fix(t13, v2, 729, 812);
    let a14 = sat(a13 + t14);
    if a14 < 0 {
        0
    } else {
        a14
    }
}

/// The exact value [`fsin`] computes: range reduction into a quarter-turn
/// neighbourhood, the alternating series, and the final clamp to one.
pub open spec fn sin_fix(t: int) -> int {
    let tc = sat(t);
    let k = sat(tc + PI_FIX as int) / (TWO_PI_FIX as int);
    let tr = sat(tc - sat(k * (TWO_PI_FIX as int)));
    let tf = if tr > PI_2_FIX as int {
        sat(PI_FIX as int - tr)
    } else if tr < -(PI_2_FIX as int) {
        sat(sat(-(PI_FIX as int)) - tr)
    } else {
        tr
    };
    let x = clamp_fix(tf, -(PI_2_FIX as int) - 8, PI_2_FIX as int + 8);
    let x2 = mul_fix(x, x);
    let t0 = x;
    let a0 = x;
    let t1 = sin_step_fix(t0, x2, 6);
    let a1 = sat(a0 + t1);
    let t2 = sin_step_fix(t1, x2, 20);
    let a2 = sat(a1 + t2);
    let t3 = sin_step_fix(t2, x2, 42);
    let a3 = sat(a2 + t3);
    let t4 = sin_step_fix(t3, x2, 72);
    let a4 = sat(a3 + t4);
    let t5 = sin_step_fix(t4, x2, 110);
    let a5 = sat(a4 + t5);
    let t6 = sin_step_fix(t5, x2, 156);
    let a6 = sat(a5 + t6);
    let t7 = sin_step_fix(t6, x2, 210);
    let a7 = sat(a6 + t7);
    let t8 = sin_step_fix(t7, x2, 272);
    let a8 = sat(a7 + t8);
    let t9 = sin_step_fix(t8, x2, 342);
    let a9 = sat(a8 + t9);
    clamp_fix(a9, -(SCALE as int), SCALE as int)
}

/// Whether `s` is the integer square-root floor of `n`.
pub open spec fn is_sqrt_floor(n: int, s: int) -> bool {
    0 <= s && s * s <= n < (((s + 1) * (s + 1)))
}

/// The argument handed to the square root by the wide arm of the
/// arcsine: half the distance of `a` from one.
pub open spec fn asin_wide_u(a: int) -> int {
    (SCALE as int - a) / 2
}

/// Arcsine results are clamped to a quarter turn either way.
pub open spec fn asin_clamped(r0: int) -> int {
    clamp_fix(r0, -(PI_2_FIX as int), PI_2_FIX as int)
}

/// Exactly what [`fasin`] returns for an argument `t` within one of one:
/// the clamped series value on the narrow arms, and the quarter turn
/// minus twice the series value of the square-rooted complement on the
/// wide arms.
pub open spec fn asin_cases(t: int, r: int) -> bool {
    &&& (0 <= t <= SCALE as int / 2) ==> r == asin_clamped(asin_core_fix(t))
    &&& (-(SCALE as int / 2) <= t < 0) ==> r == asin_clamped(sat(-asin_core_fix(-t)))
    &&& (SCALE as int / 2 < t <= SCALE as int) ==> (exists|sq: int|
        #[trigger] is_sqrt_floor(asin_wide_u(t) * (SCALE as int), sq)
            && r == asin_clamped(sat(PI_2_FIX as int - sat(2 * asin_core_fix(sq)))))
    &&& (-(SCALE as int) <= t < -(SCALE as int / 2)) ==> (exists|sq: int|
        #[trigger] is_sqrt_floor(asin_wide_u(-t) * (SCALE as int), sq)
            && r == asin_clamped(sat(-sat(PI_2_FIX as int
                - sat(2 * asin_core_fix(sq))))))
}

/// One term-update of the arcsine series: multiply the running term by
/// `v2 * k1 / k2`, saturating.
fn asin_step(term: i64, v2: i64, k1: i64, k2: i64) -> (r: i64)
    requires
        k2 > 0,
    ensures
        r as int == asin_step_fix(term as int, v2 as int, k1 as int, k2 as int),
        FIX_MIN <= r <= FIX_MAX,
{
    let t1 = fmul(term, v2);
    let t2 = fmulk(t1, k1);
    fdivk(t2, k2)
}

/// Arcsine by power series, accurate for arguments of magnitude at most
/// one half.
fn asin_core(v: i64) -> (r: i64)
    requires
        0 <= v,
    ensures
        r as int == asin_core_fix(v as int),
        0 <= r,
{
    let v2 = fmul(v, v);
    let mut term: i64 = v;
    let mut acc: i64 = v;
    term = asin_step(term, v2, 1, 6);
    acc = fadd(acc, term);
    term = asin_step(term, v2, 9, 20);
    acc = fadd(acc, term);
    term = asin_step(term, v2, 25, 42);
    acc = fadd(acc, term);
    term = asin_step(term, v2, 49, 72);
    acc = fadd(acc, term);
    term = asin_step(term, v2, 81, 110);
    acc = fadd(acc, term);
    term = asin_step(term, v2, 121, 156);
    acc = fadd(acc, term);
    term = asin_step(term, v2, 169, 210);
    acc = fadd(acc, term);
    term = asin_step(term, v2, 225, 272);
    acc = fadd(acc, term);
    term = asin_step(term, v2, 289, 342);
    acc = fadd(acc, term);
    term = asin_step(term, v2, 361, 420);
    acc = fadd(acc, term);
    term = asin_step(term, v2, 441, 506);
    acc = fadd(acc, term);
    term = asin_step(term, v2, 529, 600);
    acc = fadd(acc, term);
    term = asin_step(term, v2, 625, 702);
    acc = fadd(acc, term);
    term = asin_step(term, v2, 729, 812);
    acc = fadd(acc, term);
    if acc < 0 {
        0
    } else {
        acc
    }
}

/// Fixed-point arcsine. The result is always within the closed interval
/// from minus a quarter turn to a quarter turn.
pub fn fasin(t: i64) -> (r: i64)
    requires
        -SCALE <= t <= SCALE,
    ensures
        -PI_2_FIX <= r <= PI_2_FIX,
        asin_cases(t as int, r as int),
{
    let neg = t < 0;
    let a = if neg {
        fneg(t)
    } else {
        t
    };
    let r0 = if a <= SCALE / 2 {
        asin_core(a)
    } else {
        let u = fdivk(fsub(SCALE, a), 2);
        let s = fsqrt(u);
        proof {
            assert(is_sqrt_floor(asin_wide_u(a as int) * (SCALE as int), s as int));
        }
        fsub(PI_2_FIX, fmulk(asin_core(s), 2))
    };
    let r1 = if neg {
        fneg(r0)
    } else {
        r0
    };
    fclamp(r1, -PI_2_FIX, PI_2_FIX)
}

/// One term-update of the sine series: multiply the running term by
/// `-x2 / k`, saturating.
fn sin_step(term: i64, x2: i64, k: i64) -> (r: i64)
    requires
        k > 0,
    ensures
        r as int == sin_step_fix(term as int, x2 as int, k as int),
        FIX_MIN <= r <= FIX_MAX,
{
    fneg(fdivk(fmul(term, x2), k))
}

/// Fixed-point sine. The result is always within the closed interval
/// from minus one to one.
#[verifier::rlimit(60)]
pub fn fsin(t: i64) -> (r: i64)
    ensures
        r as int == sin_fix(t as int),
        -SCALE <= r <= SCALE,
{
    let tc = canon(t);
    let k = fdivk(fadd(tc, PI_FIX), TWO_PI_FIX);
    let tr = fsub(tc, fmulk(k, TWO_PI_FIX));
    let tf = if tr > PI_2_FIX {
        fsub(PI_FIX, tr)
    } else if tr < -PI_2_FIX {
        fsub(fneg(PI_FIX), tr)
    } else {
        tr
    };
    let x = fclamp(tf, -PI_2_FIX - 8, PI_2_FIX + 8);
    let x2 = fmul(x, x);
    let mut term: i64 = x;
    let mut acc: i64 = x;
    term = sin_step(term, x2, 6);
    acc = fadd(acc, term);
    term = sin_step(term, x2, 20);
    acc = fadd(acc, term);
    term = sin_step(term, x2, 42);
    acc = fadd(acc, term);
    term = sin_step(term, x2, 72);
    acc = fadd(acc, term);
    term = sin_step(term, x2, 110);
    acc = fadd(acc, term);
    term = sin_step(term, x2, 156);
    acc = fadd(acc, term);
    term = sin_step(term, x2, 210);
    acc = fadd(acc, term);
    term = sin_step(term, x2, 272);
    acc = fadd(acc, term);
    term = sin_step(term, x2, 342);
    acc = fadd(acc, term);
    fclamp(acc, -SCALE, SCALE)
}

} // verus!
