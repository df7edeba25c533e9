//! Tests of the scalar arithmetic and of the bounded/unbounded parameter
//! transform: the unbounded identity, the round-trip law inside each kind
//! of interval, clamping, and the at-limit report.

use ganesh::bound::{Bound, Bounds, AT_BOUND_TOL};
use ganesh::fixed::{fadd, fasin, fdiv, fmul, fsin, fsqrt, fsub, FIX_MAX, FIX_MIN, SCALE};

const SCALE_F: f64 = 4294967296.0;

fn fix(v: f64) -> i64 {
    (v * SCALE_F) as i64
}

fn unfix(v: i64) -> f64 {
    v as f64 / SCALE_F
}

#[test]
fn unbounded_transform_is_identity() {
    let b = Bound::NoBound;
    for &v in &[-1234.5, -1.0, 0.0, 0.25, 3.75, 99999.0] {
        let x = fix(v);
        assert_eq!(b.to_internal(x), x);
        assert_eq!(b.to_external(x), x);
    }
}

#[test]
fn round_trip_inside_interval() {
    let cases: Vec<(Bound, Vec<f64>)> = vec![
        (Bound::LowerBound(fix(-1.0)), vec![-0.5, 0.0, 1.0, 7.25]),
        (Bound::UpperBound(fix(4.0)), vec![-3.0, 0.0, 3.5, 3.99]),
        (
            Bound::LowerAndUpperBound(fix(0.0), fix(10.0)),
            vec![0.5, 2.5, 5.0, 9.5],
        ),
        (
            Bound::LowerAndUpperBound(fix(-2.0), fix(-1.0)),
            vec![-1.9, -1.5, -1.1],
        ),
    ];
    for (b, xs) in cases {
        for &v in &xs {
            let x = fix(v);
            let rt = b.to_external(b.to_internal(x));
            assert!(
                (unfix(rt) - v).abs() < 1e-4,
                "round trip of {} through {:?} gave {}",
                v,
                b,
                unfix(rt)
            );
        }
    }
}

#[test]
fn outside_values_are_clamped_before_transforming() {
    let b = Bound::LowerAndUpperBound(fix(0.0), fix(10.0));
    let below = b.to_external(b.to_internal(fix(-5.0)));
    let above = b.to_external(b.to_internal(fix(25.0)));
    assert!((unfix(below) - 0.0).abs() < 1e-4);
    assert!((unfix(above) - 10.0).abs() < 1e-4);
    assert_eq!(b.clip(fix(-5.0)), fix(0.0));
    assert_eq!(b.clip(fix(25.0)), fix(10.0));
    assert_eq!(b.clip(fix(5.0)), fix(5.0));
}

#[test]
fn external_image_stays_inside_interval() {
    let b = Bound::LowerAndUpperBound(fix(-1.0), fix(2.0));
    for &v in &[-1000.0, -3.3, 0.0, 0.7, 12.0, 4096.0] {
        let e = b.to_external(fix(v));
        let ef = unfix(e);
        assert!((-1.0..=2.0).contains(&ef), "{} escaped as {}", v, ef);
    }
    let lo = Bound::LowerBound(fix(3.0));
    for &v in &[-50.0, 0.0, 50.0] {
        assert!(unfix(lo.to_external(fix(v))) >= 3.0);
    }
    let hi = Bound::UpperBound(fix(-3.0));
    for &v in &[-50.0, 0.0, 50.0] {
        assert!(unfix(hi.to_external(fix(v))) <= -3.0);
    }
}

#[test]
fn at_bound_reports_proximity_to_limits() {
    let b = Bound::LowerAndUpperBound(fix(0.0), fix(1.0));
    assert!(b.at_bound(fix(0.0)));
    assert!(b.at_bound(fix(1.0)));
    assert!(b.at_bound(AT_BOUND_TOL / 2));
    assert!(!b.at_bound(fix(0.5)));
    assert!(!Bound::NoBound.at_bound(fix(0.0)));
    let lo = Bound::LowerBound(fix(2.0));
    assert!(lo.at_bound(fix(2.0)));
    assert!(!lo.at_bound(fix(2.1)));
}

#[test]
fn bounds_collection_validates_its_entries() {
    assert!(Bounds::new(vec![Bound::NoBound, Bound::LowerBound(fix(1.0))]).is_some());
    // both limits present but not strictly ordered
    assert!(Bounds::new(vec![Bound::LowerAndUpperBound(fix(2.0), fix(2.0))]).is_none());
    assert!(Bounds::new(vec![Bound::LowerAndUpperBound(fix(3.0), fix(1.0))]).is_none());
    let b = Bounds::new(vec![Bound::NoBound; 4]).unwrap();
    assert_eq!(b.len(), 4);
    assert_eq!(b.into_inner().len(), 4);
}

#[test]
fn fixed_point_arithmetic_matches_reals() {
    assert_eq!(fadd(fix(1.5), fix(2.25)), fix(3.75));
    assert_eq!(fsub(fix(1.0), fix(3.5)), fix(-2.5));
    assert!((unfix(fmul(fix(1.5), fix(-2.5))) + 3.75).abs() < 1e-8);
    assert!((unfix(fdiv(fix(7.0), fix(2.0))) - 3.5).abs() < 1e-8);
    assert!((unfix(fsqrt(fix(4.0))) - 2.0).abs() < 1e-8);
    assert!((unfix(fsqrt(fix(2.0))) - 2.0f64.sqrt()).abs() < 1e-8);
    // saturation at the range ends
    assert_eq!(fadd(FIX_MAX, FIX_MAX), FIX_MAX);
    assert_eq!(fsub(FIX_MIN, FIX_MAX), FIX_MIN);
    assert_eq!(fmul(FIX_MAX, 2 * SCALE), FIX_MAX);
}

#[test]
fn fixed_point_trig_matches_reals() {
    for &v in &[-1.5, -1.0, -0.5, -0.1, 0.0, 0.2, 0.7, 1.2, 1.5, 3.0, -2.8] {
        let got = unfix(fsin(fix(v)));
        assert!((got - v.sin()).abs() < 1e-6, "sin({}) gave {}", v, got);
    }
    for &v in &[-1.0, -0.9, -0.5, -0.2, 0.0, 0.3, 0.5, 0.8, 0.99, 1.0] {
        let got = unfix(fasin(fix(v)));
        assert!((got - v.asin()).abs() < 1e-5, "asin({}) gave {}", v, got);
    }
}
