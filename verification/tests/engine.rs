//! End-to-end tests of the minimization engine: the simplex search on the
//! Rosenbrock family, the run endings (convergence, step limit, abort,
//! setup errors), and the evaluation counters.

use ganesh::bound::{Bound, Bounds};
use ganesh::gradient::central_difference;
use ganesh::minimizer::Minimizer;
use ganesh::nelder_mead::NelderMead;
use ganesh::point::Point;
use ganesh::summary::Summary;
use ganesh::traits::{CostFunction, FlagAbortSignal, MinimizeError, NopAbortSignal, NopHook, StepHook};

const SCALE_F: f64 = 4294967296.0;

fn fix(v: f64) -> i64 {
    (v * SCALE_F) as i64
}

fn unfix(v: i64) -> f64 {
    v as f64 / SCALE_F
}

fn fix_vec(xs: &[f64]) -> Vec<i64> {
    xs.iter().map(|&v| fix(v)).collect()
}

struct Rosenbrock {
    n: usize,
}

impl CostFunction<()> for Rosenbrock {
    fn evaluate(&self, x: &Vec<i64>, _user_data: &mut ()) -> Option<i64> {
        let xf: Vec<f64> = x.iter().map(|&v| unfix(v)).collect();
        let s: f64 = (0..(self.n - 1))
            .map(|i| 100.0 * (xf[i + 1] - xf[i].powi(2)).powi(2) + (1.0 - xf[i]).powi(2))
            .sum();
        if s.is_nan() {
            Some(i64::MAX)
        } else {
            Some((s * SCALE_F) as i64)
        }
    }
}

/// A quadratic bowl with its minimum at the given center.
struct Bowl {
    center: Vec<f64>,
}

impl CostFunction<()> for Bowl {
    fn evaluate(&self, x: &Vec<i64>, _user_data: &mut ()) -> Option<i64> {
        let s: f64 = x
            .iter()
            .zip(self.center.iter())
            .map(|(&v, &c)| (unfix(v) - c).powi(2))
            .sum();
        Some((s * SCALE_F) as i64)
    }
}

/// An objective that can never be evaluated.
struct Broken;

impl CostFunction<()> for Broken {
    fn evaluate(&self, _x: &Vec<i64>, _user_data: &mut ()) -> Option<i64> {
        None
    }
}

/// An objective that fails after a budget of evaluations, counted in the
/// user workspace.
struct Flaky;

impl CostFunction<u32> for Flaky {
    fn evaluate(&self, x: &Vec<i64>, used: &mut u32) -> Option<i64> {
        *used += 1;
        if *used > 8 {
            return None;
        }
        let s: f64 = x.iter().map(|&v| unfix(v).powi(2)).sum();
        Some((s * SCALE_F) as i64)
    }
}

#[test]
fn test_minimization_result() {
    let result = Summary {
        bounds: None,
        parameter_names: None,
        message: "Success".to_string(),
        x0: fix_vec(&[1.0, 2.0, 3.0]),
        x: fix_vec(&[1.0, 2.0, 3.0]),
        std: fix_vec(&[0.1, 0.2, 0.3]),
        fx: fix(3.0),
        cost_evals: 10,
        gradient_evals: 5,
        converged: true,
    };
    assert_eq!(result.message, "Success");
    assert_eq!(result.cost_evals, 10);
    assert_eq!(result.gradient_evals, 5);
    assert!(result.converged);
    assert_eq!(result.x.len(), 3);
    assert!((unfix(result.fx) - 3.0).abs() < 1e-9);
}

#[test]
fn rosenbrock_two_dims_converges() {
    let mut m = Minimizer::new(NelderMead::new(), 2);
    m.max_steps = 2000;
    let x0 = fix_vec(&[2.0, 2.0]);
    let r = m.minimize(&Rosenbrock { n: 2 }, &x0, &mut (), &NopAbortSignal::new(), &mut NopHook::new());
    assert!(r.is_ok());
    assert!(m.status.converged, "message: {}", m.status.message);
    assert_eq!(m.status.message, "Converged");
    let x1 = unfix(m.status.x[0]);
    let x2 = unfix(m.status.x[1]);
    assert!((x1 - 1.0).abs() < 1e-3, "x = [{}, {}]", x1, x2);
    assert!((x2 - 1.0).abs() < 1e-3, "x = [{}, {}]", x1, x2);
    assert!(unfix(m.status.fx).abs() < 1e-6, "fx = {}", unfix(m.status.fx));
}

#[test]
fn rosenbrock_adaptive_converges() {
    let mut m = Minimizer::new(NelderMead::new().with_adaptive(), 2);
    m.max_steps = 2000;
    let x0 = fix_vec(&[2.0, 2.0]);
    let r = m.minimize(&Rosenbrock { n: 2 }, &x0, &mut (), &NopAbortSignal::new(), &mut NopHook::new());
    assert!(r.is_ok());
    assert!(m.status.converged);
    assert!((unfix(m.status.x[0]) - 1.0).abs() < 1e-3);
    assert!((unfix(m.status.x[1]) - 1.0).abs() < 1e-3);
}

#[test]
fn rosenbrock_family_terminates_cleanly() {
    for n in 2..=5usize {
        let mut m = Minimizer::new(NelderMead::new(), n);
        m.max_steps = 4000;
        let x0 = fix_vec(&vec![5.0; n]);
        let r = m.minimize(&Rosenbrock { n }, &x0, &mut (), &NopAbortSignal::new(), &mut NopHook::new());
        assert!(r.is_ok(), "n = {}", n);
        assert!(m.steps <= m.max_steps);
        assert!(m.status.converged || m.status.message == "Max steps reached");
        for &v in m.status.x.iter() {
            assert!(unfix(v).is_finite());
        }
        assert!(unfix(m.status.fx).is_finite());
        assert_eq!(m.status.x.len(), n);
    }
}

#[test]
fn zero_step_budget_returns_start() {
    let mut m = Minimizer::new(NelderMead::new(), 2);
    m.max_steps = 0;
    let x0 = fix_vec(&[3.0, -1.5]);
    let r = m.minimize(&Rosenbrock { n: 2 }, &x0, &mut (), &NopAbortSignal::new(), &mut NopHook::new());
    assert!(r.is_ok());
    assert!(!m.status.converged);
    assert_eq!(m.status.message, "Max steps reached");
    assert_eq!(m.status.x, x0);
    assert_eq!(m.status.x0, x0);
    assert_eq!(m.steps, 0);
    // the initial simplex evaluates each of its n + 1 vertices exactly once
    assert_eq!(m.status.cost_evals, 3);
    assert_eq!(m.status.gradient_evals, 0);
}

#[test]
fn abort_before_first_step_keeps_start() {
    let mut m = Minimizer::new(NelderMead::new(), 2);
    let mut signal = FlagAbortSignal::new();
    signal.abort();
    let x0 = fix_vec(&[2.0, 2.0]);
    let r = m.minimize(&Rosenbrock { n: 2 }, &x0, &mut (), &signal, &mut NopHook::new());
    assert!(r.is_ok());
    assert!(!m.status.converged);
    assert_eq!(m.status.message, "Aborted");
    assert_eq!(m.steps, 0);
    assert_eq!(m.status.x, x0);
}

#[test]
fn counters_monotone_across_step_budgets() {
    let mut last_cost = 0u64;
    let mut last_steps = 0usize;
    for budget in 0..12usize {
        let mut m = Minimizer::new(NelderMead::new(), 2);
        m.max_steps = budget;
        let x0 = fix_vec(&[2.0, 2.0]);
        let r = m.minimize(&Rosenbrock { n: 2 }, &x0, &mut (), &NopAbortSignal::new(), &mut NopHook::new());
        assert!(r.is_ok());
        assert!(m.status.cost_evals >= last_cost);
        assert!(m.steps >= last_steps);
        if budget > 0 {
            // each step evaluates at least one and at most n + 2 new vertices
            let delta = m.status.cost_evals - last_cost;
            assert!(delta >= 1 || m.steps == last_steps);
            assert!(delta <= (m.steps - last_steps) as u64 * 4);
        }
        assert_eq!(m.status.gradient_evals, 0);
        last_cost = m.status.cost_evals;
        last_steps = m.steps;
    }
}

#[test]
fn bounds_length_mismatch_is_detected_before_evaluation() {
    let b = Bounds::new(vec![
        Bound::NoBound,
        Bound::NoBound,
        Bound::NoBound,
    ])
    .unwrap();
    let mut m = Minimizer::new(NelderMead::new(), 2);
    m.bounds = Some(b);
    let x0 = fix_vec(&[2.0, 2.0]);
    let r = m.minimize(&Rosenbrock { n: 2 }, &x0, &mut (), &NopAbortSignal::new(), &mut NopHook::new());
    assert_eq!(r, Err(MinimizeError::DimensionMismatch));
    assert_eq!(m.status.cost_evals, 0);
    assert_eq!(m.status.gradient_evals, 0);
}

#[test]
fn parameter_name_mismatch_is_detected() {
    let mut m = Minimizer::new(NelderMead::new(), 2);
    m.parameter_names = Some(vec!["a".to_string()]);
    let x0 = fix_vec(&[2.0, 2.0]);
    let r = m.minimize(&Rosenbrock { n: 2 }, &x0, &mut (), &NopAbortSignal::new(), &mut NopHook::new());
    assert_eq!(r, Err(MinimizeError::DimensionMismatch));
    assert_eq!(m.status.cost_evals, 0);
}

#[test]
fn dimension_mismatch_is_detected() {
    let mut m = Minimizer::new(NelderMead::new(), 3);
    let x0 = fix_vec(&[2.0, 2.0]);
    let r = m.minimize(&Rosenbrock { n: 2 }, &x0, &mut (), &NopAbortSignal::new(), &mut NopHook::new());
    assert_eq!(r, Err(MinimizeError::DimensionMismatch));
    assert_eq!(m.status.cost_evals, 0);
}

#[test]
fn unevaluable_start_is_invalid_initial_point() {
    let mut m = Minimizer::new(NelderMead::new(), 2);
    let x0 = fix_vec(&[2.0, 2.0]);
    let r = m.minimize(&Broken, &x0, &mut (), &NopAbortSignal::new(), &mut NopHook::new());
    assert_eq!(r, Err(MinimizeError::InvalidInitialPoint));
}

#[test]
fn failure_during_search_surfaces_as_evaluation_failed() {
    let mut m = Minimizer::new(NelderMead::new(), 2);
    let x0 = fix_vec(&[2.0, 2.0]);
    let mut used: u32 = 0;
    let r = m.minimize(&Flaky, &x0, &mut used, &NopAbortSignal::new(), &mut NopHook::new());
    assert_eq!(r, Err(MinimizeError::EvaluationFailed));
    assert!(used > 3);
}

#[test]
fn bounded_search_respects_the_box() {
    // the unconstrained minimum (the bowl center) lies outside the box,
    // so the search must settle at the boundary
    let b = Bounds::new(vec![
        Bound::LowerAndUpperBound(fix(2.0), fix(5.0)),
        Bound::LowerAndUpperBound(fix(2.0), fix(5.0)),
    ])
    .unwrap();
    let mut m = Minimizer::new(NelderMead::new(), 2);
    m.max_steps = 2000;
    m.bounds = Some(b);
    let x0 = fix_vec(&[3.0, 3.0]);
    let r = m.minimize(&Bowl { center: vec![0.0, 0.0] }, &x0, &mut (), &NopAbortSignal::new(), &mut NopHook::new());
    assert!(r.is_ok());
    for &v in m.status.x.iter() {
        let vf = unfix(v);
        assert!((2.0..=5.0).contains(&vf), "x left the box: {}", vf);
    }
    assert!((unfix(m.status.x[0]) - 2.0).abs() < 1e-2);
    assert!((unfix(m.status.x[1]) - 2.0).abs() < 1e-2);
}

#[test]
fn bounded_search_finds_interior_minimum() {
    let b = Bounds::new(vec![
        Bound::LowerBound(fix(-10.0)),
        Bound::UpperBound(fix(10.0)),
    ])
    .unwrap();
    let mut m = Minimizer::new(NelderMead::new(), 2);
    m.max_steps = 2000;
    m.bounds = Some(b);
    let x0 = fix_vec(&[3.0, -3.0]);
    let r = m.minimize(&Bowl { center: vec![1.0, 1.0] }, &x0, &mut (), &NopAbortSignal::new(), &mut NopHook::new());
    assert!(r.is_ok());
    assert!(m.status.converged);
    assert!((unfix(m.status.x[0]) - 1.0).abs() < 1e-3);
    assert!((unfix(m.status.x[1]) - 1.0).abs() < 1e-3);
}

#[test]
fn finite_difference_gradient_matches_analytic() {
    let x = fix_vec(&[1.0, 2.0]);
    let mut st = Summary {
        bounds: None,
        parameter_names: None,
        message: String::new(),
        x0: x.clone(),
        x: x.clone(),
        std: fix_vec(&[0.0, 0.0]),
        fx: 0,
        cost_evals: 0,
        gradient_evals: 0,
        converged: false,
    };
    let bowl = Bowl { center: vec![0.0, 0.0] };
    let g = central_difference(&bowl, &x, &mut (), &mut st).unwrap();
    // gradient of the squared distance to the origin is 2 x
    assert!((unfix(g[0]) - 2.0).abs() < 1e-3, "g0 = {}", unfix(g[0]));
    assert!((unfix(g[1]) - 4.0).abs() < 1e-3, "g1 = {}", unfix(g[1]));
    assert_eq!(st.cost_evals, 4);
    assert_eq!(st.gradient_evals, 1);
}

#[test]
fn gradient_failure_is_surfaced() {
    let x = fix_vec(&[1.0, 2.0]);
    let mut st = Summary {
        bounds: None,
        parameter_names: None,
        message: String::new(),
        x0: x.clone(),
        x: x.clone(),
        std: fix_vec(&[0.0, 0.0]),
        fx: 0,
        cost_evals: 0,
        gradient_evals: 0,
        converged: false,
    };
    let r = central_difference(&Broken, &x, &mut (), &mut st);
    assert_eq!(r, Err(MinimizeError::EvaluationFailed));
    assert_eq!(st.gradient_evals, 0);
}

/// An objective undefined (not a number) left of the origin, with its
/// minimum at one.
struct HalfDefined;

impl CostFunction<()> for HalfDefined {
    fn evaluate(&self, x: &Vec<i64>, _user_data: &mut ()) -> Option<i64> {
        let v = unfix(x[0]);
        let s = if v < 0.0 { f64::NAN } else { (v - 1.0).powi(2) };
        if s.is_nan() {
            // worst possible value: the search steers away instead of stopping
            Some(i64::MAX)
        } else {
            Some((s * SCALE_F) as i64)
        }
    }
}

#[test]
fn undefined_regions_are_steered_around() {
    let mut m = Minimizer::new(NelderMead::new(), 1);
    m.max_steps = 500;
    let x0 = fix_vec(&[2.0]);
    let r = m.minimize(&HalfDefined, &x0, &mut (), &NopAbortSignal::new(), &mut NopHook::new());
    assert!(r.is_ok());
    assert!(m.status.converged);
    assert!((unfix(m.status.x[0]) - 1.0).abs() < 1e-3);
    assert!(unfix(m.status.fx).is_finite());
}

#[test]
fn point_cache_is_dropped_on_mutation() {
    let mut p = Point::new(fix_vec(&[1.0, 2.0]));
    // an unevaluated point carries the worst possible value
    assert_eq!(p.fx_or_worst(), i64::MAX);
    p.set_fx(fix(7.0));
    assert_eq!(p.fx_or_worst(), fix(7.0));
    assert_eq!(p.dim(), 2);
    assert_eq!(p.coord(0), fix(1.0));
    // replacing the vector invalidates the cached value
    p.set_x(fix_vec(&[3.0, 4.0]));
    assert_eq!(p.fx_or_worst(), i64::MAX);
    assert_eq!(p.coords().len(), 2);
}

/// A hook that counts its invocations and watches the running record.
struct CountingHook {
    before: usize,
    after: usize,
    max_cost_seen: u64,
}

impl StepHook<()> for CountingHook {
    fn before_step(&mut self, _status: &mut Summary, _user_data: &mut ()) {
        self.before += 1;
    }

    fn after_step(&mut self, status: &mut Summary, _user_data: &mut ()) {
        self.after += 1;
        // counters never decrease between observations
        assert!(status.cost_evals >= self.max_cost_seen);
        self.max_cost_seen = status.cost_evals;
    }
}

#[test]
fn hooks_run_once_per_step() {
    let mut m = Minimizer::new(NelderMead::new(), 2);
    m.max_steps = 25;
    let x0 = fix_vec(&[2.0, 2.0]);
    let mut hook = CountingHook { before: 0, after: 0, max_cost_seen: 0 };
    let r = m.minimize(&Rosenbrock { n: 2 }, &x0, &mut (), &NopAbortSignal::new(), &mut hook);
    assert!(r.is_ok());
    assert_eq!(hook.before, m.steps);
    assert_eq!(hook.after, m.steps);
    assert!(m.steps > 0);
}
