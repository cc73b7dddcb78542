//! The coordinate hill-climbing optimizer instantiated over `f64`.

use proxmin::climb::{step_action, FitOrdering, HillClimbOptimizer, StepAction};
use proxmin::ProximalOptimizerErr;

fn add(a: f64, b: f64) -> f64 {
    a + b
}

fn mul(a: f64, b: f64) -> f64 {
    a * b
}

fn neg(a: f64) -> f64 {
    -a
}

fn cmp(a: &f64, b: &f64) -> FitOrdering {
    match a.partial_cmp(b) {
        Some(std::cmp::Ordering::Less) => FitOrdering::Less,
        Some(std::cmp::Ordering::Equal) => FitOrdering::Equal,
        Some(std::cmp::Ordering::Greater) => FitOrdering::Greater,
        None => FitOrdering::Incomparable,
    }
}

fn rosenbrock(x: f64, y: f64) -> f64 {
    (1.0 - x) * (1.0 - x) + 100.0 * (y - x * x) * (y - x * x)
}

fn new_optimizer(dims: usize, iterations: usize) -> HillClimbOptimizer<f64> {
    HillClimbOptimizer::new(dims, iterations, 1.0, 1.5, 0.5)
}

#[test]
fn step_action_table() {
    assert_eq!(step_action(FitOrdering::Less, false), StepAction::Accept);
    assert_eq!(step_action(FitOrdering::Greater, false), StepAction::FlipShrink);
    assert_eq!(step_action(FitOrdering::Greater, true), StepAction::Accept);
    assert_eq!(step_action(FitOrdering::Less, true), StepAction::FlipShrink);
    assert_eq!(step_action(FitOrdering::Equal, false), StepAction::Shrink);
    assert_eq!(step_action(FitOrdering::Equal, true), StepAction::Shrink);
    assert_eq!(step_action(FitOrdering::Incomparable, false), StepAction::FlipShrink);
    assert_eq!(step_action(FitOrdering::Incomparable, true), StepAction::FlipShrink);
}

#[test]
fn quadratic_minimum_is_found() {
    let mut opt = new_optimizer(2, 1000);
    let objective =
        |v: &Vec<f64>| (v[0] - 1.0) * (v[0] - 1.0) + (v[1] - 0.5) * (v[1] - 0.5);
    let start = vec![-1.0, -1.0];
    let best = opt.optimize(&start, objective, cmp, add, mul, neg).unwrap();
    assert!((best[0] - 1.0).abs() <= 0.01);
    assert!((best[1] - 0.5).abs() <= 0.01);
}

#[test]
fn rosenbrock_from_near_start() {
    let mut opt = new_optimizer(2, 10000);
    opt.set_maximize(true);
    let objective = |v: &Vec<f64>| -rosenbrock(v[0], v[1]);
    let start = vec![-1.2, 1.0];
    let best = opt.optimize(&start, objective, cmp, add, mul, neg).unwrap();
    assert!((best[0] - 1.0).abs() <= 0.01);
    assert!((best[1] - 1.0).abs() <= 0.01);
}

#[test]
fn rosenbrock_from_far_start_needs_a_larger_budget() {
    let mut opt = new_optimizer(2, 400000);
    opt.set_maximize(true);
    let objective = |v: &Vec<f64>| -rosenbrock(v[0], v[1]);
    let start = vec![100.0, 100.0];
    let best = opt.optimize(&start, objective, cmp, add, mul, neg).unwrap();
    assert!((best[0] - 1.0).abs() <= 0.01);
    assert!((best[1] - 1.0).abs() <= 0.01);
}

#[test]
fn ten_iterations_on_a_parabola_are_reproducible() {
    let mut opt = new_optimizer(1, 10);
    opt.set_maximize(true);
    let objective = |v: &Vec<f64>| -0.5 * v[0] * v[0] + 50.0 * v[0] + 12.0;
    let start = vec![0.0];
    let best = opt.optimize(&start, objective, cmp, add, mul, neg).unwrap();
    assert_eq!(best, vec![49.2578125]);
}

#[test]
fn start_length_mismatch_fails() {
    let mut opt = new_optimizer(2, 10);
    let objective = |v: &Vec<f64>| v[0];
    let start = vec![0.0, 0.0, 0.0];
    let r = opt.optimize(&start, objective, cmp, add, mul, neg);
    assert!(matches!(
        r,
        Err(ProximalOptimizerErr::ParameterLengthMismatch)
    ));
}

#[test]
fn unorderable_start_fails_before_iterating() {
    let mut opt = new_optimizer(1, 10);
    let objective = |_v: &Vec<f64>| f64::NAN;
    let start = vec![0.0];
    let r = opt.optimize(&start, objective, cmp, add, mul, neg);
    assert!(matches!(r, Err(ProximalOptimizerErr::StartUnorderable)));
}

#[test]
fn flat_objective_reports_no_improvement() {
    let mut opt = new_optimizer(2, 25);
    let objective = |_v: &Vec<f64>| 5.0;
    let start = vec![0.0, 0.0];
    let r = opt.optimize(&start, objective, cmp, add, mul, neg);
    assert!(matches!(r, Err(ProximalOptimizerErr::SolutionNoBetter)));
}

#[test]
fn per_dimension_setters_check_lengths() {
    let mut opt = new_optimizer(2, 10);
    assert!(opt.set_step_sizes(&vec![0.5, 0.25]).is_ok());
    assert!(matches!(
        opt.set_step_sizes(&vec![0.5]),
        Err(ProximalOptimizerErr::ParameterLengthMismatch)
    ));
    assert!(opt.set_expansions(&vec![2.0, 2.0]).is_ok());
    assert!(matches!(
        opt.set_expansions(&vec![2.0, 2.0, 2.0]),
        Err(ProximalOptimizerErr::ParameterLengthMismatch)
    ));
    assert!(opt.set_compressions(&vec![0.5, 0.5]).is_ok());
    assert!(matches!(
        opt.set_compressions(&vec![]),
        Err(ProximalOptimizerErr::ParameterLengthMismatch)
    ));
}

#[test]
fn scalar_setters_shape_the_search() {
    // With every step size zeroed no trial can move, so a strictly convex
    // objective sees only ties and the search reports no improvement.
    let mut opt = new_optimizer(1, 20);
    opt.set_step_size(0.0);
    let objective = |v: &Vec<f64>| (v[0] - 1.0) * (v[0] - 1.0);
    let start = vec![3.0];
    let r = opt.optimize(&start, objective, cmp, add, mul, neg);
    assert!(matches!(r, Err(ProximalOptimizerErr::SolutionNoBetter)));

    // Restored step sizes find the minimum again.
    let mut opt2 = new_optimizer(1, 200);
    opt2.set_step_size(0.5);
    opt2.set_expansion(1.5);
    opt2.set_compression(0.5);
    opt2.set_iterations(300);
    let best = opt2.optimize(&start, objective, cmp, add, mul, neg).unwrap();
    assert!((best[0] - 1.0).abs() <= 0.01);
}
