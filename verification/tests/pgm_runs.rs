//! The Proximal Gradient Method instantiated over `f64`.

use std::cell::RefCell;
use std::rc::Rc;

use proxmin::{converged_test, extrapolate, pgm, ProximalOptimizerErr};
use proxmin::utils::l2sq;

fn add(a: f64, b: f64) -> f64 {
    a + b
}

fn sub(a: f64, b: f64) -> f64 {
    a - b
}

fn mul(a: f64, b: f64) -> f64 {
    a * b
}

fn le(a: f64, b: f64) -> bool {
    a <= b
}

fn is_pos(a: f64) -> bool {
    a > 0.0
}

fn advance(t: f64) -> (f64, f64) {
    let t_next = 0.5 * (1.0 + (4.0 * t * t + 1.0).sqrt());
    let om = (t - 1.0) / t_next;
    (t_next, om)
}

/// One gradient step for the shifted parabola `(x-1)^2 + (y-0.5)^2`.
fn prox_gradf(xy: &Vec<f64>, step: &Vec<f64>) -> Vec<f64> {
    let grad = vec![2.0 * xy[0] - 2.0, 2.0 * xy[1] - 1.0];
    vec![xy[0] - step[0] * grad[0], xy[1] - step[1] * grad[1]]
}

#[test]
fn parabola_descends_to_its_minimum() {
    let start = vec![-1.0, -1.0];
    let step = vec![0.05, 0.05];
    let (x, converged, _err) = pgm(
        &start, prox_gradf, &step, false, Some(1.0), 1e-6, 300, 0.0, 1.0, sub, mul, add, le,
        is_pos, advance,
    )
    .unwrap();
    assert!(converged);
    assert!((x[0] - 1.0).abs() < 1e-3);
    assert!((x[1] - 0.5).abs() < 1e-3);
}

#[test]
fn accelerated_parabola_also_converges() {
    let start = vec![-1.0, -1.0];
    let step = vec![0.05, 0.05];
    let (x, converged, _err) = pgm(
        &start, prox_gradf, &step, true, None, 1e-6, 200, 0.0, 1.0, sub, mul, add, le, is_pos,
        advance,
    )
    .unwrap();
    assert!(converged);
    assert!((x[0] - 1.0).abs() < 1e-3);
    assert!((x[1] - 0.5).abs() < 1e-3);
}

#[test]
fn converged_flag_matches_the_norm_bound() {
    // A fixed point of the proximal map: converges on the first test.
    let start = vec![2.0, -3.0];
    let step = vec![0.1, 0.1];
    let identity = |x: &Vec<f64>, _s: &Vec<f64>| x.clone();
    let (x, converged, err) = pgm(
        &start, identity, &step, false, None, 1e-6, 50, 0.0, 1.0, sub, mul, add, le, is_pos,
        advance,
    )
    .unwrap();
    let e_rel = 1e-6_f64;
    let bound = l2sq(&x, 0.0, mul, add) * e_rel * e_rel;
    assert_eq!(converged, l2sq(&err, 0.0, mul, add) <= bound);
    assert!(converged);

    // A map that keeps moving the iterate: the budget runs out unconverged.
    let halve = |x: &Vec<f64>, _s: &Vec<f64>| vec![x[0] * 0.5, x[1] * 0.5];
    let (x2, converged2, err2) = pgm(
        &start, halve, &step, false, None, 1e-6, 5, 0.0, 1.0, sub, mul, add, le, is_pos, advance,
    )
    .unwrap();
    let bound2 = l2sq(&x2, 0.0, mul, add) * e_rel * e_rel;
    assert_eq!(converged2, l2sq(&err2, 0.0, mul, add) <= bound2);
    assert!(!converged2);
}

#[test]
fn unaccelerated_prox_sees_the_current_iterate_exactly() {
    let seen: Rc<RefCell<Vec<Vec<f64>>>> = Rc::new(RefCell::new(Vec::new()));
    let log = Rc::clone(&seen);
    let recording_prox = move |x: &Vec<f64>, s: &Vec<f64>| {
        log.borrow_mut().push(x.clone());
        vec![x[0] - s[0] * 2.0 * x[0], x[1] - s[1] * 2.0 * x[1]]
    };
    let start = vec![3.0, -2.0];
    let step = vec![0.1, 0.1];
    let iterations: usize = 6;
    let _ = pgm(
        &start,
        recording_prox,
        &step,
        false,
        None,
        0.0,
        iterations,
        0.0,
        1.0,
        sub,
        mul,
        add,
        le,
        is_pos,
        advance,
    )
    .unwrap();
    // Replay the unaccelerated recursion: with omega always zero, every
    // extrapolated point handed to the proximal map must equal the current
    // iterate bit for bit.
    let inputs = seen.borrow();
    assert_eq!(inputs.len(), iterations);
    let mut expected = start.clone();
    for handed in inputs.iter() {
        assert_eq!(*handed, expected);
        expected = vec![
            expected[0] - step[0] * 2.0 * expected[0],
            expected[1] - step[1] * 2.0 * expected[1],
        ];
    }
}

#[test]
fn prox_length_change_is_a_parameter_mismatch() {
    let start = vec![1.0, 2.0];
    let step = vec![0.1, 0.1];
    let bad_prox = |_x: &Vec<f64>, _s: &Vec<f64>| vec![0.0, 0.0, 0.0];
    let r = pgm(
        &start, bad_prox, &step, false, None, 1e-6, 10, 0.0, 1.0, sub, mul, add, le, is_pos,
        advance,
    );
    assert!(matches!(
        r,
        Err(ProximalOptimizerErr::ParameterLengthMismatch)
    ));
}

#[test]
fn zero_iterations_returns_the_start() {
    let start = vec![4.0, 5.0];
    let step = vec![0.1, 0.1];
    let identity = |x: &Vec<f64>, _s: &Vec<f64>| x.clone();
    let (x, converged, err) = pgm(
        &start, identity, &step, false, None, 1e-6, 0, 0.0, 1.0, sub, mul, add, le, is_pos,
        advance,
    )
    .unwrap();
    assert_eq!(x, start);
    assert!(!converged);
    // The "previous" iterate starts as the zero vector, so the reported
    // last update is the start itself.
    assert_eq!(err, start);
}

#[test]
fn extrapolate_is_identity_without_positive_momentum() {
    let x = vec![2.0, 3.0];
    let x_prev = vec![100.0, -50.0];
    let r = extrapolate(&x, &x_prev, 0.0, false, sub, mul, add).unwrap();
    assert_eq!(r, x);
}

#[test]
fn extrapolate_moves_along_the_update_direction() {
    let x = vec![2.0, 3.0];
    let x_prev = vec![1.0, 1.0];
    let r = extrapolate(&x, &x_prev, 0.5, true, sub, mul, add).unwrap();
    assert_eq!(r, vec![2.5, 4.0]);
}

#[test]
fn convergence_test_values() {
    let x = vec![1.0, 0.0];
    assert!(converged_test(&x, &x, 1e-6, 0.0, sub, mul, add, le).unwrap());
    let far = vec![0.0, 0.0];
    let x2 = vec![2.0, 0.0];
    assert!(!converged_test(&x2, &far, 0.1, 0.0, sub, mul, add, le).unwrap());
    let short = vec![1.0];
    let r = converged_test(&x, &short, 0.1, 0.0, sub, mul, add, le);
    assert!(matches!(
        r,
        Err(ProximalOptimizerErr::ParameterLengthMismatch)
    ));
}
