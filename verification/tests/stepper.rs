//! The Nesterov momentum generator over `f64`.

use proxmin::utils::NesterovStepper;

fn advance(t: f64) -> (f64, f64) {
    let t_next = 0.5 * (1.0 + (4.0 * t * t + 1.0).sqrt());
    let om = (t - 1.0) / t_next;
    (t_next, om)
}

#[test]
fn disabled_stepper_returns_zero_forever() {
    let mut stepper = NesterovStepper::new(false, 1.0, 0.0);
    for _ in 0..500 {
        assert_eq!(stepper.omega(advance), 0.0);
    }
}

#[test]
fn accelerated_stepper_is_strictly_increasing_below_one() {
    let mut stepper = NesterovStepper::new(true, 1.0, 0.0);
    let first = stepper.omega(advance);
    assert_eq!(first, 0.0);
    let mut prev = first;
    let mut last = first;
    for _ in 0..400 {
        let om = stepper.omega(advance);
        assert!(om > prev);
        assert!(om < 1.0);
        prev = om;
        last = om;
    }
    assert!(last > 0.98);
}
