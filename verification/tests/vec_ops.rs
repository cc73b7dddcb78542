//! Vector arithmetic instantiated with ordinary `f64` operations.

use proxmin::misc::{vec_copy, vec_fill, vec_inner_prod, vec_scalar, vec_zip, vec_zip_exact};
use proxmin::utils::l2sq;
use proxmin::ProximalOptimizerErr;

fn add(a: f64, b: f64) -> f64 {
    a + b
}

fn sub(a: f64, b: f64) -> f64 {
    a - b
}

fn mul(a: f64, b: f64) -> f64 {
    a * b
}

#[test]
fn add_elementwise() {
    let a = vec![1.0, 2.0, 3.0];
    let b = vec![4.0, 5.0, 6.0];
    let r = vec_zip(&a, &b, add).unwrap();
    assert_eq!(r, vec![5.0, 7.0, 9.0]);
}

#[test]
fn sub_elementwise() {
    let a = vec![4.0, 5.0, 6.0];
    let b = vec![1.0, 2.0, 3.0];
    let r = vec_zip(&a, &b, sub).unwrap();
    assert_eq!(r, vec![3.0, 3.0, 3.0]);
}

#[test]
fn add_sub_round_trip_within_tolerance() {
    let a = vec![0.1, -2.7, 3.333333, 1e-9, 12345.6789];
    let b = vec![9.81, 0.2, -7.5, 2e9, -0.000271828];
    let s = vec_zip(&a, &b, add).unwrap();
    let r = vec_zip(&s, &b, sub).unwrap();
    assert_eq!(r.len(), a.len());
    for i in 0..a.len() {
        let scale = 1.0_f64.max(a[i].abs()).max(b[i].abs());
        assert!((r[i] - a[i]).abs() <= 1e-9 * scale);
    }
}

#[test]
fn add_sub_round_trip_exact_on_dyadic_values() {
    let a = vec![1.5, -0.25, 1024.0];
    let b = vec![0.5, 2.75, -8.125];
    let s = vec_zip(&a, &b, add).unwrap();
    let r = vec_zip(&s, &b, sub).unwrap();
    assert_eq!(r, a);
}

#[test]
fn add_length_mismatch_fails() {
    let a = vec![1.0, 2.0];
    let b = vec![1.0, 2.0, 3.0];
    let r = vec_zip(&a, &b, add);
    assert!(matches!(
        r,
        Err(ProximalOptimizerErr::ParameterLengthMismatch)
    ));
}

#[test]
fn sub_length_mismatch_fails() {
    let a = vec![1.0];
    let b = vec![1.0, 2.0];
    let r = vec_zip(&a, &b, sub);
    assert!(matches!(
        r,
        Err(ProximalOptimizerErr::ParameterLengthMismatch)
    ));
}

#[test]
fn inner_product_length_mismatch_fails() {
    let a = vec![1.0, 2.0, 3.0];
    let b = vec![1.0, 2.0];
    let r = vec_inner_prod(&a, &b, 0.0, mul, add);
    assert!(matches!(
        r,
        Err(ProximalOptimizerErr::ParameterLengthMismatch)
    ));
}

#[test]
fn inner_product_value() {
    let a = vec![1.0, 2.0, 3.0];
    let b = vec![4.0, 5.0, 6.0];
    let r = vec_inner_prod(&a, &b, 0.0, mul, add).unwrap();
    assert_eq!(r, 32.0);
}

#[test]
fn elementwise_product() {
    let a = vec![2.0, 3.0];
    let b = vec![4.0, 5.0];
    let r = vec_zip_exact(&a, &b, mul);
    assert_eq!(r, vec![8.0, 15.0]);
}

#[test]
fn scalar_subtract() {
    let x = vec![5.0, 7.0];
    let r = vec_scalar(&x, 2.0, sub);
    assert_eq!(r, vec![3.0, 5.0]);
}

#[test]
fn scalar_multiply() {
    let x = vec![5.0, -7.0];
    let r = vec_scalar(&x, 2.0, mul);
    assert_eq!(r, vec![10.0, -14.0]);
}

#[test]
fn scalar_maximum() {
    let x = vec![1.0, -3.0, 0.5];
    let r = vec_scalar(&x, 0.0, f64::max);
    assert_eq!(r, vec![1.0, 0.0, 0.5]);
}

#[test]
fn sum_of_squares_value() {
    let x = vec![3.0, 4.0];
    assert_eq!(l2sq(&x, 0.0, mul, add), 25.0);
}

#[test]
fn sum_of_squares_nonnegative() {
    let x = vec![-3.5, -0.001, 2.25, 0.0];
    assert!(l2sq(&x, 0.0, mul, add) >= 0.0);
    let empty: Vec<f64> = vec![];
    assert_eq!(l2sq(&empty, 0.0, mul, add), 0.0);
}

#[test]
fn fill_and_copy() {
    let f = vec_fill(3, 7.5);
    assert_eq!(f, vec![7.5, 7.5, 7.5]);
    let c = vec_copy(&f);
    assert_eq!(c, f);
}
