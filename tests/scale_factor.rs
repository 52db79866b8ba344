use std::ops::Neg;

#[test]
fn converter_test_math_equality() {
    let val = 0.567 as f32;
    let a = 0.234;
    let x = -1.0 / ((1.0 / val - 1.0) / a - 1.0);
    let y = (a.neg() * val) / ((a.neg() * val) - val + 1.0);

    let z = (x - y).abs();
    let eps = 0.000001 as f32;
    assert!(z < eps);
}

#[test]
fn converter_test_scale_factor_simplification() {
    let min = 0. as f32;
    let max = 100. as f32;
    let mid = 0.25 as f32;
    let y = (mid - min) / (max - min);
    let x = 0.5;

    let t = -1.0 / (((x / y - x) / (x - 1.0)) - 1.0);
    let s = y.neg() * (x - 1.) / (x - 2. * x * y + y);
    let z = (t - s).abs();
    let eps = 0.000001 as f32;
    assert!(z < eps);
}
