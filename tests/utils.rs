use schrodinger::{count_nodes, method_at, stencil, stencil_at, SecondDerivateMethod};

fn gen_range(start: f64, end: f64, step: f64) -> Vec<f64> {
    let mut x = start;
    let mut ret = Vec::new();
    while x <= end {
        ret.push(x);
        x += step;
    }
    ret
}

fn relative_error(observed: f64, theoretical: f64) -> f64 {
    let mut relative_error = (observed - theoretical) / theoretical;
    if relative_error.abs() > 1e4 {
        relative_error = 1e4 * relative_error.signum();
    }
    relative_error
}

fn second_derivative(method: SecondDerivateMethod, f: &[f64], i: usize, step_size: f64) -> f64 {
    let (a, b, c) = stencil(method, i, f.len());
    (f[a] - 2.0 * f[b] + f[c]) / (step_size * step_size)
}

fn negative_flags(f: &[f64]) -> Vec<bool> {
    f.iter().map(|v| v.is_sign_negative()).collect()
}

#[test]
fn test_count_nodes() {
    let x_vals = gen_range(-2.0, 2.0, 0.01);
    let y_vals: Vec<f64> = x_vals.iter().map(|x| x * x - 1.0).collect();
    assert_eq!(count_nodes(&negative_flags(&y_vals)), 2);
}

#[test]
fn second_derivative_test() {
    let f: Vec<f64> = gen_range(0.0, 1.0, 0.01).iter().map(|x| *x * *x).collect();
    assert!(
        relative_error(2.0, second_derivative(SecondDerivateMethod::ForwardDifference, &f, 0, 0.01))
            .abs()
            < 0.01
    );
    assert!(
        relative_error(2.0, second_derivative(SecondDerivateMethod::CentralDifference, &f, 50, 0.01))
            .abs()
            < 0.01
    );
    assert!(
        relative_error(2.0, second_derivative(SecondDerivateMethod::BackwardDifference, &f, 99, 0.01))
            .abs()
            < 0.01
    );
}

#[test]
fn count_nodes_short_series() {
    assert_eq!(count_nodes(&[]), 0);
    assert_eq!(count_nodes(&[true]), 0);
    assert_eq!(count_nodes(&[false, false, false]), 0);
}

#[test]
fn count_nodes_alternating() {
    assert_eq!(count_nodes(&[false, true, false, true]), 3);
    assert_eq!(count_nodes(&[true, true, false, false, true]), 2);
}

#[test]
fn method_follows_grid_position() {
    assert_eq!(method_at(0, 10), SecondDerivateMethod::ForwardDifference);
    assert_eq!(method_at(9, 10), SecondDerivateMethod::BackwardDifference);
    assert_eq!(method_at(1, 10), SecondDerivateMethod::CentralDifference);
    assert_eq!(method_at(8, 10), SecondDerivateMethod::CentralDifference);
}

#[test]
fn stencil_indices() {
    assert_eq!(stencil(SecondDerivateMethod::ForwardDifference, 3, 10), (3, 4, 5));
    assert_eq!(stencil(SecondDerivateMethod::CentralDifference, 3, 10), (2, 3, 4));
    assert_eq!(stencil(SecondDerivateMethod::BackwardDifference, 3, 10), (1, 2, 3));
    assert_eq!(stencil_at(0, 5), (0, 1, 2));
    assert_eq!(stencil_at(2, 5), (1, 2, 3));
    assert_eq!(stencil_at(4, 5), (2, 3, 4));
}

#[test]
fn second_derivative_of_line_is_zero() {
    let f: Vec<f64> = (0..10).map(|i| 3.0 * i as f64 + 1.0).collect();
    for i in 0..10 {
        let (a, b, c) = stencil_at(i, 10);
        assert_eq!(f[a] - 2.0 * f[b] + f[c], 0.0);
    }
}
