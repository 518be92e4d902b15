use intrico::QuantumGate;
use intrico::Qubit;
use rusticle::complex::Complex;

fn probability_zero(q: &Qubit) -> f64 {
    q.state_vector().components[0].norm_squared()
}

fn probability_one(q: &Qubit) -> f64 {
    q.state_vector().components[1].norm_squared()
}

#[test]
fn test_zero_state() {
    let qubit = Qubit::zero();
    assert_eq!(qubit.state_vector().components[0], Complex::new(1.0, 0.0));
    assert_eq!(qubit.state_vector().components[1], Complex::new(0.0, 0.0));
    assert_eq!(probability_zero(&qubit), 1.0);
    assert_eq!(probability_one(&qubit), 0.0);
}

#[test]
fn test_one_state() {
    let qubit = Qubit::one();
    assert_eq!(qubit.state_vector().components[0], Complex::new(0.0, 0.0));
    assert_eq!(qubit.state_vector().components[1], Complex::new(1.0, 0.0));
    assert_eq!(probability_zero(&qubit), 0.0);
    assert_eq!(probability_one(&qubit), 1.0);
}

#[test]
fn test_custom_state() {
    let alpha = Complex::new(1.0 / 2.0_f64.sqrt(), 0.0);
    let beta = Complex::new(1.0 / 2.0_f64.sqrt(), 0.0);
    let qubit = Qubit::new(alpha, beta);
    assert!((probability_zero(&qubit) - 0.5).abs() < 1e-10);
    assert!((probability_one(&qubit) - 0.5).abs() < 1e-10);
}

#[test]
fn test_complex_state() {
    let alpha = Complex::new(0.5, 0.5);
    let beta = Complex::new(0.5, -0.5);
    let qubit = Qubit::new(alpha, beta);
    assert!((probability_zero(&qubit) - 0.5).abs() < 1e-10);
    assert!((probability_one(&qubit) - 0.5).abs() < 1e-10);
}

#[test]
fn test_basis_states() {
    let zero_state = Qubit::zero();
    assert_eq!(zero_state.state_vector().components[0], Complex::new(1.0, 0.0));
    assert_eq!(zero_state.state_vector().components[1], Complex::new(0.0, 0.0));
    assert_eq!(probability_zero(&zero_state), 1.0);
    assert_eq!(probability_one(&zero_state), 0.0);
    assert!(zero_state.is_basis_state());

    let one_state = Qubit::one();
    assert_eq!(one_state.state_vector().components[0], Complex::new(0.0, 0.0));
    assert_eq!(one_state.state_vector().components[1], Complex::new(1.0, 0.0));
    assert_eq!(probability_zero(&one_state), 0.0);
    assert_eq!(probability_one(&one_state), 1.0);
    assert!(one_state.is_basis_state());
}

#[test]
fn test_custom_real_states() {
    let alpha = Complex::new(1.0 / 2.0_f64.sqrt(), 0.0);
    let beta = Complex::new(1.0 / 2.0_f64.sqrt(), 0.0);
    let superposition = Qubit::new(alpha, beta);

    assert!((probability_zero(&superposition) - 0.5).abs() < 1e-10);
    assert!((probability_one(&superposition) - 0.5).abs() < 1e-10);
    assert!(!superposition.is_basis_state());
}

#[test]
fn test_custom_complex_states() {
    let alpha = Complex::new(0.5, 0.5);
    let beta = Complex::new(0.5, -0.5);
    let complex_state = Qubit::new(alpha, beta);

    assert!((probability_zero(&complex_state) - 0.5).abs() < 1e-10);
    assert!((probability_one(&complex_state) - 0.5).abs() < 1e-10);
    assert!(!complex_state.is_basis_state());
}

#[test]
fn try_new_accepts_exactly_the_normalized_states() {
    let q = Qubit::try_new(Complex::new(0.6, 0.0), Complex::new(0.0, 0.8));
    assert!(q.is_some());
    assert_eq!(
        q.unwrap().state_vector().components[0],
        Complex::new(0.6, 0.0)
    );

    let bad = Qubit::try_new(Complex::new(0.5, 0.0), Complex::new(0.5, 0.0));
    assert!(bad.is_none());
}

#[test]
fn default_qubit_is_zero_state() {
    let q = Qubit::default();
    assert_eq!(q.state_vector().components[0], Complex::new(1.0, 0.0));
    assert_eq!(q.state_vector().components[1], Complex::new(0.0, 0.0));
    assert!(q.is_basis_state());
}

#[test]
fn apply_x_flips_the_basis_state() {
    let mut q = Qubit::zero();
    q.apply(QuantumGate::X);
    assert_eq!(q.state_vector().components[0], Complex::new(0.0, 0.0));
    assert_eq!(q.state_vector().components[1], Complex::new(1.0, 0.0));
    assert!(q.is_basis_state());
}

#[test]
fn apply_h_builds_the_even_superposition() {
    let mut q = Qubit::zero();
    q.apply(QuantumGate::H);
    let r = 1.0 / 2.0_f64.sqrt();
    assert_eq!(q.state_vector().components[0], Complex::new(r, 0.0));
    assert_eq!(q.state_vector().components[1], Complex::new(r, 0.0));
    assert!(!q.is_basis_state());
}
