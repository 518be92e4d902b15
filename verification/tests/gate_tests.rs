use intrico::GateOp;
use intrico::QuantumGate;
use rusticle::complex::Complex;
use rusticle::linalg::Matrix;

#[test]
fn test_pauli_x_gate() {
    let x = QuantumGate::X;
    let expected = Matrix::new(
        2,
        2,
        vec![
            Complex::new(0.0, 0.0),
            Complex::new(1.0, 0.0),
            Complex::new(1.0, 0.0),
            Complex::new(0.0, 0.0),
        ],
    );
    assert_eq!(x.matrix(), expected);
}

#[test]
fn test_pauli_y_gate() {
    let y = QuantumGate::Y;
    let expected = Matrix::new(
        2,
        2,
        vec![
            Complex::new(0.0, 0.0),
            Complex::new(0.0, -1.0),
            Complex::new(0.0, 1.0),
            Complex::new(0.0, 0.0),
        ],
    );
    assert_eq!(y.matrix(), expected);
}

#[test]
fn test_pauli_z_gate() {
    let z = QuantumGate::Z;
    let expected = Matrix::new(
        2,
        2,
        vec![
            Complex::new(1.0, 0.0),
            Complex::new(0.0, 0.0),
            Complex::new(0.0, 0.0),
            Complex::new(-1.0, 0.0),
        ],
    );
    assert_eq!(z.matrix(), expected);
}

#[test]
fn test_hadamard_gate() {
    let h = QuantumGate::H;
    let factor = Complex::new(1.0 / 2.0_f64.sqrt(), 0.0);
    let expected = Matrix::new(2, 2, vec![factor, factor, factor, -factor]);
    assert_eq!(h.matrix(), expected);
}

#[test]
fn test_s_gate() {
    let s = QuantumGate::S;
    let expected = Matrix::new(
        2,
        2,
        vec![
            Complex::new(1.0, 0.0),
            Complex::new(0.0, 0.0),
            Complex::new(0.0, 0.0),
            Complex::new(0.0, 1.0),
        ],
    );
    assert_eq!(s.matrix(), expected);
}

#[test]
fn test_t_gate() {
    let t = QuantumGate::T;
    let phase = Complex::new(0.0, std::f64::consts::PI / 4.0).exp();
    let expected = Matrix::new(
        2,
        2,
        vec![
            Complex::new(1.0, 0.0),
            Complex::new(0.0, 0.0),
            Complex::new(0.0, 0.0),
            phase,
        ],
    );
    assert_eq!(t.matrix(), expected);
}

#[test]
fn rotation_matrices_at_angle_zero_are_identity() {
    let identity = Matrix::new(
        2,
        2,
        vec![
            Complex::new(1.0, 0.0),
            Complex::new(0.0, 0.0),
            Complex::new(0.0, 0.0),
            Complex::new(1.0, 0.0),
        ],
    );
    let zero = Complex::new(0.0, 0.0);
    for gate in [
        QuantumGate::Rx(zero),
        QuantumGate::Ry(zero),
        QuantumGate::Rz(zero),
    ] {
        let m = gate.matrix();
        for r in 0..2 {
            for c in 0..2 {
                let got = *m.get(r, c);
                let want = *identity.get(r, c);
                assert!((got.real - want.real).abs() < 1e-12);
                assert!((got.imag - want.imag).abs() < 1e-12);
            }
        }
    }
}

#[test]
fn rx_matrix_matches_closed_form() {
    let theta = 1.3_f64;
    let m = QuantumGate::Rx(Complex::new(theta, 0.0)).matrix();
    let cos = (theta / 2.0).cos();
    let sin = (theta / 2.0).sin();
    assert!((m.get(0, 0).real - cos).abs() < 1e-12);
    assert!(m.get(0, 0).imag.abs() < 1e-12);
    assert!((m.get(0, 1).imag + sin).abs() < 1e-12);
    assert!(m.get(0, 1).real.abs() < 1e-12);
    assert!((m.get(1, 0).imag + sin).abs() < 1e-12);
    assert!((m.get(1, 1).real - cos).abs() < 1e-12);
}

#[test]
fn cnot_matrix_is_the_permutation() {
    let m = QuantumGate::CNOT.matrix();
    assert_eq!(m.rows(), 4);
    assert_eq!(m.cols(), 4);
    let one = Complex::new(1.0, 0.0);
    let zero = Complex::new(0.0, 0.0);
    let expected_rows = [0usize, 1, 3, 2];
    for r in 0..4 {
        for c in 0..4 {
            let want = if c == expected_rows[r] { one } else { zero };
            assert_eq!(*m.get(r, c), want);
        }
    }
}

#[test]
fn custom_gate_matrix_is_returned_verbatim() {
    let m = Matrix::new(
        2,
        2,
        vec![
            Complex::new(0.25, 0.5),
            Complex::new(-1.0, 0.0),
            Complex::new(0.0, 2.0),
            Complex::new(3.0, -4.0),
        ],
    );
    let g = QuantumGate::Custom(m.clone(), "MyGate".to_string(), "G".to_string());
    assert_eq!(g.matrix(), m);
    assert_eq!(g.name(), "MyGate");
    assert_eq!(g.symbol(), "G");
    assert_eq!(g.display_symbol(), "─G─");
}

#[test]
fn gate_arity_is_two_only_for_cnot() {
    assert_eq!(QuantumGate::CNOT.arity(), 2);
    assert_eq!(QuantumGate::X.arity(), 1);
    assert_eq!(QuantumGate::H.arity(), 1);
    assert_eq!(QuantumGate::Measure.arity(), 1);
    assert_eq!(QuantumGate::Rz(Complex::new(0.5, 0.0)).arity(), 1);
}

#[test]
fn gate_names_and_symbols() {
    assert_eq!(QuantumGate::X.name(), "Pauli-X");
    assert_eq!(QuantumGate::H.name(), "Hadamard");
    assert_eq!(QuantumGate::CNOT.name(), "CNOT");
    assert_eq!(QuantumGate::Measure.name(), "Measurement");
    assert_eq!(QuantumGate::CNOT.symbol(), "CX");
    assert_eq!(QuantumGate::Measure.symbol(), "M");
    assert_eq!(QuantumGate::T.display_symbol(), "─T─");
    assert_eq!(QuantumGate::Measure.display_symbol(), "─[M]─");
    let rx = QuantumGate::Rx(Complex::new(1.5, 0.0));
    assert_eq!(rx.name(), "Rx(1.5)");
    assert_eq!(rx.symbol(), "Rx(1.5)");
    assert_eq!(rx.display_symbol(), "─Rx(1.50)─");
}

#[test]
fn gate_op_binds_target_and_controls() {
    let single = GateOp::new(QuantumGate::H, 3, 1);
    assert_eq!(single.target(), 3);
    assert_eq!(single.step, 1);
    assert_eq!(single.classical_bit, None);

    let controlled = GateOp::controlled(QuantumGate::CNOT, 0, 2, 4);
    assert_eq!(controlled.target(), 2);
    assert_eq!(controlled.controls(), vec![0]);
    assert_eq!(controlled.step, 4);
}
