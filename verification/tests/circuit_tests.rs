use intrico::QuantumCircuit;
use intrico::QuantumError;
use intrico::QuantumGate;
use rusticle::complex::Complex;
use rusticle::linalg::Matrix;

fn norm_sum(state: &[Complex]) -> f64 {
    state.iter().map(|a| a.norm_squared()).sum()
}

#[test]
fn bell_circuit_amplitudes() {
    let mut qc = QuantumCircuit::new(2);
    qc.h(0).unwrap();
    qc.cnot(0, 1).unwrap();
    let state = qc.execute().unwrap();
    let c = Complex::new(0.70710678, 0.0);
    let zero = Complex::new(0.0, 0.0);
    assert_eq!(state, vec![c, zero, zero, c]);
}

#[test]
fn rx_zero_angle_is_identity() {
    let mut qc = QuantumCircuit::new(1);
    qc.rx(0, Complex::new(0.0, 0.0)).unwrap();
    let state = qc.execute().unwrap();
    assert_eq!(state, vec![Complex::new(1.0, 0.0), Complex::new(0.0, 0.0)]);
}

#[test]
fn self_inverse_pairs_return_to_the_all_zero_state() {
    let one = Complex::new(1.0, 0.0);
    let zero = Complex::new(0.0, 0.0);

    let mut xx = QuantumCircuit::new(1);
    xx.x(0).unwrap();
    xx.x(0).unwrap();
    assert_eq!(xx.execute().unwrap(), vec![one, zero]);

    let mut hh = QuantumCircuit::new(1);
    hh.h(0).unwrap();
    hh.h(0).unwrap();
    assert_eq!(hh.execute().unwrap(), vec![one, zero]);

    let mut zz = QuantumCircuit::new(1);
    zz.z(0).unwrap();
    zz.z(0).unwrap();
    assert_eq!(zz.execute().unwrap(), vec![one, zero]);

    let mut ssss = QuantumCircuit::new(1);
    for _ in 0..4 {
        ssss.s(0).unwrap();
    }
    assert_eq!(ssss.execute().unwrap(), vec![one, zero]);

    let mut cc = QuantumCircuit::new(2);
    cc.h(0).unwrap();
    cc.cnot(0, 1).unwrap();
    cc.cnot(0, 1).unwrap();
    cc.h(0).unwrap();
    assert_eq!(cc.execute().unwrap(), vec![one, zero, zero, zero]);
}

#[test]
fn unrounded_engine_state_keeps_unit_norm() {
    let qc = QuantumCircuit::new(2);
    let mut state = vec![
        Complex::new(1.0, 0.0),
        Complex::new(0.0, 0.0),
        Complex::new(0.0, 0.0),
        Complex::new(0.0, 0.0),
    ];
    qc.apply_single_qubit_gate(&mut state, &QuantumGate::H, 0);
    assert!((norm_sum(&state) - 1.0).abs() < 1e-9);
    qc.apply_cnot(&mut state, 0, 1);
    assert!((norm_sum(&state) - 1.0).abs() < 1e-9);
    qc.apply_single_qubit_gate(&mut state, &QuantumGate::T, 1);
    assert!((norm_sum(&state) - 1.0).abs() < 1e-9);
    qc.apply_single_qubit_gate(&mut state, &QuantumGate::Ry(Complex::new(0.7, 0.0)), 0);
    assert!((norm_sum(&state) - 1.0).abs() < 1e-9);
    qc.apply_single_qubit_gate(&mut state, &QuantumGate::S, 1);
    assert!((norm_sum(&state) - 1.0).abs() < 1e-9);
}

#[test]
fn executed_state_keeps_unit_norm() {
    let mut qc = QuantumCircuit::new(2);
    qc.x(0).unwrap();
    qc.cnot(0, 1).unwrap();
    qc.z(1).unwrap();
    qc.h(0).unwrap();
    qc.h(0).unwrap();
    let state = qc.execute().unwrap();
    assert!((norm_sum(&state) - 1.0).abs() < 1e-9);

    // Rounded superposition amplitudes drift from unit norm by a few 1e-9.
    let mut bell = QuantumCircuit::new(2);
    bell.h(0).unwrap();
    bell.cnot(0, 1).unwrap();
    let rounded = bell.execute().unwrap();
    assert!((norm_sum(&rounded) - 1.0).abs() < 1e-7);
}

#[test]
fn out_of_range_appends_fail_and_leave_the_circuit_unchanged() {
    let mut qc = QuantumCircuit::new(2);
    assert_eq!(qc.x(2), Err(QuantumError::IndexOutOfRange));
    assert_eq!(qc.num_operations(), 0);
    assert_eq!(qc.h(7), Err(QuantumError::IndexOutOfRange));
    assert_eq!(qc.cnot(0, 2), Err(QuantumError::IndexOutOfRange));
    assert_eq!(qc.cnot(5, 1), Err(QuantumError::IndexOutOfRange));
    assert_eq!(qc.measure(2, 0), Err(QuantumError::IndexOutOfRange));
    assert_eq!(qc.num_operations(), 0);

    qc.h(0).unwrap();
    assert_eq!(qc.num_operations(), 1);
    assert_eq!(qc.rx(9, Complex::new(0.1, 0.0)), Err(QuantumError::IndexOutOfRange));
    assert_eq!(qc.num_operations(), 1);
}

#[test]
fn step_counters_advance_per_qubit_with_cnot_joining() {
    let mut qc = QuantumCircuit::new(3);
    qc.h(0).unwrap();
    qc.h(0).unwrap();
    qc.x(2).unwrap();
    qc.cnot(0, 1).unwrap();
    qc.h(1).unwrap();
    assert_eq!(qc.num_operations(), 5);
    assert_eq!(qc.get_operation(0).unwrap().step, 1);
    assert_eq!(qc.get_operation(1).unwrap().step, 2);
    assert_eq!(qc.get_operation(2).unwrap().step, 1);
    // the CNOT takes max(step q0, step q1) + 1 = 3 for both qubits
    assert_eq!(qc.get_operation(3).unwrap().step, 3);
    assert_eq!(qc.get_operation(4).unwrap().step, 4);
    assert!(qc.get_operation(5).is_none());
}

#[test]
fn measure_records_the_classical_bit_and_leaves_the_state_alone() {
    let mut qc = QuantumCircuit::new(2);
    qc.h(0).unwrap();
    qc.measure(0, 3).unwrap();
    assert_eq!(qc.num_operations(), 2);
    let op = qc.get_operation(1).unwrap();
    assert_eq!(op.classical_bit, Some(3));
    assert_eq!(op.target(), 0);

    let mut plain = QuantumCircuit::new(2);
    plain.h(0).unwrap();
    assert_eq!(qc.execute().unwrap(), plain.execute().unwrap());
}

#[test]
fn well_formed_custom_gate_is_applied() {
    let x_matrix = Matrix::new(
        2,
        2,
        vec![
            Complex::new(0.0, 0.0),
            Complex::new(1.0, 0.0),
            Complex::new(1.0, 0.0),
            Complex::new(0.0, 0.0),
        ],
    );
    let mut qc = QuantumCircuit::new(1);
    qc.add_gate(
        QuantumGate::Custom(x_matrix, "NOT".to_string(), "N".to_string()),
        0,
    )
    .unwrap();
    let state = qc.execute().unwrap();
    assert_eq!(state, vec![Complex::new(0.0, 0.0), Complex::new(1.0, 0.0)]);
}

#[test]
fn malformed_custom_gate_fails_execution() {
    let bad = Matrix::new(3, 3, vec![Complex::new(0.0, 0.0); 9]);
    let mut qc = QuantumCircuit::new(1);
    qc.add_gate(QuantumGate::Custom(bad, "Bad".to_string(), "B".to_string()), 0)
        .unwrap();
    assert_eq!(qc.num_operations(), 1);
    assert_eq!(qc.execute(), Err(QuantumError::MalformedCustomGate));
}

#[test]
fn general_two_qubit_pass_applies_the_four_by_four_matrix() {
    let qc = QuantumCircuit::new(2);
    let a = Complex::new(0.1, 0.2);
    let b = Complex::new(0.3, -0.1);
    let c = Complex::new(-0.4, 0.0);
    let d = Complex::new(0.2, 0.5);
    let mut state = vec![a, b, c, d];
    // The CNOT matrix swaps the last two basis vectors of the group, so in
    // bit order over (low, high) the third and fourth amplitudes exchange.
    qc.apply_two_qubit_gate(&mut state, &QuantumGate::CNOT, 0, 1);
    assert_eq!(state, vec![a, b, d, c]);
}

#[test]
fn single_qubit_pass_combines_pairs() {
    let qc = QuantumCircuit::new(1);
    let a = Complex::new(0.6, 0.0);
    let b = Complex::new(0.0, 0.8);
    let mut state = vec![a, b];
    qc.apply_single_qubit_gate(&mut state, &QuantumGate::X, 0);
    assert_eq!(state, vec![b, a]);
}

#[test]
fn cnot_pass_swaps_exactly_the_control_set_pairs() {
    let qc = QuantumCircuit::new(2);
    let a = Complex::new(0.1, 0.0);
    let b = Complex::new(0.2, 0.0);
    let c = Complex::new(0.3, 0.0);
    let d = Complex::new(0.4, 0.0);
    let mut state = vec![a, b, c, d];
    // control = qubit 0 (bit 0), target = qubit 1: indices 1 and 3 swap
    qc.apply_cnot(&mut state, 0, 1);
    assert_eq!(state, vec![a, d, c, b]);
}

#[test]
fn empty_circuit_executes_to_the_basis_state() {
    let qc = QuantumCircuit::new(2);
    assert_eq!(qc.num_qubits(), 2);
    assert_eq!(qc.num_operations(), 0);
    let one = Complex::new(1.0, 0.0);
    let zero = Complex::new(0.0, 0.0);
    assert_eq!(qc.execute().unwrap(), vec![one, zero, zero, zero]);
}
