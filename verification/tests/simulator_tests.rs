use intrico::Backend;
use intrico::QuantumCircuit;
use intrico::QuantumError;
use intrico::Simulator;
use intrico::simulator::bitstring;
use rusticle::complex::Complex;
use rusticle::linalg::Matrix;

#[test]
fn run_without_a_circuit_fails_with_empty_circuit() {
    let sim = Simulator::new();
    let r = sim.run(100);
    assert!(r.is_err());
    assert_eq!(r.err().unwrap(), QuantumError::EmptyCircuit);
}

#[test]
fn bell_histogram_has_only_the_correlated_keys() {
    let mut qc = QuantumCircuit::new(2);
    qc.h(0).unwrap();
    qc.cnot(0, 1).unwrap();
    let sim = Simulator::new().with_circuit(qc);
    let shots = 1000;
    let result = sim.run(shots).unwrap();

    assert_eq!(result.shots, shots);
    assert_eq!(result.final_state.len(), 4);

    let mut total = 0;
    for (key, count) in &result.counts {
        assert!(key == "00" || key == "11", "unexpected key {}", key);
        assert!(*count >= 1);
        total += count;
    }
    assert_eq!(total, shots);

    for (key, count) in &result.counts {
        assert!(
            *count >= 350 && *count <= 650,
            "key {} count {} outside the statistical bound",
            key,
            count
        );
    }
}

#[test]
fn deterministic_circuit_puts_every_shot_on_one_key() {
    let mut qc = QuantumCircuit::new(2);
    qc.x(0).unwrap();
    let sim = Simulator::new().with_circuit(qc);
    let result = sim.run(250).unwrap();
    assert_eq!(result.counts.len(), 1);
    assert_eq!(result.counts[0].0, "01");
    assert_eq!(result.counts[0].1, 250);
}

#[test]
fn zero_shots_give_an_empty_histogram() {
    let mut qc = QuantumCircuit::new(1);
    qc.h(0).unwrap();
    let sim = Simulator::new().with_circuit(qc);
    let result = sim.run(0).unwrap();
    assert_eq!(result.shots, 0);
    assert!(result.counts.is_empty());
    assert_eq!(result.final_state.len(), 2);
}

#[test]
fn run_with_a_malformed_custom_gate_fails() {
    let bad = Matrix::new(1, 3, vec![Complex::new(0.0, 0.0); 3]);
    let mut qc = QuantumCircuit::new(1);
    qc.add_gate(
        intrico::QuantumGate::Custom(bad, "Bad".to_string(), "B".to_string()),
        0,
    )
    .unwrap();
    let sim = Simulator::new().with_circuit(qc);
    assert_eq!(sim.run(10).err().unwrap(), QuantumError::MalformedCustomGate);
}

#[test]
fn simulator_builder_keeps_its_fields() {
    let sim = Simulator::new();
    assert_eq!(sim.name, "Simulator");
    assert_eq!(sim.backend, Backend::StateVector);
    assert!(sim.circuit.is_none());

    let sim = Simulator::with_backend(Backend::StateVector).with_name("bench".to_string());
    assert_eq!(sim.name, "bench");

    let mut sim = Simulator::new();
    sim.set_name("mine".to_string());
    assert_eq!(sim.name, "mine");

    let qc = QuantumCircuit::new(3);
    let mut sim = Simulator::new();
    sim.set_circuit(qc);
    assert!(sim.circuit.is_some());
    assert_eq!(sim.circuit.as_ref().unwrap().num_qubits(), 3);

    assert_eq!(Backend::default(), Backend::StateVector);
}

#[test]
fn bitstrings_are_zero_padded_most_significant_first() {
    assert_eq!(bitstring(5, 4), "0101");
    assert_eq!(bitstring(0, 3), "000");
    assert_eq!(bitstring(7, 3), "111");
    assert_eq!(bitstring(2, 2), "10");
    assert_eq!(bitstring(1, 2), "01");
    assert_eq!(bitstring(0, 0), "");
}

#[test]
fn zero_weight_state_is_rejected_only_when_sampling() {
    // A well-formed 2x2 custom gate that zeroes the state: execution
    // succeeds, but the sampler rejects the all-zero weights.
    let zero_matrix = Matrix::new(2, 2, vec![Complex::new(0.0, 0.0); 4]);
    let mut qc = QuantumCircuit::new(1);
    qc.add_gate(
        intrico::QuantumGate::Custom(zero_matrix, "Zero".to_string(), "0".to_string()),
        0,
    )
    .unwrap();
    assert!(qc.execute().is_ok());

    let sim = Simulator::new().with_circuit(qc);
    assert_eq!(sim.run(10).err().unwrap(), QuantumError::MalformedCustomGate);
    // With no shots requested the sampler is never consulted.
    let empty = sim.run(0).unwrap();
    assert_eq!(empty.shots, 0);
    assert!(empty.counts.is_empty());
}
