//! A classical simulator of small quantum circuits.
//!
//! A circuit is an append-only sequence of gate operations over a fixed-size
//! qubit register. The statevector engine turns a circuit into a vector of
//! `2^n` complex amplitudes by applying each gate's matrix in place, and the
//! measurement sampler turns that vector into probability-weighted bitstring
//! counts.
//!
//! The index and bit structure of the engine — which amplitude pairs a gate
//! touches, how control and target bits select them, how samples become a
//! histogram — is specified and verified here. The floating-point arithmetic
//! itself is carried by `rusticle`'s complex and matrix types behind the
//! trusted layer in [`num`].

pub mod circuit;
pub mod error;
pub mod gate;
pub mod num;
pub mod qubit;
pub mod simulator;

pub use circuit::QuantumCircuit;
pub use error::QuantumError;
pub use gate::GateOp;
pub use gate::QuantumGate;
pub use qubit::Qubit;
pub use simulator::Backend;
pub use simulator::SimulationResult;
pub use simulator::Simulator;
