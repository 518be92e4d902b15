//! The failure taxonomy of the library.
//!
//! Every failure is a usage error discovered synchronously at the call that
//! violates a contract; none is retried internally and none is swallowed.

use vstd::prelude::*;

verus! {

/// A distinguishable failure surfaced to the caller.
#[derive(Clone, Copy, Debug, PartialEq, Eq, Structural)]
pub enum QuantumError {
    /// A qubit or classical-bit index lies outside the declared register
    /// size; the append that referenced it is aborted.
    IndexOutOfRange,
    /// The sampler was invoked with no circuit attached.
    EmptyCircuit,
    /// A custom gate carried a matrix whose dimensions the engine cannot
    /// apply, or left the state with no usable measurement weights.
    MalformedCustomGate,
}

} // verus!
