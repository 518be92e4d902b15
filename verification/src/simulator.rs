//! The measurement sampler: a builder-style simulator that executes an
//! attached circuit and turns the final amplitude vector into
//! probability-weighted bitstring counts.
//!
//! Drawing a basis index is the one step left to `rand`; everything around
//! it — executing the circuit, tallying the draws, formatting the keys —
//! is verified, and the counts provably sum to the requested shot count.

use vstd::prelude::*;
use vstd::string::*;
use rusticle::complex::Complex;
use crate::circuit::QuantumCircuit;
use crate::circuit::cleanup_spec;
use crate::circuit::customs_applicable;
use crate::circuit::init_state;
use crate::circuit::run_ops;
use crate::error::QuantumError;
use crate::num::sample_basis_index;
use crate::num::weights_admitted;

verus! {

/// The available simulation backends.
#[derive(Clone, Copy, Debug, PartialEq, Eq, Structural)]
pub enum Backend {
    /// Exact statevector simulation.
    StateVector,
}

impl Default for Backend {
    /// The statevector backend is the default.
    fn default() -> (r: Backend)
        ensures
            r == Backend::StateVector,
    {
        Backend::StateVector
    }
}

/// The zero-padded binary text of a basis index over `width` bits, most
/// significant bit first: character `p` is bit `width - 1 - p` of the
/// index.
pub open spec fn bitstring_spec(index: usize, width: usize) -> Seq<char> {
    Seq::new(
        width as nat,
        |p: int|
            if (index >> ((width - 1 - p) as usize)) & 1 == 1 {
                '1'
            } else {
                '0'
            },
    )
}

/// Formats a basis index as a zero-padded binary string of the given
/// width, most significant bit first.
pub fn bitstring(index: usize, width: usize) -> (r: String)
    requires
        width <= usize::BITS,
    ensures
        r@ == bitstring_spec(index, width),
{
    let mut s = String::new();
    let mut p: usize = 0;
    while p < width
        invariant
            p <= width,
            width <= usize::BITS,
            s@.len() == p,
            forall|q: int| 0 <= q < p ==> s@[q] == bitstring_spec(index, width)[q],
        decreases width - p,
    {
        let shift = width - 1 - p;
        let bit = (index >> shift) & 1;
        if bit == 1 {
            s.append("1");
        } else {
            s.append("0");
        }
        proof {
            reveal_strlit("1");
            reveal_strlit("0");
        }
        p = p + 1;
    }
    proof {
        assert(s@ =~= bitstring_spec(index, width));
    }
    s
}

/// The total of the per-bitstring counts.
pub open spec fn sum_counts(s: Seq<(String, usize)>) -> int
    decreases s.len(),
{
    if s.len() == 0 {
        0
    } else {
        sum_counts(s.drop_last()) + s.last().1
    }
}

/// The total of a tally of draws per basis index.
pub open spec fn sum_tally(t: Seq<usize>) -> int
    decreases t.len(),
{
    if t.len() == 0 {
        0
    } else {
        sum_tally(t.drop_last()) + t.last()
    }
}

/// Law: replacing one entry of a tally changes the total by the
/// difference.
proof fn lemma_sum_tally_update(t: Seq<usize>, i: int, v: usize)
    requires
        0 <= i < t.len(),
    ensures
        sum_tally(t.update(i, v)) == sum_tally(t) - t[i] + v,
    decreases t.len(),
{
    if i == t.len() - 1 {
        assert(t.update(i, v).drop_last() =~= t.drop_last());
    } else {
        assert(t.update(i, v).drop_last() =~= t.drop_last().update(i, v));
        lemma_sum_tally_update(t.drop_last(), i, v);
    }
}


/// The bit facts behind peeling one low bit off an index.
proof fn lemma_bit_split(x: usize, y: usize, w: usize)
    requires
        0 < w < usize::BITS,
        x < (1usize << w),
        y < (1usize << w),
        forall|b: usize| b < w ==> #[trigger] ((x >> b) & 1) == ((y >> b) & 1),
    ensures
        (x >> 1usize) < (1usize << ((w - 1) as usize)),
        (y >> 1usize) < (1usize << ((w - 1) as usize)),
        forall|b: usize|
            b < w - 1 ==> #[trigger] (((x >> 1usize) >> b) & 1) == (((y >> 1usize) >> b) & 1),
        (x >> 1usize) == (y >> 1usize) ==> x == y,
{
    assert forall|b: usize| b < w - 1 implies #[trigger] (((x >> 1usize) >> b) & 1) == (((y
        >> 1usize) >> b) & 1) by {
        assert((x >> 1usize) >> b == x >> ((b + 1) as usize)) by (bit_vector)
            requires
                b < 64,
        ;
        assert((y >> 1usize) >> b == y >> ((b + 1) as usize)) by (bit_vector)
            requires
                b < 64,
        ;
        assert(((b + 1) as usize) < w);
        assert(((x >> ((b + 1) as usize)) & 1) == ((y >> ((b + 1) as usize)) & 1));
    }
    assert(x < (1usize << w) ==> (x >> 1usize) < (1usize << ((w - 1) as usize))) by (bit_vector)
        requires
            0 < w < 64,
    ;
    assert(y < (1usize << w) ==> (y >> 1usize) < (1usize << ((w - 1) as usize))) by (bit_vector)
        requires
            0 < w < 64,
    ;
    assert(((x >> 1usize) == (y >> 1usize) && (x & 1) == (y & 1)) ==> x == y) by (bit_vector);
    assert(((x >> 0usize) & 1) == ((y >> 0usize) & 1));
    assert((x >> 0usize) == x && (y >> 0usize) == y) by (bit_vector);
}

/// Law: indices with the same low `w` bits are equal, when both lie below
/// `2^w`.
proof fn lemma_low_bits_determine(x: usize, y: usize, w: usize)
    requires
        w < usize::BITS,
        x < (1usize << w),
        y < (1usize << w),
        forall|b: usize| b < w ==> #[trigger] ((x >> b) & 1) == ((y >> b) & 1),
    ensures
        x == y,
    decreases w,
{
    if w == 0 {
        assert(x == y) by (bit_vector)
            requires
                x < (1usize << 0usize) && y < (1usize << 0usize),
        ;
    } else {
        lemma_bit_split(x, y, w);
        lemma_low_bits_determine((x >> 1usize), (y >> 1usize), (w - 1) as usize);
    }
}

/// Law: over indices below `2^width`, the zero-padded bitstring determines
/// the index — two distinct basis indices never share a histogram key.
pub proof fn lemma_bitstring_injective(i: usize, j: usize, width: usize)
    requires
        width < usize::BITS,
        i < (1usize << width),
        j < (1usize << width),
        bitstring_spec(i, width) == bitstring_spec(j, width),
    ensures
        i == j,
{
    assert forall|b: usize| b < width implies #[trigger] ((i >> b) & 1) == ((j >> b) & 1) by {
        let p: int = width - 1 - b;
        assert(0 <= p < width);
        assert(((width - 1 - p) as usize) == b);
        let ci = bitstring_spec(i, width)[p];
        let cj = bitstring_spec(j, width)[p];
        assert(ci == (if (i >> b) & 1 == 1 { '1' } else { '0' }));
        assert(cj == (if (j >> b) & 1 == 1 { '1' } else { '0' }));
        assert((i >> b) & 1 == 0 || (i >> b) & 1 == 1) by (bit_vector);
        assert((j >> b) & 1 == 0 || (j >> b) & 1 == 1) by (bit_vector);
    }
    lemma_low_bits_determine(i, j, width);
}

/// The outcome of a simulation run.
#[derive(Debug)]
pub struct SimulationResult {
    /// The number of shots executed.
    pub shots: usize,
    /// The final state of the register after execution.
    pub final_state: Vec<Complex>,
    /// The measurement counts: each observed zero-padded bitstring with
    /// the number of shots that sampled it, ordered by basis index.
    pub counts: Vec<(String, usize)>,
}

/// A builder-style circuit simulator: an optional name, a backend
/// selector, and an attached circuit.
#[derive(Debug)]
pub struct Simulator {
    /// The name of the simulator.
    pub name: String,
    /// The simulation backend to use.
    pub backend: Backend,
    /// The attached quantum circuit, if any.
    pub circuit: Option<QuantumCircuit>,
}

impl Default for Simulator {
    /// A simulator with the default name and backend and no circuit.
    fn default() -> (r: Simulator)
        ensures
            r.name@ == "Simulator"@,
            r.backend == Backend::StateVector,
            r.circuit is None,
    {
        Simulator {
            name: String::from_str("Simulator"),
            backend: Backend::StateVector,
            circuit: None,
        }
    }
}

impl Simulator {
    /// Creates a new simulator with the default backend and no circuit.
    pub fn new() -> (r: Simulator)
        ensures
            r.name@ == "Simulator"@,
            r.backend == Backend::StateVector,
            r.circuit is None,
    {
        Simulator::default()
    }

    /// Creates a new simulator with the given backend.
    pub fn with_backend(backend: Backend) -> (r: Simulator)
        ensures
            r.name@ == "Simulator"@,
            r.backend == backend,
            r.circuit is None,
    {
        Simulator { name: String::from_str("Simulator"), backend, circuit: None }
    }

    /// Sets the name of the simulator.
    pub fn set_name(&mut self, name: String)
        ensures
            final(self).name == name,
            final(self).backend == old(self).backend,
            final(self).circuit == old(self).circuit,
    {
        self.name = name;
    }

    /// Returns the simulator with its name replaced.
    pub fn with_name(self, name: String) -> (r: Simulator)
        ensures
            r.name == name,
            r.backend == self.backend,
            r.circuit == self.circuit,
    {
        Simulator { name, ..self }
    }

    /// Attaches a circuit to the simulator.
    pub fn set_circuit(&mut self, circuit: QuantumCircuit)
        ensures
            final(self).circuit == Some(circuit),
            final(self).name == old(self).name,
            final(self).backend == old(self).backend,
    {
        self.circuit = Some(circuit);
    }

    /// Returns the simulator with the given circuit attached.
    pub fn with_circuit(self, circuit: QuantumCircuit) -> (r: Simulator)
        ensures
            r.circuit == Some(circuit),
            r.name == self.name,
            r.backend == self.backend,
    {
        Simulator { circuit: Some(circuit), ..self }
    }

    /// Runs the attached circuit for the given number of shots: executes
    /// it once, then draws that many samples from the squared-magnitude
    /// distribution over basis states and tallies them per bitstring.
    ///
    /// Fails with `EmptyCircuit` exactly when no circuit is attached, and
    /// with `MalformedCustomGate` when the circuit carries a custom gate
    /// the engine cannot apply or leaves the state with no usable
    /// measurement weights. Success is owed exactly when a circuit is
    /// attached, its custom gates are applicable, and — for a positive
    /// shot count — the sampler admits the final state's weights. On
    /// success the counts sum exactly to the shot count, every count is
    /// positive, and every key is the bitstring of a basis index of the
    /// register.
    pub fn run(&self, shots: usize) -> (r: Result<SimulationResult, QuantumError>)
        requires
            match self.circuit {
                Some(c) => c.wf() && c.spec_num_qubits() < usize::BITS,
                None => true,
            },
        ensures
            self.circuit is None <==> r == Err::<SimulationResult, QuantumError>(
                QuantumError::EmptyCircuit,
            ),
            r is Err ==> (r == Err::<SimulationResult, QuantumError>(QuantumError::EmptyCircuit)
                || r == Err::<SimulationResult, QuantumError>(QuantumError::MalformedCustomGate)),
            (self.circuit matches Some(c) && !customs_applicable(c.spec_ops())) ==> r
                == Err::<SimulationResult, QuantumError>(QuantumError::MalformedCustomGate),
            r is Ok <==> (self.circuit matches Some(c) && customs_applicable(c.spec_ops()) && (
            shots == 0 || weights_admitted(
                cleanup_spec(run_ops(init_state(c.spec_num_qubits()), c.spec_ops())),
            ))),
            r matches Ok(res) ==> {
                let c = self.circuit.unwrap();
                &&& customs_applicable(c.spec_ops())
                &&& res.shots == shots
                &&& res.final_state@ == cleanup_spec(
                    run_ops(init_state(c.spec_num_qubits()), c.spec_ops()),
                )
                &&& res.final_state@.len() == 1usize << c.spec_num_qubits()
                &&& sum_counts(res.counts@) == shots
                &&& (forall|k: int|
                    0 <= k < res.counts@.len() ==> (#[trigger] res.counts@[k]).1 >= 1)
                &&& (forall|k: int|
                    0 <= k < res.counts@.len() ==> exists|i: usize|
                        i < (1usize << c.spec_num_qubits()) && (#[trigger] res.counts@[k]).0@
                            == bitstring_spec(i, c.spec_num_qubits()))
                &&& (forall|k1: int, k2: int|
                    0 <= k1 < k2 < res.counts@.len() ==> (#[trigger] res.counts@[k1]).0@ != (
                    #[trigger] res.counts@[k2]).0@)
            },
    {
        let circuit = match &self.circuit {
            Some(c) => c,
            None => {
                return Err(QuantumError::EmptyCircuit);
            },
        };
        let final_state = match circuit.execute() {
            Ok(v) => v,
            Err(_) => {
                return Err(QuantumError::MalformedCustomGate);
            },
        };
        let num_qubits = circuit.num_qubits();
        let dim = final_state.len();
        let mut tally: Vec<usize> = vec![0; dim];
        proof {
            assert(tally@ =~= Seq::new(dim as nat, |i: int| 0usize));
            lemma_sum_tally_zero(tally@);
        }
        let mut s: usize = 0;
        while s < shots
            invariant
                self.circuit == Some(*circuit),
                customs_applicable(circuit.spec_ops()),
                final_state@ == cleanup_spec(
                    run_ops(init_state(circuit.spec_num_qubits()), circuit.spec_ops()),
                ),
                s <= shots,
                tally@.len() == dim,
                dim == final_state@.len(),
                sum_tally(tally@) == s,
                s > 0 ==> weights_admitted(final_state@),
                forall|j: int| 0 <= j < dim ==> (#[trigger] tally@[j]) <= s,
            decreases shots - s,
        {
            let idx = match sample_basis_index(&final_state) {
                Some(i) => i,
                None => {
                    return Err(QuantumError::MalformedCustomGate);
                },
            };
            let cur = tally[idx];
            proof {
                lemma_sum_tally_update(tally@, idx as int, (cur + 1) as usize);
            }
            tally[idx] = cur + 1;
            s = s + 1;
        }
        let mut counts: Vec<(String, usize)> = Vec::new();
        let ghost mut key_idx: Seq<usize> = Seq::empty();
        let mut i: usize = 0;
        while i < dim
            invariant
                self.circuit == Some(*circuit),
                customs_applicable(circuit.spec_ops()),
                final_state@ == cleanup_spec(
                    run_ops(init_state(circuit.spec_num_qubits()), circuit.spec_ops()),
                ),
                sum_tally(tally@) == shots,
                i <= dim,
                tally@.len() == dim,
                dim == final_state@.len(),
                dim == 1usize << circuit.spec_num_qubits(),
                num_qubits == circuit.spec_num_qubits(),
                num_qubits < usize::BITS,
                sum_counts(counts@) == sum_tally(tally@.take(i as int)),
                forall|k: int| 0 <= k < counts@.len() ==> (#[trigger] counts@[k]).1 >= 1,
                key_idx.len() == counts@.len(),
                forall|k: int|
                    0 <= k < counts@.len() ==> (#[trigger] key_idx[k]) < i && counts@[k].0@
                        == bitstring_spec(key_idx[k], num_qubits),
                forall|k1: int, k2: int|
                    0 <= k1 < k2 < key_idx.len() ==> key_idx[k1] < key_idx[k2],
            decreases dim - i,
        {
            let c = tally[i];
            proof {
                assert(tally@.take(i + 1).drop_last() =~= tally@.take(i as int));
            }
            if c > 0 {
                let key = bitstring(i, num_qubits);
                let ghost prev = counts@;
                counts.push((key, c));
                proof {
                    key_idx = key_idx.push(i);
                    assert(counts@.drop_last() =~= prev);
                    assert(counts@[counts@.len() - 1].0@ == bitstring_spec(i, num_qubits));
                }
            }
            i = i + 1;
        }
        proof {
            assert(tally@.take(dim as int) =~= tally@);
            assert forall|k: int| 0 <= k < counts@.len() implies exists|b: usize|
                b < dim && (#[trigger] counts@[k]).0@ == bitstring_spec(b, num_qubits) by {
                assert(key_idx[k] < dim && counts@[k].0@ == bitstring_spec(key_idx[k], num_qubits));
            }
            assert forall|k1: int, k2: int| 0 <= k1 < k2 < counts@.len() implies (
            #[trigger] counts@[k1]).0@ != (#[trigger] counts@[k2]).0@ by {
                if counts@[k1].0@ == counts@[k2].0@ {
                    lemma_bitstring_injective(key_idx[k1], key_idx[k2], num_qubits);
                }
            }
        }
        Ok(SimulationResult { shots, final_state, counts })
    }
}

/// Law: a tally of zeroes totals zero.
proof fn lemma_sum_tally_zero(t: Seq<usize>)
    requires
        forall|j: int| 0 <= j < t.len() ==> t[j] == 0usize,
    ensures
        sum_tally(t) == 0,
    decreases t.len(),
{
    if t.len() > 0 {
        lemma_sum_tally_zero(t.drop_last());
    }
}

} // verus!
