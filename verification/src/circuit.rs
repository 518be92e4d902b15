//! The circuit model and the statevector engine.
//!
//! A circuit holds a fixed qubit count and an append-only sequence of gate
//! operations; execution order is insertion order. The per-qubit step
//! counters are layout bookkeeping only and never affect execution. The
//! engine maps a circuit to a final amplitude vector by applying each
//! operation's matrix over index pairs selected by the target bit, without
//! ever building the exponential-size operator; the exact result, over the
//! named complex operations of the trusted layer, is pinned by the spec
//! functions below.

use vstd::prelude::*;
use vstd::arithmetic::power2::pow2;
use vstd::arithmetic::power2::lemma_pow2_pos;
use vstd::bits::lemma_usize_pow2_no_overflow;
use vstd::bits::lemma_usize_shl_is_mul;
use rusticle::complex::Complex;
use rusticle::linalg::Matrix;
use crate::error::QuantumError;
use crate::gate::GateOp;
use crate::gate::QuantumGate;
use crate::num::cadd;
use crate::num::cmul;
use crate::num::cround;
use crate::num::cval;
use crate::num::ment;
use crate::num::mcols;
use crate::num::mrows;
use crate::num::c_add;
use crate::num::c_lit;
use crate::num::c_mul;
use crate::num::c_round;
use crate::num::matrix_cols;
use crate::num::matrix_get;
use crate::num::matrix_rows;

verus! {

/// The step counter after one more operation touches a qubit: one higher,
/// held at the top of the counter's range.
pub open spec fn step_inc(s: usize) -> usize {
    if s == usize::MAX {
        s
    } else {
        (s + 1) as usize
    }
}

/// One row of a 2-by-2 matrix applied to an amplitude pair, as the engine
/// computes it: a zero seed, then amplitude-times-entry accumulation.
pub open spec fn amp2(g: QuantumGate, row: int, a: Complex, b: Complex) -> Complex {
    cadd(cadd(cval("0"@), cmul(a, g.mat_entry(row, 0))), cmul(b, g.mat_entry(row, 1)))
}

/// The state after a single-qubit gate on qubit `t`: every index pair that
/// differs exactly in bit `t` is combined by its 2-by-2 matrix.
pub open spec fn apply1_spec(g: QuantumGate, s: Seq<Complex>, t: usize) -> Seq<Complex> {
    Seq::new(
        s.len(),
        |k: int|
            {
                let mask = 1usize << t;
                let ku = k as usize;
                if ku & mask == 0 {
                    amp2(g, 0, s[k], s[(ku | mask) as int])
                } else {
                    amp2(g, 1, s[(ku & !mask) as int], s[k])
                }
            },
    )
}

/// The state after a CNOT with the given control and target qubits:
/// wherever the control bit of an index or of its target-flipped partner is
/// set, the amplitude comes from the partner. With distinct qubits this
/// swaps the pair exactly when the control bit is set.
pub open spec fn cnot_spec(s: Seq<Complex>, control: usize, target: usize) -> Seq<Complex> {
    Seq::new(
        s.len(),
        |k: int|
            {
                let cm = 1usize << control;
                let tm = 1usize << target;
                let ku = k as usize;
                if ku & cm != 0 || (ku ^ tm) & cm != 0 {
                    s[(ku ^ tm) as int]
                } else {
                    s[k]
                }
            },
    )
}

/// One row of a 4-by-4 matrix applied to a group of four amplitudes, as the
/// engine computes it: a zero seed, then entry-times-amplitude
/// accumulation.
pub open spec fn amp4(
    g: QuantumGate,
    row: int,
    a0: Complex,
    a1: Complex,
    a2: Complex,
    a3: Complex,
) -> Complex {
    cadd(
        cadd(
            cadd(
                cadd(cval("0"@), cmul(g.mat_entry(row, 0), a0)),
                cmul(g.mat_entry(row, 1), a1),
            ),
            cmul(g.mat_entry(row, 2), a2),
        ),
        cmul(g.mat_entry(row, 3), a3),
    )
}

/// The state after a general two-qubit gate: the indices are partitioned
/// into groups of four sharing all bits except the two qubit positions, and
/// each group is combined by its 4-by-4 matrix, in bit order
/// relative to the lower and higher qubit position.
pub open spec fn apply2_spec(
    g: QuantumGate,
    s: Seq<Complex>,
    control: usize,
    target: usize,
) -> Seq<Complex> {
    Seq::new(
        s.len(),
        |k: int|
            {
                let low = if control < target {
                    control
                } else {
                    target
                };
                let high = if control < target {
                    target
                } else {
                    control
                };
                let ml = 1usize << low;
                let mh = 1usize << high;
                let ku = k as usize;
                let base = ku & !ml & !mh;
                let row = (if ku & ml != 0 {
                    1int
                } else {
                    0int
                }) + (if ku & mh != 0 {
                    2int
                } else {
                    0int
                });
                amp4(
                    g,
                    row,
                    s[base as int],
                    s[(base | ml) as int],
                    s[(base | mh) as int],
                    s[(base | ml | mh) as int],
                )
            },
    )
}

/// The state after one operation: a measurement leaves the state as it is,
/// a CNOT permutes it, and any other gate goes through the single-qubit
/// path.
pub open spec fn op_step_spec(s: Seq<Complex>, op: GateOp) -> Seq<Complex> {
    match op.gate {
        QuantumGate::Measure => s,
        QuantumGate::CNOT => cnot_spec(s, op.qubit@[0], op.spec_target()),
        _ => apply1_spec(op.gate, s, op.spec_target()),
    }
}

/// The state after a sequence of operations, applied in insertion order.
pub open spec fn run_ops(init: Seq<Complex>, ops: Seq<GateOp>) -> Seq<Complex>
    decreases ops.len(),
{
    if ops.len() == 0 {
        init
    } else {
        op_step_spec(run_ops(init, ops.drop_last()), ops.last())
    }
}

/// The all-zero basis state of an `n`-qubit register: amplitude one at
/// index 0, zero everywhere else.
pub open spec fn init_state(nq: usize) -> Seq<Complex> {
    Seq::new(
        (1usize << nq) as nat,
        |k: int|
            if k == 0 {
                cval("1"@)
            } else {
                cval("0"@)
            },
    )
}

/// The numerical cleanup applied after execution: every amplitude rounded
/// to 8 decimal places in both parts.
pub open spec fn cleanup_spec(s: Seq<Complex>) -> Seq<Complex> {
    Seq::new(s.len(), |k: int| cround(s[k]))
}

/// Whether every custom gate among the operations carries the 2-by-2
/// matrix that the single-qubit path of the engine can apply.
pub open spec fn customs_applicable(ops: Seq<GateOp>) -> bool {
    forall|i: int|
        0 <= i < ops.len() ==> ((#[trigger] ops[i]).gate is Custom
            ==> ops[i].gate.is_single_qubit_matrix())
}

/// A quantum circuit: a fixed qubit count and the ordered sequence of gate
/// operations to apply, built incrementally and executed on demand.
#[derive(Debug)]
pub struct QuantumCircuit {
    /// The number of qubits in the circuit.
    num_qubits: usize,
    /// The sequence of gate operations to apply, in execution order.
    operations: Vec<GateOp>,
    /// Classical bits that store measurement results.
    classical_bits: Vec<u8>,
    /// The last layout step of each qubit.
    last_step: Vec<usize>,
}

impl QuantumCircuit {
    /// The declared qubit count.
    pub closed spec fn spec_num_qubits(self) -> usize {
        self.num_qubits
    }

    /// The operations in execution order.
    pub closed spec fn spec_ops(self) -> Seq<GateOp> {
        self.operations@
    }

    /// The classical bits.
    pub closed spec fn spec_classical_bits(self) -> Seq<u8> {
        self.classical_bits@
    }

    /// The per-qubit layout step counters.
    pub closed spec fn spec_steps(self) -> Seq<usize> {
        self.last_step@
    }

    /// A single operation's well-formedness against the register size: it
    /// binds one or two qubit indices, all inside the register.
    pub open spec fn op_wf(op: GateOp, nq: usize) -> bool {
        &&& 1 <= op.qubit@.len() <= 2
        &&& forall|k: int| 0 <= k < op.qubit@.len() ==> (#[trigger] op.qubit@[k]) < nq
    }

    /// The circuit's invariant: one step counter per qubit, and every
    /// appended operation within bounds. Constructors establish it and
    /// every append preserves it.
    pub open spec fn wf(self) -> bool {
        &&& self.spec_steps().len() == self.spec_num_qubits()
        &&& forall|i: int|
            0 <= i < self.spec_ops().len() ==> Self::op_wf(
                #[trigger] self.spec_ops()[i],
                self.spec_num_qubits(),
            )
    }

    /// What appending a single-qubit operation does: out of range, the
    /// error and an unchanged circuit; in range, the qubit's step counter
    /// advances and exactly one operation is appended.
    pub open spec fn appended_single(
        pre: QuantumCircuit,
        post: QuantumCircuit,
        gate: QuantumGate,
        target: usize,
        r: Result<(), QuantumError>,
    ) -> bool {
        &&& (target >= pre.spec_num_qubits() ==> r == Err::<(), QuantumError>(
            QuantumError::IndexOutOfRange,
        ) && post == pre)
        &&& (target < pre.spec_num_qubits() ==> {
            let step = step_inc(pre.spec_steps()[target as int]);
            &&& r == Ok::<(), QuantumError>(())
            &&& post.spec_num_qubits() == pre.spec_num_qubits()
            &&& post.spec_classical_bits() == pre.spec_classical_bits()
            &&& post.spec_steps() == pre.spec_steps().update(target as int, step)
            &&& post.spec_ops().len() == pre.spec_ops().len() + 1
            &&& post.spec_ops().take(pre.spec_ops().len() as int) == pre.spec_ops()
            &&& post.spec_ops().last().gate == gate
            &&& post.spec_ops().last().qubit@ == seq![target]
            &&& post.spec_ops().last().step == step
            &&& post.spec_ops().last().classical_bit is None
        })
    }

    /// What appending a controlled operation does: the step counters of
    /// both qubits move to one past their maximum, and exactly one
    /// two-qubit operation is appended.
    pub open spec fn appended_controlled(
        pre: QuantumCircuit,
        post: QuantumCircuit,
        gate: QuantumGate,
        control: usize,
        target: usize,
        r: Result<(), QuantumError>,
    ) -> bool {
        &&& ((control >= pre.spec_num_qubits() || target >= pre.spec_num_qubits()) ==> r
            == Err::<(), QuantumError>(QuantumError::IndexOutOfRange) && post == pre)
        &&& ((control < pre.spec_num_qubits() && target < pre.spec_num_qubits()) ==> {
            let sc = pre.spec_steps()[control as int];
            let st = pre.spec_steps()[target as int];
            let step = step_inc(
                if sc > st {
                    sc
                } else {
                    st
                },
            );
            &&& r == Ok::<(), QuantumError>(())
            &&& post.spec_num_qubits() == pre.spec_num_qubits()
            &&& post.spec_classical_bits() == pre.spec_classical_bits()
            &&& post.spec_steps() == pre.spec_steps().update(control as int, step).update(
                target as int,
                step,
            )
            &&& post.spec_ops().len() == pre.spec_ops().len() + 1
            &&& post.spec_ops().take(pre.spec_ops().len() as int) == pre.spec_ops()
            &&& post.spec_ops().last().gate == gate
            &&& post.spec_ops().last().qubit@ == seq![control, target]
            &&& post.spec_ops().last().step == step
            &&& post.spec_ops().last().classical_bit is None
        })
    }

    /// Creates an empty circuit over the given number of qubits. Always
    /// succeeds; every step counter starts at zero.
    pub fn new(num_qubits: usize) -> (r: QuantumCircuit)
        ensures
            r.wf(),
            r.spec_num_qubits() == num_qubits,
            r.spec_ops() == Seq::<GateOp>::empty(),
            r.spec_classical_bits() == Seq::<u8>::empty(),
            r.spec_steps() == Seq::new(num_qubits as nat, |i: int| 0usize),
    {
        let last_step: Vec<usize> = vec![0; num_qubits];
        proof {
            assert(last_step@ =~= Seq::new(num_qubits as nat, |i: int| 0usize));
        }
        QuantumCircuit {
            num_qubits,
            operations: Vec::new(),
            classical_bits: Vec::with_capacity(num_qubits),
            last_step,
        }
    }

    /// Appends a gate operation on the given target qubit, advancing that
    /// qubit's step counter; out of range, the circuit is left unchanged.
    pub fn add_gate(&mut self, gate: QuantumGate, target: usize) -> (r: Result<(), QuantumError>)
        requires
            old(self).wf(),
        ensures
            final(self).wf(),
            Self::appended_single(*old(self), *final(self), gate, target, r),
    {
        if target >= self.num_qubits {
            return Err(QuantumError::IndexOutOfRange);
        }
        let cur = self.last_step[target];
        let step = if cur == usize::MAX {
            cur
        } else {
            cur + 1
        };
        self.last_step[target] = step;
        let op = GateOp::new(gate, target, step);
        self.operations.push(op);
        proof {
            assert(self.operations@.take(old(self).spec_ops().len() as int) =~= old(self).spec_ops());
        }
        Ok(())
    }

    /// Applies a Hadamard gate to the given qubit.
    pub fn h(&mut self, target: usize) -> (r: Result<(), QuantumError>)
        requires
            old(self).wf(),
        ensures
            final(self).wf(),
            Self::appended_single(*old(self), *final(self), QuantumGate::H, target, r),
    {
        self.add_gate(QuantumGate::H, target)
    }

    /// Applies a Pauli-X gate to the given qubit.
    pub fn x(&mut self, target: usize) -> (r: Result<(), QuantumError>)
        requires
            old(self).wf(),
        ensures
            final(self).wf(),
            Self::appended_single(*old(self), *final(self), QuantumGate::X, target, r),
    {
        self.add_gate(QuantumGate::X, target)
    }

    /// Applies a Pauli-Y gate to the given qubit.
    pub fn y(&mut self, target: usize) -> (r: Result<(), QuantumError>)
        requires
            old(self).wf(),
        ensures
            final(self).wf(),
            Self::appended_single(*old(self), *final(self), QuantumGate::Y, target, r),
    {
        self.add_gate(QuantumGate::Y, target)
    }

    /// Applies a Pauli-Z gate to the given qubit.
    pub fn z(&mut self, target: usize) -> (r: Result<(), QuantumError>)
        requires
            old(self).wf(),
        ensures
            final(self).wf(),
            Self::appended_single(*old(self), *final(self), QuantumGate::Z, target, r),
    {
        self.add_gate(QuantumGate::Z, target)
    }

    /// Applies an S gate to the given qubit.
    pub fn s(&mut self, target: usize) -> (r: Result<(), QuantumError>)
        requires
            old(self).wf(),
        ensures
            final(self).wf(),
            Self::appended_single(*old(self), *final(self), QuantumGate::S, target, r),
    {
        self.add_gate(QuantumGate::S, target)
    }

    /// Applies a T gate to the given qubit.
    pub fn t(&mut self, target: usize) -> (r: Result<(), QuantumError>)
        requires
            old(self).wf(),
        ensures
            final(self).wf(),
            Self::appended_single(*old(self), *final(self), QuantumGate::T, target, r),
    {
        self.add_gate(QuantumGate::T, target)
    }

    /// Applies a rotation about the X axis by the given angle (in radians,
    /// carried as the real part).
    pub fn rx(&mut self, target: usize, angle: Complex) -> (r: Result<(), QuantumError>)
        requires
            old(self).wf(),
        ensures
            final(self).wf(),
            Self::appended_single(*old(self), *final(self), QuantumGate::Rx(angle), target, r),
    {
        self.add_gate(QuantumGate::Rx(angle), target)
    }

    /// Applies a rotation about the Y axis by the given angle (in radians,
    /// carried as the real part).
    pub fn ry(&mut self, target: usize, angle: Complex) -> (r: Result<(), QuantumError>)
        requires
            old(self).wf(),
        ensures
            final(self).wf(),
            Self::appended_single(*old(self), *final(self), QuantumGate::Ry(angle), target, r),
    {
        self.add_gate(QuantumGate::Ry(angle), target)
    }

    /// Applies a rotation about the Z axis by the given angle (in radians,
    /// carried as the real part).
    pub fn rz(&mut self, target: usize, angle: Complex) -> (r: Result<(), QuantumError>)
        requires
            old(self).wf(),
        ensures
            final(self).wf(),
            Self::appended_single(*old(self), *final(self), QuantumGate::Rz(angle), target, r),
    {
        self.add_gate(QuantumGate::Rz(angle), target)
    }

    /// Appends a CNOT with the given control and target qubits. Both step
    /// counters move to one past their maximum, so a later gate on either
    /// qubit is laid out after this one; out of range, the circuit is left
    /// unchanged.
    pub fn cnot(&mut self, control: usize, target: usize) -> (r: Result<(), QuantumError>)
        requires
            old(self).wf(),
        ensures
            final(self).wf(),
            Self::appended_controlled(
                *old(self),
                *final(self),
                QuantumGate::CNOT,
                control,
                target,
                r,
            ),
    {
        if control >= self.num_qubits || target >= self.num_qubits {
            return Err(QuantumError::IndexOutOfRange);
        }
        let sc = self.last_step[control];
        let st = self.last_step[target];
        let highest = if sc > st {
            sc
        } else {
            st
        };
        let max_step = if highest == usize::MAX {
            highest
        } else {
            highest + 1
        };
        self.last_step[control] = max_step;
        self.last_step[target] = max_step;
        let op = GateOp::controlled(QuantumGate::CNOT, control, target, max_step);
        self.operations.push(op);
        proof {
            assert(self.operations@.take(old(self).spec_ops().len() as int) =~= old(self).spec_ops());
        }
        Ok(())
    }

    /// Appends a CNOT with the given control and target qubits.
    pub fn cx(&mut self, control: usize, target: usize) -> (r: Result<(), QuantumError>)
        requires
            old(self).wf(),
        ensures
            final(self).wf(),
            Self::appended_controlled(
                *old(self),
                *final(self),
                QuantumGate::CNOT,
                control,
                target,
                r,
            ),
    {
        self.cnot(control, target)
    }

    /// Records a measurement of the given qubit into the given classical
    /// bit, growing the classical-bit space as needed and advancing the
    /// qubit's step counter. The state vector is never altered by a
    /// measurement; the operation is bookkeeping for the caller.
    pub fn measure(&mut self, qubit: usize, classical_bit: usize) -> (r: Result<
        (),
        QuantumError,
    >)
        requires
            old(self).wf(),
        ensures
            final(self).wf(),
            qubit >= old(self).spec_num_qubits() ==> r == Err::<(), QuantumError>(
                QuantumError::IndexOutOfRange,
            ) && *final(self) == *old(self),
            qubit < old(self).spec_num_qubits() ==> {
                let step = step_inc(old(self).spec_steps()[qubit as int]);
                &&& r == Ok::<(), QuantumError>(())
                &&& final(self).spec_num_qubits() == old(self).spec_num_qubits()
                &&& final(self).spec_classical_bits().len() == (if classical_bit + 1 > old(self).spec_classical_bits().len() {
                    classical_bit + 1
                } else {
                    old(self).spec_classical_bits().len() as int
                })
                &&& final(self).spec_classical_bits().take(
                    old(self).spec_classical_bits().len() as int,
                ) == old(self).spec_classical_bits()
                &&& (forall|j: int|
                    old(self).spec_classical_bits().len() <= j < final(self).spec_classical_bits().len() ==> final(self).spec_classical_bits()[j]
                        == 0u8)
                &&& final(self).spec_steps() == old(self).spec_steps().update(
                    qubit as int,
                    step,
                )
                &&& final(self).spec_ops().len() == old(self).spec_ops().len() + 1
                &&& final(self).spec_ops().take(old(self).spec_ops().len() as int) == old(self).spec_ops()
                &&& final(self).spec_ops().last().gate == QuantumGate::Measure
                &&& final(self).spec_ops().last().qubit@ == seq![qubit]
                &&& final(self).spec_ops().last().step == step
                &&& final(self).spec_ops().last().classical_bit == Some(classical_bit)
            },
    {
        if qubit >= self.num_qubits {
            return Err(QuantumError::IndexOutOfRange);
        }
        while self.classical_bits.len() <= classical_bit
            invariant
                self.num_qubits == old(self).num_qubits,
                self.operations@ == old(self).operations@,
                self.last_step@ == old(self).last_step@,
                self.classical_bits@.len() >= old(self).classical_bits@.len(),
                self.classical_bits@.len() <= classical_bit + 1 || self.classical_bits@.len()
                    == old(self).classical_bits@.len(),
                self.classical_bits@.take(old(self).classical_bits@.len() as int) == old(self).classical_bits@,
                forall|j: int|
                    old(self).classical_bits@.len() <= j < self.classical_bits@.len()
                        ==> self.classical_bits@[j] == 0u8,
            decreases classical_bit + 1 - self.classical_bits@.len(),
        {
            self.classical_bits.push(0);
            proof {
                assert(self.classical_bits@.take(old(self).classical_bits@.len() as int) =~= old(self).classical_bits@);
            }
        }
        let cur = self.last_step[qubit];
        let step = if cur == usize::MAX {
            cur
        } else {
            cur + 1
        };
        self.last_step[qubit] = step;
        let mut op = GateOp::new(QuantumGate::Measure, qubit, step);
        op.classical_bit = Some(classical_bit);
        self.operations.push(op);
        proof {
            assert(self.operations@.take(old(self).spec_ops().len() as int) =~= old(self).spec_ops());
        }
        Ok(())
    }

    /// Returns the number of qubits in the circuit.
    pub fn num_qubits(&self) -> (r: usize)
        ensures
            r == self.spec_num_qubits(),
    {
        self.num_qubits
    }

    /// Returns the number of operations in the circuit.
    pub fn num_operations(&self) -> (r: usize)
        ensures
            r == self.spec_ops().len(),
    {
        self.operations.len()
    }

    /// Returns the operation at the given position in execution order, or
    /// `None` past the end.
    pub fn get_operation(&self, index: usize) -> (r: Option<&GateOp>)
        ensures
            index < self.spec_ops().len() ==> r == Some(&self.spec_ops()[index as int]),
            index >= self.spec_ops().len() ==> r is None,
    {
        if index < self.operations.len() {
            Some(&self.operations[index])
        } else {
            None
        }
    }
}

/// The dimension `2^nq` of an `nq`-qubit state is positive and equals the
/// mathematical power of two.
proof fn lemma_dim_pos(nq: usize)
    requires
        nq < usize::BITS,
    ensures
        (1usize << nq) == pow2(nq as nat),
        (1usize << nq) >= 1,
{
    lemma_usize_pow2_no_overflow(nq as nat);
    lemma_usize_shl_is_mul(1usize, nq);
    lemma_pow2_pos(nq as nat);
}

/// The bit facts behind the single-qubit pair walk: inside a power-of-two
/// range, setting or clearing a mask bit below the range keeps an index in
/// range, and pairs the index with its partner.
proof fn lemma_pair_bits(k: usize, mask: usize, n: usize, t: usize, nq: usize)
    requires
        n == 1usize << nq,
        n != 0,
        mask == 1usize << t,
        t < nq,
        k < n,
    ensures
        mask != 0,
        mask < n,
        k & mask == 0 ==> (k | mask) < n,
        k & mask == 0 ==> ((k | mask) & mask) != 0,
        k & mask == 0 ==> ((k | mask) & !mask) == k,
        k & mask != 0 ==> ((k & !mask) < n),
        k & mask != 0 ==> (((k & !mask) & mask) == 0),
        k & mask != 0 ==> (((k & !mask) | mask) == k),
    decreases n,
{
    assert((mask != 0) && (mask < n) && ((k & mask == 0) ==> ((k | mask) < n && ((k | mask)
        & mask) != 0 && ((k | mask) & !mask) == k)) && ((k & mask != 0) ==> ((k & !mask) < n && ((k
        & !mask) & mask) == 0 && ((k & !mask) | mask) == k))) by (bit_vector)
        requires
            n == 1usize << nq && n != 0 && mask == 1usize << t && t < nq && k < n,
    ;
}

/// The bit facts behind the CNOT pass: flipping the target bit keeps an
/// index inside a power-of-two range, and flipping twice restores it.
proof fn lemma_flip_bits(k: usize, tm: usize, n: usize, t: usize, nq: usize)
    requires
        n == 1usize << nq,
        n != 0,
        tm == 1usize << t,
        t < nq,
        k < n,
    ensures
        (k ^ tm) < n,
        ((k ^ tm) ^ tm) == k,
    decreases n,
{
    assert(((k ^ tm) < n) && (((k ^ tm) ^ tm) == k)) by (bit_vector)
        requires
            n == 1usize << nq && n != 0 && tm == 1usize << t && t < nq && k < n,
    ;
}

/// The bit facts behind the two-qubit group walk: clearing both qubit bits
/// of an in-range index gives a base whose four bit combinations all stay
/// in range, and the index is one of the four.
proof fn lemma_group_bits(k: usize, ml: usize, mh: usize, n: usize, low: usize, high: usize, nq: usize)
    requires
        n == 1usize << nq,
        n != 0,
        ml == 1usize << low,
        mh == 1usize << high,
        low < nq,
        high < nq,
        k < n,
    ensures
        (k & !ml & !mh) < n,
        ((k & !ml & !mh) | ml) < n,
        ((k & !ml & !mh) | mh) < n,
        ((k & !ml & !mh) | ml | mh) < n,
    decreases n,
{
    assert(((k & !ml & !mh) < n) && (((k & !ml & !mh) | ml) < n) && (((k & !ml & !mh) | mh) < n)
        && (((k & !ml & !mh) | ml | mh) < n)) by (bit_vector)
        requires
            n == 1usize << nq && n != 0 && ml == 1usize << low && mh == 1usize << high && low < nq
                && high < nq && k < n,
    ;
}

/// One row of a 2-by-2 matrix applied to an amplitude pair, exactly as
/// [`amp2`] states it.
fn row2(m: &Matrix<Complex>, row: usize, a: Complex, b: Complex) -> (r: Complex)
    requires
        row < mrows(*m),
        mcols(*m) == 2,
    ensures
        r == cadd(cadd(cval("0"@), cmul(a, ment(*m, row as int, 0))), cmul(b, ment(*m, row as int, 1))),
{
    let acc = c_lit("0");
    let acc = c_add(acc, c_mul(a, matrix_get(m, row, 0)));
    let acc = c_add(acc, c_mul(b, matrix_get(m, row, 1)));
    acc
}

/// One row of a 4-by-4 matrix applied to a group of four amplitudes,
/// exactly as [`amp4`] states it.
fn row4(
    m: &Matrix<Complex>,
    row: usize,
    a0: Complex,
    a1: Complex,
    a2: Complex,
    a3: Complex,
) -> (r: Complex)
    requires
        row < mrows(*m),
        mcols(*m) == 4,
    ensures
        r == cadd(
            cadd(
                cadd(
                    cadd(cval("0"@), cmul(ment(*m, row as int, 0), a0)),
                    cmul(ment(*m, row as int, 1), a1),
                ),
                cmul(ment(*m, row as int, 2), a2),
            ),
            cmul(ment(*m, row as int, 3), a3),
        ),
{
    let acc = c_lit("0");
    let acc = c_add(acc, c_mul(matrix_get(m, row, 0), a0));
    let acc = c_add(acc, c_mul(matrix_get(m, row, 1), a1));
    let acc = c_add(acc, c_mul(matrix_get(m, row, 2), a2));
    let acc = c_add(acc, c_mul(matrix_get(m, row, 3), a3));
    acc
}

impl QuantumCircuit {
    /// Applies a single-qubit gate to the state vector in one pass over the
    /// `2^n` amplitudes: every index with target bit 0 and its partner with
    /// target bit 1 are combined by its 2-by-2 matrix, without ever
    /// building the exponential-size operator.
    pub fn apply_single_qubit_gate(
        &self,
        state_vector: &mut Vec<Complex>,
        gate: &QuantumGate,
        target: usize,
    )
        requires
            target < self.spec_num_qubits(),
            self.spec_num_qubits() < usize::BITS,
            old(state_vector)@.len() == 1usize << self.spec_num_qubits(),
            gate.is_single_qubit_matrix(),
        ensures
            final(state_vector)@ == apply1_spec(*gate, old(state_vector)@, target),
    {
        proof {
            lemma_dim_pos(self.spec_num_qubits());
        }
        let m = gate.matrix();
        let n = state_vector.len();
        let mask: usize = 1usize << target;
        let mut new_state: Vec<Complex> = Vec::new();
        let mut k: usize = 0;
        while k < n
            invariant
                state_vector@ == old(state_vector)@,
                n == state_vector@.len(),
                n == 1usize << self.spec_num_qubits(),
                n >= 1,
                target < self.spec_num_qubits(),
                self.spec_num_qubits() < usize::BITS,
                mask == 1usize << target,
                gate.is_single_qubit_matrix(),
                mrows(m) == 2,
                mcols(m) == 2,
                forall|i: int, j: int|
                    0 <= i < 2 && 0 <= j < 2 ==> ment(m, i, j) == gate.mat_entry(i, j),
                k <= n,
                new_state@.len() == k,
                forall|j2: int|
                    0 <= j2 < k ==> new_state@[j2] == apply1_spec(
                        *gate,
                        state_vector@,
                        target,
                    )[j2],
            decreases n - k,
        {
            proof {
                lemma_pair_bits(k, mask, n, target, self.spec_num_qubits());
            }
            if k & mask == 0 {
                let j = k | mask;
                let a = state_vector[k];
                let b = state_vector[j];
                let v = row2(&m, 0, a, b);
                new_state.push(v);
            } else {
                let p = k & !mask;
                let a = state_vector[p];
                let b = state_vector[k];
                let v = row2(&m, 1, a, b);
                new_state.push(v);
            }
            k = k + 1;
        }
        *state_vector = new_state;
        proof {
            assert(state_vector@ =~= apply1_spec(*gate, old(state_vector)@, target));
        }
    }

    /// Applies a CNOT to the state vector as a single permutation pass:
    /// wherever the control bit is set, the amplitude is exchanged with its
    /// target-flipped partner. Every value is read from the unmodified
    /// input, so each pair is exchanged exactly once.
    pub fn apply_cnot(&self, state_vector: &mut Vec<Complex>, control: usize, target: usize)
        requires
            control < self.spec_num_qubits(),
            target < self.spec_num_qubits(),
            self.spec_num_qubits() < usize::BITS,
            old(state_vector)@.len() == 1usize << self.spec_num_qubits(),
        ensures
            final(state_vector)@ == cnot_spec(old(state_vector)@, control, target),
    {
        proof {
            lemma_dim_pos(self.spec_num_qubits());
        }
        let n = state_vector.len();
        let cm: usize = 1usize << control;
        let tm: usize = 1usize << target;
        let mut new_state: Vec<Complex> = Vec::new();
        let mut k: usize = 0;
        while k < n
            invariant
                state_vector@ == old(state_vector)@,
                n == state_vector@.len(),
                n == 1usize << self.spec_num_qubits(),
                n >= 1,
                control < self.spec_num_qubits(),
                target < self.spec_num_qubits(),
                self.spec_num_qubits() < usize::BITS,
                cm == 1usize << control,
                tm == 1usize << target,
                k <= n,
                new_state@.len() == k,
                forall|j2: int|
                    0 <= j2 < k ==> new_state@[j2] == cnot_spec(
                        state_vector@,
                        control,
                        target,
                    )[j2],
            decreases n - k,
        {
            proof {
                lemma_flip_bits(k, tm, n, target, self.spec_num_qubits());
            }
            let flipped = k ^ tm;
            let v = if (k & cm != 0) || (flipped & cm != 0) {
                state_vector[flipped]
            } else {
                state_vector[k]
            };
            new_state.push(v);
            k = k + 1;
        }
        *state_vector = new_state;
        proof {
            assert(state_vector@ =~= cnot_spec(old(state_vector)@, control, target));
        }
    }

    /// Applies a general two-qubit gate: the `2^n` indices fall into groups
    /// of four sharing all bits except the two qubit positions, and each
    /// group is combined by its 4-by-4 matrix in bit order relative
    /// to the lower and higher position. Every group is read from the
    /// unmodified input, so each is processed exactly once.
    pub fn apply_two_qubit_gate(
        &self,
        state_vector: &mut Vec<Complex>,
        gate: &QuantumGate,
        control: usize,
        target: usize,
    )
        requires
            control < self.spec_num_qubits(),
            target < self.spec_num_qubits(),
            self.spec_num_qubits() < usize::BITS,
            old(state_vector)@.len() == 1usize << self.spec_num_qubits(),
            gate.mat_rows() == 4,
            gate.mat_cols() == 4,
        ensures
            final(state_vector)@ == apply2_spec(*gate, old(state_vector)@, control, target),
    {
        proof {
            lemma_dim_pos(self.spec_num_qubits());
        }
        let m = gate.matrix();
        let n = state_vector.len();
        let low = if control < target {
            control
        } else {
            target
        };
        let high = if control < target {
            target
        } else {
            control
        };
        let ml: usize = 1usize << low;
        let mh: usize = 1usize << high;
        let mut new_state: Vec<Complex> = Vec::new();
        let mut k: usize = 0;
        while k < n
            invariant
                state_vector@ == old(state_vector)@,
                n == state_vector@.len(),
                n == 1usize << self.spec_num_qubits(),
                n >= 1,
                control < self.spec_num_qubits(),
                target < self.spec_num_qubits(),
                self.spec_num_qubits() < usize::BITS,
                low == (if control < target { control } else { target }),
                high == (if control < target { target } else { control }),
                ml == 1usize << low,
                mh == 1usize << high,
                mrows(m) == 4,
                mcols(m) == 4,
                forall|i: int, j: int|
                    0 <= i < 4 && 0 <= j < 4 ==> ment(m, i, j) == gate.mat_entry(i, j),
                k <= n,
                new_state@.len() == k,
                forall|j2: int|
                    0 <= j2 < k ==> new_state@[j2] == apply2_spec(
                        *gate,
                        state_vector@,
                        control,
                        target,
                    )[j2],
            decreases n - k,
        {
            proof {
                lemma_group_bits(k, ml, mh, n, low, high, self.spec_num_qubits());
            }
            let base = k & !ml & !mh;
            let row: usize = (if k & ml != 0 {
                1
            } else {
                0
            }) + (if k & mh != 0 {
                2
            } else {
                0
            });
            let a0 = state_vector[base];
            let a1 = state_vector[base | ml];
            let a2 = state_vector[base | mh];
            let a3 = state_vector[base | ml | mh];
            let v = row4(&m, row, a0, a1, a2, a3);
            new_state.push(v);
            k = k + 1;
        }
        *state_vector = new_state;
        proof {
            assert(state_vector@ =~= apply2_spec(*gate, old(state_vector)@, control, target));
        }
    }

    /// Executes the circuit from the all-zero basis state and returns the
    /// final amplitude vector of length `2^n`, cleaned up by rounding every
    /// amplitude to 8 decimal places. Measurement operations are recorded
    /// in the circuit but never alter the state. Fails exactly when some
    /// custom gate carries a matrix the single-qubit path cannot apply.
    pub fn execute(&self) -> (r: Result<Vec<Complex>, QuantumError>)
        requires
            self.wf(),
            self.spec_num_qubits() < usize::BITS,
        ensures
            r is Ok <==> customs_applicable(self.spec_ops()),
            r matches Ok(v) ==> v@ == cleanup_spec(
                run_ops(init_state(self.spec_num_qubits()), self.spec_ops()),
            ),
            r matches Ok(v) ==> v@.len() == 1usize << self.spec_num_qubits(),
            r is Err ==> r == Err::<Vec<Complex>, QuantumError>(QuantumError::MalformedCustomGate),
    {
        proof {
            lemma_dim_pos(self.spec_num_qubits());
        }
        let dim: usize = 1usize << self.num_qubits;
        let zero = c_lit("0");
        let mut state: Vec<Complex> = Vec::new();
        state.push(c_lit("1"));
        let mut k: usize = 1;
        while k < dim
            invariant
                1 <= k <= dim,
                state@.len() == k,
                state@[0] == cval("1"@),
                forall|j: int| 1 <= j < k ==> state@[j] == cval("0"@),
                zero == cval("0"@),
            decreases dim - k,
        {
            state.push(zero);
            k = k + 1;
        }
        proof {
            assert(state@ =~= init_state(self.spec_num_qubits()));
        }
        let n_ops = self.operations.len();
        let mut i: usize = 0;
        while i < n_ops
            invariant
                self.wf(),
                self.spec_num_qubits() < usize::BITS,
                n_ops == self.spec_ops().len(),
                i <= n_ops,
                customs_applicable(self.spec_ops().take(i as int)),
                state@ == run_ops(init_state(self.spec_num_qubits()), self.spec_ops().take(i as int)),
                state@.len() == 1usize << self.spec_num_qubits(),
            decreases n_ops - i,
        {
            let ghost prefix = self.spec_ops().take(i as int);
            let op = &self.operations[i];
            proof {
                assert(Self::op_wf(self.spec_ops()[i as int], self.spec_num_qubits()));
                assert(op.qubit@[op.qubit@.len() - 1] < self.spec_num_qubits());
            }
            let target = op.target();
            match &op.gate {
                QuantumGate::Measure => {},
                QuantumGate::CNOT => {
                    proof {
                        assert(op.qubit@[0] < self.spec_num_qubits());
                    }
                    let control = op.qubit[0];
                    self.apply_cnot(&mut state, control, target);
                },
                QuantumGate::Custom(m, _, _) => {
                    let rows = matrix_rows(m);
                    let cols = matrix_cols(m);
                    if rows != 2 || cols != 2 {
                        proof {
                            assert(!self.spec_ops()[i as int].gate.is_single_qubit_matrix());
                            assert(!customs_applicable(self.spec_ops()));
                        }
                        return Err(QuantumError::MalformedCustomGate);
                    }
                    self.apply_single_qubit_gate(&mut state, &op.gate, target);
                },
                _ => {
                    self.apply_single_qubit_gate(&mut state, &op.gate, target);
                },
            }
            proof {
                let next = self.spec_ops().take(i + 1);
                assert(next.drop_last() =~= prefix);
                assert(next.last() == self.spec_ops()[i as int]);
                assert(state@ == run_ops(init_state(self.spec_num_qubits()), next));
            }
            i = i + 1;
        }
        proof {
            assert(self.spec_ops().take(n_ops as int) =~= self.spec_ops());
        }
        let mut out: Vec<Complex> = Vec::new();
        let mut j: usize = 0;
        let n = state.len();
        while j < n
            invariant
                n == state@.len(),
                j <= n,
                out@.len() == j,
                forall|p: int| 0 <= p < j ==> out@[p] == cround(state@[p]),
            decreases n - j,
        {
            out.push(c_round(state[j]));
            j = j + 1;
        }
        proof {
            assert(out@ =~= cleanup_spec(run_ops(init_state(self.spec_num_qubits()), self.spec_ops())));
        }
        Ok(out)
    }
}


/// Law: executing operations never changes the dimension of the state —
/// each pass rewrites the `2^n` amplitudes in place.
pub proof fn lemma_run_ops_len(init: Seq<Complex>, ops: Seq<GateOp>)
    ensures
        run_ops(init, ops).len() == init.len(),
    decreases ops.len(),
{
    if ops.len() > 0 {
        lemma_run_ops_len(init, ops.drop_last());
    }
}

/// Law: applying the CNOT pass twice with the same control and target
/// returns every state of the register's dimension to exactly where it
/// was — the pass is a self-inverse permutation of the amplitudes, for
/// any control and target inside the register.
pub proof fn lemma_cnot_self_inverse(s: Seq<Complex>, control: usize, target: usize, nq: usize)
    requires
        s.len() == 1usize << nq,
        nq < usize::BITS,
        control < nq,
        target < nq,
    ensures
        cnot_spec(cnot_spec(s, control, target), control, target) == s,
{
    lemma_dim_pos(nq);
    let n = 1usize << nq;
    let tm = 1usize << target;
    let s1 = cnot_spec(s, control, target);
    let s2 = cnot_spec(s1, control, target);
    assert forall|k: int| 0 <= k < s.len() implies s2[k] == s[k] by {
        let ku = k as usize;
        lemma_flip_bits(ku, tm, n, target, nq);
        lemma_flip_bits(ku ^ tm, tm, n, target, nq);
    }
    assert(s2 =~= s);
}

} // verus!
