//! A catalog of gates: each supported kind, its unitary matrix, its
//! arity, and its presentation strings.
//!
//! Each non-custom kind's matrix is a pure function of the kind (and of the
//! angle, for the rotations); its entries are pinned by the spec functions
//! below, written over the named results of the trusted numeric layer.

use vstd::prelude::*;
use vstd::string::*;
use rusticle::complex::Complex;
use rusticle::linalg::Matrix;
use crate::num::cadd;
use crate::num::cexp;
use crate::num::cmul;
use crate::num::cneg;
use crate::num::csub;
use crate::num::ctext;
use crate::num::ctext_fixed;
use crate::num::cval;
use crate::num::ment;
use crate::num::mcols;
use crate::num::mrows;
use crate::num::c_add;
use crate::num::c_exp;
use crate::num::c_lit;
use crate::num::c_mul;
use crate::num::c_neg;
use crate::num::c_sub;
use crate::num::fmt_real;
use crate::num::fmt_real_fixed;
use crate::num::matrix_clone;
use crate::num::matrix_new;

verus! {

/// A quantum gate: a fixed single-qubit kind, a parameterized rotation
/// carrying its angle (in radians, as the real part of a complex number),
/// the two-qubit CNOT, a measurement marker, or a custom kind carrying an
/// arbitrary matrix with a display name and symbol.
///
/// A custom matrix is accepted verbatim, without a unitarity check.
#[derive(Clone, Debug, PartialEq)]
pub enum QuantumGate {
    /// The Pauli-X gate (quantum NOT): [[0, 1], [1, 0]].
    X,
    /// The Pauli-Y gate: [[0, -i], [i, 0]].
    Y,
    /// The Pauli-Z gate: [[1, 0], [0, -1]].
    Z,
    /// The Hadamard gate: 1/sqrt(2) * [[1, 1], [1, -1]].
    H,
    /// The S gate (square root of Z): [[1, 0], [0, i]].
    S,
    /// The T gate (pi/4 phase): [[1, 0], [0, e^(i*pi/4)]].
    T,
    /// Rotation about the X axis by the carried angle.
    Rx(Complex),
    /// Rotation about the Y axis by the carried angle.
    Ry(Complex),
    /// Rotation about the Z axis by the carried angle.
    Rz(Complex),
    /// The controlled-NOT gate.
    CNOT,
    /// A measurement marker; recorded in the circuit, never applied to the
    /// state vector.
    Measure,
    /// A custom gate: its matrix, its name, and its diagram symbol.
    Custom(Matrix<Complex>, String, String),
}

impl QuantumGate {
    /// The number of qubits a kind acts on: 2 for CNOT, 1 otherwise.
    pub open spec fn spec_arity(self) -> int {
        match self {
            QuantumGate::CNOT => 2,
            _ => 1,
        }
    }

    /// The number of rows of this kind's matrix.
    pub open spec fn mat_rows(self) -> int {
        match self {
            QuantumGate::CNOT => 4,
            QuantumGate::Measure => 1,
            QuantumGate::Custom(m, _, _) => mrows(m),
            _ => 2,
        }
    }

    /// The number of columns of this kind's matrix.
    pub open spec fn mat_cols(self) -> int {
        match self {
            QuantumGate::CNOT => 4,
            QuantumGate::Measure => 1,
            QuantumGate::Custom(m, _, _) => mcols(m),
            _ => 2,
        }
    }

    /// The row-major entries of a non-custom gate's matrix, over the named
    /// results of the trusted numeric layer.
    pub open spec fn mat_data(self) -> Seq<Complex> {
        match self {
            QuantumGate::X => seq![cval("0"@), cval("1"@), cval("1"@), cval("0"@)],
            QuantumGate::Y => seq![cval("0"@), cval("-i"@), cval("i"@), cval("0"@)],
            QuantumGate::Z => seq![cval("1"@), cval("0"@), cval("0"@), cval("-1"@)],
            QuantumGate::H => seq![
                cval("0.7071067811865475"@),
                cval("0.7071067811865475"@),
                cval("0.7071067811865475"@),
                cneg(cval("0.7071067811865475"@)),
            ],
            QuantumGate::S => seq![cval("1"@), cval("0"@), cval("0"@), cval("i"@)],
            QuantumGate::T => seq![
                cval("1"@),
                cval("0"@),
                cval("0"@),
                cexp(cval("0.7853981633974483i"@)),
            ],
            QuantumGate::Rx(a) => ({
                let z = cmul(a, cval("0.5i"@));
                let ep = cexp(z);
                let em = cexp(cneg(z));
                let cos = cmul(cadd(ep, em), cval("0.5"@));
                let misin = cmul(csub(ep, em), cval("-0.5"@));
                seq![cos, misin, misin, cos]
            }),
            QuantumGate::Ry(a) => ({
                let z = cmul(a, cval("0.5i"@));
                let ep = cexp(z);
                let em = cexp(cneg(z));
                let cos = cmul(cadd(ep, em), cval("0.5"@));
                let sin = cmul(csub(ep, em), cval("-0.5i"@));
                seq![cos, cneg(sin), sin, cos]
            }),
            QuantumGate::Rz(a) => ({
                let z = cmul(a, cval("0.5i"@));
                seq![cexp(cneg(z)), cval("0"@), cval("0"@), cexp(z)]
            }),
            QuantumGate::CNOT => seq![
                cval("1"@), cval("0"@), cval("0"@), cval("0"@),
                cval("0"@), cval("1"@), cval("0"@), cval("0"@),
                cval("0"@), cval("0"@), cval("0"@), cval("1"@),
                cval("0"@), cval("0"@), cval("1"@), cval("0"@),
            ],
            QuantumGate::Measure => seq![cval("0"@)],
            QuantumGate::Custom(_, _, _) => Seq::<Complex>::empty(),
        }
    }

    /// The entry of this kind's matrix at the given row and column.
    pub open spec fn mat_entry(self, i: int, j: int) -> Complex {
        match self {
            QuantumGate::Custom(m, _, _) => ment(m, i, j),
            _ => self.mat_data()[i * self.mat_cols() + j],
        }
    }

    /// Whether this kind's matrix is the 2-by-2 shape the single-qubit path
    /// of the engine applies. Every non-custom single-qubit gate has it; a
    /// custom gate has it exactly when its carried matrix is 2-by-2.
    pub open spec fn is_single_qubit_matrix(self) -> bool {
        self.mat_rows() == 2 && self.mat_cols() == 2
    }

    /// The full name of this kind.
    pub open spec fn name_spec(self) -> Seq<char> {
        match self {
            QuantumGate::X => "Pauli-X"@,
            QuantumGate::Y => "Pauli-Y"@,
            QuantumGate::Z => "Pauli-Z"@,
            QuantumGate::H => "Hadamard"@,
            QuantumGate::S => "S"@,
            QuantumGate::T => "T"@,
            QuantumGate::Rx(a) => "Rx("@ + ctext(a) + ")"@,
            QuantumGate::Ry(a) => "Ry("@ + ctext(a) + ")"@,
            QuantumGate::Rz(a) => "Rz("@ + ctext(a) + ")"@,
            QuantumGate::CNOT => "CNOT"@,
            QuantumGate::Measure => "Measurement"@,
            QuantumGate::Custom(_, n, _) => n@,
        }
    }

    /// The short symbol of this kind.
    pub open spec fn symbol_spec(self) -> Seq<char> {
        match self {
            QuantumGate::X => "X"@,
            QuantumGate::Y => "Y"@,
            QuantumGate::Z => "Z"@,
            QuantumGate::H => "H"@,
            QuantumGate::S => "S"@,
            QuantumGate::T => "T"@,
            QuantumGate::Rx(a) => "Rx("@ + ctext(a) + ")"@,
            QuantumGate::Ry(a) => "Ry("@ + ctext(a) + ")"@,
            QuantumGate::Rz(a) => "Rz("@ + ctext(a) + ")"@,
            QuantumGate::CNOT => "CX"@,
            QuantumGate::Measure => "M"@,
            QuantumGate::Custom(_, _, s) => s@,
        }
    }

    /// The diagram symbol of this kind, with connecting wire stubs.
    pub open spec fn display_symbol_spec(self) -> Seq<char> {
        match self {
            QuantumGate::X => "\u{2500}X\u{2500}"@,
            QuantumGate::Y => "\u{2500}Y\u{2500}"@,
            QuantumGate::Z => "\u{2500}Z\u{2500}"@,
            QuantumGate::H => "\u{2500}H\u{2500}"@,
            QuantumGate::S => "\u{2500}S\u{2500}"@,
            QuantumGate::T => "\u{2500}T\u{2500}"@,
            QuantumGate::Rx(a) => "\u{2500}Rx("@ + ctext_fixed(a, 2) + ")\u{2500}"@,
            QuantumGate::Ry(a) => "\u{2500}Ry("@ + ctext_fixed(a, 2) + ")\u{2500}"@,
            QuantumGate::Rz(a) => "\u{2500}Rz("@ + ctext_fixed(a, 2) + ")\u{2500}"@,
            QuantumGate::CNOT => "\u{2500}x\u{2500}"@,
            QuantumGate::Measure => "\u{2500}[M]\u{2500}"@,
            QuantumGate::Custom(_, _, s) => "\u{2500}"@ + s@ + "\u{2500}"@,
        }
    }

    /// Returns the matrix representation of this kind: its dimensions and
    /// every entry are as the catalog specifies. A custom gate returns its
    /// carried matrix verbatim.
    pub fn matrix(&self) -> (r: Matrix<Complex>)
        ensures
            mrows(r) == self.mat_rows(),
            mcols(r) == self.mat_cols(),
            forall|i: int, j: int|
                0 <= i < self.mat_rows() && 0 <= j < self.mat_cols() ==> ment(r, i, j)
                    == self.mat_entry(i, j),
    {
        match self {
            QuantumGate::X => {
                let zero = c_lit("0");
                let one = c_lit("1");
                let mut data: Vec<Complex> = Vec::new();
                data.push(zero);
                data.push(one);
                data.push(one);
                data.push(zero);
                matrix_new(2, 2, data)
            }
            QuantumGate::Y => {
                let mut data: Vec<Complex> = Vec::new();
                data.push(c_lit("0"));
                data.push(c_lit("-i"));
                data.push(c_lit("i"));
                data.push(c_lit("0"));
                matrix_new(2, 2, data)
            }
            QuantumGate::Z => {
                let mut data: Vec<Complex> = Vec::new();
                data.push(c_lit("1"));
                data.push(c_lit("0"));
                data.push(c_lit("0"));
                data.push(c_lit("-1"));
                matrix_new(2, 2, data)
            }
            QuantumGate::H => {
                let factor = c_lit("0.7071067811865475");
                let mut data: Vec<Complex> = Vec::new();
                data.push(factor);
                data.push(factor);
                data.push(factor);
                data.push(c_neg(factor));
                matrix_new(2, 2, data)
            }
            QuantumGate::S => {
                let mut data: Vec<Complex> = Vec::new();
                data.push(c_lit("1"));
                data.push(c_lit("0"));
                data.push(c_lit("0"));
                data.push(c_lit("i"));
                matrix_new(2, 2, data)
            }
            QuantumGate::T => {
                let phase = c_exp(&c_lit("0.7853981633974483i"));
                let mut data: Vec<Complex> = Vec::new();
                data.push(c_lit("1"));
                data.push(c_lit("0"));
                data.push(c_lit("0"));
                data.push(phase);
                matrix_new(2, 2, data)
            }
            QuantumGate::Rx(angle) => {
                let z = c_mul(*angle, c_lit("0.5i"));
                let ep = c_exp(&z);
                let em = c_exp(&c_neg(z));
                let cos = c_mul(c_add(ep, em), c_lit("0.5"));
                let misin = c_mul(c_sub(ep, em), c_lit("-0.5"));
                let mut data: Vec<Complex> = Vec::new();
                data.push(cos);
                data.push(misin);
                data.push(misin);
                data.push(cos);
                matrix_new(2, 2, data)
            }
            QuantumGate::Ry(angle) => {
                let z = c_mul(*angle, c_lit("0.5i"));
                let ep = c_exp(&z);
                let em = c_exp(&c_neg(z));
                let cos = c_mul(c_add(ep, em), c_lit("0.5"));
                let sin = c_mul(c_sub(ep, em), c_lit("-0.5i"));
                let mut data: Vec<Complex> = Vec::new();
                data.push(cos);
                data.push(c_neg(sin));
                data.push(sin);
                data.push(cos);
                matrix_new(2, 2, data)
            }
            QuantumGate::Rz(angle) => {
                let z = c_mul(*angle, c_lit("0.5i"));
                let mut data: Vec<Complex> = Vec::new();
                data.push(c_exp(&c_neg(z)));
                data.push(c_lit("0"));
                data.push(c_lit("0"));
                data.push(c_exp(&z));
                matrix_new(2, 2, data)
            }
            QuantumGate::CNOT => {
                let zero = c_lit("0");
                let one = c_lit("1");
                let mut data: Vec<Complex> = Vec::new();
                data.push(one);
                data.push(zero);
                data.push(zero);
                data.push(zero);
                data.push(zero);
                data.push(one);
                data.push(zero);
                data.push(zero);
                data.push(zero);
                data.push(zero);
                data.push(zero);
                data.push(one);
                data.push(zero);
                data.push(zero);
                data.push(one);
                data.push(zero);
                matrix_new(4, 4, data)
            }
            QuantumGate::Measure => {
                let mut data: Vec<Complex> = Vec::new();
                data.push(c_lit("0"));
                matrix_new(1, 1, data)
            }
            QuantumGate::Custom(m, _, _) => matrix_clone(m),
        }
    }

    /// Returns the full name of this kind.
    pub fn name(&self) -> (r: String)
        ensures
            r@ == self.name_spec(),
    {
        match self {
            QuantumGate::X => String::from_str("Pauli-X"),
            QuantumGate::Y => String::from_str("Pauli-Y"),
            QuantumGate::Z => String::from_str("Pauli-Z"),
            QuantumGate::H => String::from_str("Hadamard"),
            QuantumGate::S => String::from_str("S"),
            QuantumGate::T => String::from_str("T"),
            QuantumGate::Rx(a) => {
                let mut s = String::from_str("Rx(");
                let t = fmt_real(a);
                s.append(t.as_str());
                s.append(")");
                s
            }
            QuantumGate::Ry(a) => {
                let mut s = String::from_str("Ry(");
                let t = fmt_real(a);
                s.append(t.as_str());
                s.append(")");
                s
            }
            QuantumGate::Rz(a) => {
                let mut s = String::from_str("Rz(");
                let t = fmt_real(a);
                s.append(t.as_str());
                s.append(")");
                s
            }
            QuantumGate::CNOT => String::from_str("CNOT"),
            QuantumGate::Measure => String::from_str("Measurement"),
            QuantumGate::Custom(_, n, _) => n.clone(),
        }
    }

    /// Returns the short symbol of this kind.
    pub fn symbol(&self) -> (r: String)
        ensures
            r@ == self.symbol_spec(),
    {
        match self {
            QuantumGate::X => String::from_str("X"),
            QuantumGate::Y => String::from_str("Y"),
            QuantumGate::Z => String::from_str("Z"),
            QuantumGate::H => String::from_str("H"),
            QuantumGate::S => String::from_str("S"),
            QuantumGate::T => String::from_str("T"),
            QuantumGate::Rx(a) => {
                let mut s = String::from_str("Rx(");
                let t = fmt_real(a);
                s.append(t.as_str());
                s.append(")");
                s
            }
            QuantumGate::Ry(a) => {
                let mut s = String::from_str("Ry(");
                let t = fmt_real(a);
                s.append(t.as_str());
                s.append(")");
                s
            }
            QuantumGate::Rz(a) => {
                let mut s = String::from_str("Rz(");
                let t = fmt_real(a);
                s.append(t.as_str());
                s.append(")");
                s
            }
            QuantumGate::CNOT => String::from_str("CX"),
            QuantumGate::Measure => String::from_str("M"),
            QuantumGate::Custom(_, _, s) => s.clone(),
        }
    }

    /// Returns the diagram symbol of this kind, with connecting wire stubs.
    pub fn display_symbol(&self) -> (r: String)
        ensures
            r@ == self.display_symbol_spec(),
    {
        match self {
            QuantumGate::X => String::from_str("\u{2500}X\u{2500}"),
            QuantumGate::Y => String::from_str("\u{2500}Y\u{2500}"),
            QuantumGate::Z => String::from_str("\u{2500}Z\u{2500}"),
            QuantumGate::H => String::from_str("\u{2500}H\u{2500}"),
            QuantumGate::S => String::from_str("\u{2500}S\u{2500}"),
            QuantumGate::T => String::from_str("\u{2500}T\u{2500}"),
            QuantumGate::Rx(a) => {
                let mut s = String::from_str("\u{2500}Rx(");
                let t = fmt_real_fixed(a, 2);
                s.append(t.as_str());
                s.append(")\u{2500}");
                s
            }
            QuantumGate::Ry(a) => {
                let mut s = String::from_str("\u{2500}Ry(");
                let t = fmt_real_fixed(a, 2);
                s.append(t.as_str());
                s.append(")\u{2500}");
                s
            }
            QuantumGate::Rz(a) => {
                let mut s = String::from_str("\u{2500}Rz(");
                let t = fmt_real_fixed(a, 2);
                s.append(t.as_str());
                s.append(")\u{2500}");
                s
            }
            QuantumGate::CNOT => String::from_str("\u{2500}x\u{2500}"),
            QuantumGate::Measure => String::from_str("\u{2500}[M]\u{2500}"),
            QuantumGate::Custom(_, _, s) => {
                let mut r = String::from_str("\u{2500}");
                r.append(s.as_str());
                r.append("\u{2500}");
                r
            }
        }
    }

    /// Returns the number of qubits that this kind operates on.
    pub fn arity(&self) -> (r: usize)
        ensures
            r == self.spec_arity(),
    {
        match self {
            QuantumGate::CNOT => 2,
            _ => 1,
        }
    }
}

/// A gate bound to the qubit indices it acts on: the last index is the
/// target, any earlier ones are controls. The step is a per-qubit layout
/// counter assigned by the circuit; the classical-bit index is set only for
/// measurement operations.
#[derive(Clone, Debug, PartialEq)]
pub struct GateOp {
    /// The quantum gate to apply.
    pub gate: QuantumGate,
    /// The indices of the qubits acted on.
    pub qubit: Vec<usize>,
    /// The layout step in the circuit where this operation occurs.
    pub step: usize,
    /// The classical bit that stores a measurement result.
    pub classical_bit: Option<usize>,
}

impl GateOp {
    /// The target qubit: the last bound index, or 0 if none is bound.
    pub open spec fn spec_target(self) -> usize {
        if self.qubit@.len() == 0 {
            0
        } else {
            self.qubit@.last()
        }
    }

    /// Creates a single-qubit gate operation.
    pub fn new(gate: QuantumGate, target: usize, step: usize) -> (r: GateOp)
        ensures
            r.gate == gate,
            r.qubit@ == seq![target],
            r.step == step,
            r.classical_bit is None,
    {
        let mut qubit: Vec<usize> = Vec::new();
        qubit.push(target);
        GateOp { gate, qubit, step, classical_bit: None }
    }

    /// Creates a controlled gate operation.
    pub fn controlled(gate: QuantumGate, control: usize, target: usize, step: usize) -> (r: GateOp)
        ensures
            r.gate == gate,
            r.qubit@ == seq![control, target],
            r.step == step,
            r.classical_bit is None,
    {
        let mut qubit: Vec<usize> = Vec::new();
        qubit.push(control);
        qubit.push(target);
        GateOp { gate, qubit, step, classical_bit: None }
    }

    /// Returns the target qubit: the last bound index.
    pub fn target(&self) -> (r: usize)
        ensures
            r == self.spec_target(),
    {
        if self.qubit.len() == 0 {
            0
        } else {
            self.qubit[self.qubit.len() - 1]
        }
    }

    /// Returns the control qubits of a two-qubit operation: every bound
    /// index but the last.
    pub fn controls(&self) -> (r: Vec<usize>)
        requires
            self.gate.spec_arity() == 2,
            self.qubit@.len() >= 1,
        ensures
            r@ == self.qubit@.take(self.qubit@.len() - 1),
    {
        let n = self.qubit.len();
        let mut r: Vec<usize> = Vec::new();
        let mut i: usize = 0;
        while i < n - 1
            invariant
                i <= n - 1,
                n == self.qubit@.len(),
                n >= 1,
                r@ == self.qubit@.take(i as int),
            decreases n - 1 - i,
        {
            r.push(self.qubit[i]);
            proof {
                assert(self.qubit@.take(i + 1) =~= self.qubit@.take(i as int).push(
                    self.qubit@[i as int],
                ));
            }
            i = i + 1;
        }
        r
    }
}

} // verus!
