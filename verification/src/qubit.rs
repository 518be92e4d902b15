//! A single quantum bit, held as its two-amplitude state vector.
//!
//! The state |psi> = alpha |0> + beta |1> is admitted only when normalized
//! within tolerance; applying a single-qubit gate multiplies the pair by
//! its matrix, exactly as the spec functions state it.

use vstd::prelude::*;
use rusticle::complex::Complex;
use rusticle::complex::ComplexVector;
use rusticle::linalg::Matrix;
use crate::gate::QuantumGate;
use crate::num::cadd;
use crate::num::ceq;
use crate::num::cmul;
use crate::num::cnormed;
use crate::num::cval;
use crate::num::cvec;
use crate::num::ment;
use crate::num::mcols;
use crate::num::mrows;
use crate::num::c_add;
use crate::num::c_eq;
use crate::num::c_lit;
use crate::num::c_mul;
use crate::num::c_normalized;
use crate::num::complex_vector_new;
use crate::num::matrix_get;

verus! {

/// One row of a 2-by-2 matrix applied to an amplitude pair as rusticle's
/// matrix-times-vector product computes it: a zero seed, then
/// entry-times-amplitude accumulation.
pub open spec fn mv2(g: QuantumGate, row: int, a: Complex, b: Complex) -> Complex {
    cadd(cadd(cval("0"@), cmul(g.mat_entry(row, 0), a)), cmul(g.mat_entry(row, 1), b))
}

/// One row of a 2-by-2 matrix applied to an amplitude pair, exactly as
/// [`mv2`] states it.
fn mv_row2(m: &Matrix<Complex>, row: usize, a: Complex, b: Complex) -> (r: Complex)
    requires
        row < mrows(*m),
        mcols(*m) == 2,
    ensures
        r == cadd(
            cadd(cval("0"@), cmul(ment(*m, row as int, 0), a)),
            cmul(ment(*m, row as int, 1), b),
        ),
{
    let acc = c_lit("0");
    let acc = c_add(acc, c_mul(matrix_get(m, row, 0), a));
    let acc = c_add(acc, c_mul(matrix_get(m, row, 1), b));
    acc
}

/// A quantum bit: the complex amplitudes of the |0> and |1> components of
/// its state.
#[derive(Clone, Copy)]
pub struct Qubit {
    /// The amplitude of the |0> component.
    alpha: Complex,
    /// The amplitude of the |1> component.
    beta: Complex,
}

impl Qubit {
    /// The amplitude of the |0> component.
    pub closed spec fn spec_alpha(self) -> Complex {
        self.alpha
    }

    /// The amplitude of the |1> component.
    pub closed spec fn spec_beta(self) -> Complex {
        self.beta
    }

    /// Creates a qubit with the given amplitudes. The premise is the
    /// constructor's admission check: the state must be normalized within
    /// tolerance. [`Qubit::try_new`] makes the same check at run time.
    pub fn new(alpha: Complex, beta: Complex) -> (r: Qubit)
        requires
            cnormed(alpha, beta),
        ensures
            r.spec_alpha() == alpha,
            r.spec_beta() == beta,
    {
        Qubit { alpha, beta }
    }

    /// Creates a qubit with the given amplitudes after checking at run
    /// time that the state is normalized within tolerance; `None` exactly
    /// when it is not.
    pub fn try_new(alpha: Complex, beta: Complex) -> (r: Option<Qubit>)
        ensures
            r is Some <==> cnormed(alpha, beta),
            r matches Some(q) ==> q.spec_alpha() == alpha && q.spec_beta() == beta,
    {
        if c_normalized(alpha, beta) {
            Some(Qubit { alpha, beta })
        } else {
            None
        }
    }

    /// Creates a qubit in the |0> state.
    pub fn zero() -> (r: Qubit)
        ensures
            r.spec_alpha() == cval("1"@),
            r.spec_beta() == cval("0"@),
    {
        Qubit { alpha: c_lit("1"), beta: c_lit("0") }
    }

    /// Creates a qubit in the |1> state.
    pub fn one() -> (r: Qubit)
        ensures
            r.spec_alpha() == cval("0"@),
            r.spec_beta() == cval("1"@),
    {
        Qubit { alpha: c_lit("0"), beta: c_lit("1") }
    }

    /// Returns the state vector [alpha, beta] of the qubit.
    pub fn state_vector(&self) -> (r: ComplexVector)
        ensures
            r == cvec(seq![self.spec_alpha(), self.spec_beta()]),
    {
        let mut v: Vec<Complex> = Vec::new();
        v.push(self.alpha);
        v.push(self.beta);
        proof {
            assert(v@ =~= seq![self.spec_alpha(), self.spec_beta()]);
        }
        complex_vector_new(v)
    }

    /// Applies a single-qubit gate to the qubit, multiplying its state by
    /// its matrix. The premise keeps out anything whose matrix is
    /// not the 2-by-2 shape a qubit state can take (the measurement marker,
    /// CNOT, and a custom gate of other dimensions).
    pub fn apply(&mut self, gate: QuantumGate)
        requires
            gate.is_single_qubit_matrix(),
        ensures
            final(self).spec_alpha() == mv2(gate, 0, old(self).spec_alpha(), old(self).spec_beta()),
            final(self).spec_beta() == mv2(gate, 1, old(self).spec_alpha(), old(self).spec_beta()),
    {
        let m = gate.matrix();
        let a = mv_row2(&m, 0, self.alpha, self.beta);
        let b = mv_row2(&m, 1, self.alpha, self.beta);
        self.alpha = a;
        self.beta = b;
    }

    /// Returns whether the qubit is exactly a computational basis state,
    /// |0> or |1>, by componentwise comparison of its amplitudes.
    pub fn is_basis_state(&self) -> (r: bool)
        ensures
            r == ((ceq(self.spec_alpha(), cval("1"@)) && ceq(self.spec_beta(), cval("0"@))) || (
            ceq(self.spec_alpha(), cval("0"@)) && ceq(self.spec_beta(), cval("1"@)))),
    {
        let one = c_lit("1");
        let zero = c_lit("0");
        (c_eq(self.alpha, one) && c_eq(self.beta, zero)) || (c_eq(self.alpha, zero) && c_eq(
            self.beta,
            one,
        ))
    }
}

impl Default for Qubit {
    /// Creates a qubit in the |0> state by default.
    fn default() -> (r: Qubit)
        ensures
            r.spec_alpha() == cval("1"@),
            r.spec_beta() == cval("0"@),
    {
        Qubit::zero()
    }
}

} // verus!
