//! Trusted bridge to the `rusticle` numeric types and to `rand`.
//!
//! Amplitudes are complex floating-point numbers, which this library holds as
//! opaque values of `rusticle`'s types. Each numeric step the engine takes is
//! given a spec-level name by an uninterpreted function, and a small
//! executable wrapper relies on the corresponding `rusticle` item to compute
//! it. Contracts elsewhere in the crate speak of these names; nothing outside
//! this module calls `rusticle` directly.

use vstd::prelude::*;
use rusticle::complex::Complex;
use rusticle::complex::ComplexVector;
use rusticle::linalg::Matrix;

verus! {

#[verifier::external_type_specification]
#[verifier::external_body]
pub struct ExComplex(Complex);

#[verifier::external_type_specification]
#[verifier::external_body]
#[verifier::reject_recursive_types(T)]
pub struct ExMatrix<T>(Matrix<T>);

#[verifier::external_type_specification]
#[verifier::external_body]
pub struct ExComplexVector(ComplexVector);

/// The complex number that `Complex::from_str` reads from the given text,
/// or zero where the text does not parse.
pub uninterp spec fn cval(s: Seq<char>) -> Complex;

/// The sum of two complex numbers, as `Add for Complex` computes it.
pub uninterp spec fn cadd(a: Complex, b: Complex) -> Complex;

/// The difference of two complex numbers, as `Sub for Complex` computes it.
pub uninterp spec fn csub(a: Complex, b: Complex) -> Complex;

/// The product of two complex numbers, as `Mul for Complex` computes it.
pub uninterp spec fn cmul(a: Complex, b: Complex) -> Complex;

/// The negation of a complex number, as `Neg for Complex` computes it.
pub uninterp spec fn cneg(a: Complex) -> Complex;

/// The complex exponential, as `Complex::exp` computes it.
pub uninterp spec fn cexp(a: Complex) -> Complex;

/// The number with both parts rounded to 8 decimal places, the engine's
/// numerical cleanup.
pub uninterp spec fn cround(a: Complex) -> Complex;

/// Whether the derived `PartialEq for Complex` holds the two numbers equal
/// (componentwise equality of the floating parts).
pub uninterp spec fn ceq(a: Complex, b: Complex) -> bool;

/// Whether `|a|^2 + |b|^2` lies within the admission tolerance of 1, the
/// normalization check for a qubit state.
pub uninterp spec fn cnormed(a: Complex, b: Complex) -> bool;

/// The text that the default formatting renders for the real part of the
/// number.
pub uninterp spec fn ctext(a: Complex) -> Seq<char>;

/// The text that fixed-precision formatting with the given number of decimal
/// places renders for the real part of the number.
pub uninterp spec fn ctext_fixed(a: Complex, decimals: int) -> Seq<char>;

/// The entry of a matrix at the given row and column, as `Matrix::get`
/// returns it.
pub uninterp spec fn ment(m: Matrix<Complex>, row: int, col: int) -> Complex;

/// The number of rows of a matrix, as `Matrix::rows` returns it.
pub uninterp spec fn mrows(m: Matrix<Complex>) -> int;

/// The number of columns of a matrix, as `Matrix::cols` returns it.
pub uninterp spec fn mcols(m: Matrix<Complex>) -> int;

/// The complex vector holding the given components, as `ComplexVector::new`
/// builds it.
pub uninterp spec fn cvec(s: Seq<Complex>) -> ComplexVector;

/// Whether rand's `WeightedIndex::new` admits the squared magnitudes of the
/// amplitudes as sampling weights: some amplitude exists, no squared
/// magnitude is negative or not-a-number, and their total is positive and
/// finite. A function of the amplitude vector alone.
pub uninterp spec fn weights_admitted(amps: Seq<Complex>) -> bool;

/// Relies on the derived `Clone for Complex`: the type is `Copy`, so the
/// clone is the value itself.
pub assume_specification[ <Complex as Clone>::clone ](c: &Complex) -> (r: Complex)
    ensures
        r == *c,
;

/// Gives the derived `Clone for Matrix` a signature Verus accepts. Nothing
/// is promised here: over an arbitrary entry type the derived clone clones
/// each entry. The wrapper `matrix_clone` below states the field-for-field
/// copy for complex matrices.
pub assume_specification<T: Clone>[ <Matrix<T> as Clone>::clone ](m: &Matrix<T>) -> (r: Matrix<
    T,
>);

/// Relies on rusticle's `Complex::from_str`: the parsed number is a function
/// of the text alone. A text that does not parse yields the default (zero);
/// every caller in this crate passes a literal that parses.
#[verifier::external_body]
pub(crate) fn c_lit(s: &str) -> (r: Complex)
    ensures
        r == cval(s@),
{
    match Complex::from_str(s) {
        Ok(c) => c,
        Err(_) => Complex::default(),
    }
}

/// Relies on rusticle's `Add for Complex`: componentwise addition.
#[verifier::external_body]
pub(crate) fn c_add(a: Complex, b: Complex) -> (r: Complex)
    ensures
        r == cadd(a, b),
{
    a + b
}

/// Relies on rusticle's `Sub for Complex`: componentwise subtraction.
#[verifier::external_body]
pub(crate) fn c_sub(a: Complex, b: Complex) -> (r: Complex)
    ensures
        r == csub(a, b),
{
    a - b
}

/// Relies on rusticle's `Mul for Complex`: the complex product.
#[verifier::external_body]
pub(crate) fn c_mul(a: Complex, b: Complex) -> (r: Complex)
    ensures
        r == cmul(a, b),
{
    a * b
}

/// Relies on rusticle's `Neg for Complex`: componentwise negation.
#[verifier::external_body]
pub(crate) fn c_neg(a: Complex) -> (r: Complex)
    ensures
        r == cneg(a),
{
    -a
}

/// Relies on rusticle's `Complex::exp`: Euler's formula on the value.
#[verifier::external_body]
pub(crate) fn c_exp(a: &Complex) -> (r: Complex)
    ensures
        r == cexp(*a),
{
    a.exp()
}

/// Relies on fixed-precision formatting and rusticle's `Complex::from_str`:
/// rounds the real and the imaginary part to 8 decimal places each. A part
/// within the cleanup tolerance of one of 0, 0.5, -0.5, 1, -1 thereby lands
/// exactly on that value. A part that does not round-trip (it is not finite)
/// is kept as it is.
#[verifier::external_body]
pub(crate) fn c_round(c: Complex) -> (r: Complex)
    ensures
        r == cround(c),
{
    let rounded = [c.real, c.imag].map(|v| {
        if !v.is_finite() {
            return v;
        }
        match Complex::from_str(&format!("{:.8}", v)) {
            Ok(x) => x.real,
            Err(_) => v,
        }
    });
    Complex::new(rounded[0], rounded[1])
}

/// Relies on the derived `PartialEq for Complex`: componentwise equality of
/// the floating parts.
#[verifier::external_body]
pub(crate) fn c_eq(a: Complex, b: Complex) -> (r: bool)
    ensures
        r == ceq(a, b),
{
    a == b
}

/// Relies on rusticle's `Complex::norm_squared` and `Complex::from_str`:
/// holds exactly when `|a|^2 + |b|^2` differs from 1 by at most the
/// admission tolerance of 1e-10.
#[verifier::external_body]
pub(crate) fn c_normalized(a: Complex, b: Complex) -> (r: bool)
    ensures
        r == cnormed(a, b),
{
    let one = Complex::from_str("1").map(|c| c.real).unwrap_or_default();
    let tol = Complex::from_str("0.0000000001").map(|c| c.real).unwrap_or_default();
    let n = a.norm_squared() + b.norm_squared();
    (n - one).abs() <= tol
}

/// Relies on the default formatting of the primitive floating type, through
/// `format!`: renders the real part of the number.
#[verifier::external_body]
pub(crate) fn fmt_real(c: &Complex) -> (r: String)
    ensures
        r@ == ctext(*c),
{
    format!("{}", c.real)
}

/// Relies on fixed-precision formatting of the primitive floating type,
/// through `format!`: renders the real part of the number with the given
/// number of decimal places.
#[verifier::external_body]
pub(crate) fn fmt_real_fixed(c: &Complex, decimals: usize) -> (r: String)
    ensures
        r@ == ctext_fixed(*c, decimals as int),
{
    format!("{:.*}", decimals, c.real)
}

/// Relies on rusticle's `Matrix::new`: a row-major matrix over the given
/// data, whose `rows`, `cols` and `get` return what was passed in. The
/// length premise keeps out the input on which `Matrix::new` panics.
#[verifier::external_body]
pub(crate) fn matrix_new(rows: usize, cols: usize, data: Vec<Complex>) -> (r: Matrix<Complex>)
    requires
        data@.len() == rows * cols,
    ensures
        mrows(r) == rows,
        mcols(r) == cols,
        forall|i: int, j: int|
            0 <= i < rows && 0 <= j < cols ==> ment(r, i, j) == data@[i * cols + j],
{
    Matrix::new(rows, cols, data)
}

/// Relies on rusticle's `Matrix::get`: the entry at the given row and
/// column. The premises keep out the indices on which `get` panics; every
/// safely built matrix holds `rows * cols` entries.
#[verifier::external_body]
pub(crate) fn matrix_get(m: &Matrix<Complex>, row: usize, col: usize) -> (r: Complex)
    requires
        row < mrows(*m),
        col < mcols(*m),
    ensures
        r == ment(*m, row as int, col as int),
{
    *m.get(row, col)
}

/// Relies on rusticle's `Matrix::rows`.
#[verifier::external_body]
pub(crate) fn matrix_rows(m: &Matrix<Complex>) -> (r: usize)
    ensures
        r == mrows(*m),
{
    m.rows()
}

/// Relies on rusticle's `Matrix::cols`.
#[verifier::external_body]
pub(crate) fn matrix_cols(m: &Matrix<Complex>) -> (r: usize)
    ensures
        r == mcols(*m),
{
    m.cols()
}

/// Relies on the derived `Clone for Matrix`: a field-for-field copy with the
/// same dimensions and entries.
#[verifier::external_body]
pub(crate) fn matrix_clone(m: &Matrix<Complex>) -> (r: Matrix<Complex>)
    ensures
        r == *m,
{
    m.clone()
}

/// Relies on rusticle's `ComplexVector::new`: the vector over the given
/// components.
#[verifier::external_body]
pub(crate) fn complex_vector_new(components: Vec<Complex>) -> (r: ComplexVector)
    ensures
        r == cvec(components@),
{
    ComplexVector::new(components)
}

/// Relies on rand's `WeightedIndex` over the squared magnitudes of the
/// amplitudes (rusticle's `Complex::norm_squared`), sampled once with the
/// thread-local generator: one basis-state index, always within bounds.
/// Whether `WeightedIndex::new` admits or rejects the weights is a function
/// of the amplitude vector alone, named by [`weights_admitted`]; which
/// index comes back on admission depends on the generator's state, so
/// nothing more is promised of the `Some` case.
#[verifier::external_body]
pub(crate) fn sample_basis_index(amps: &Vec<Complex>) -> (r: Option<usize>)
    ensures
        r is Some <==> weights_admitted(amps@),
        r matches Some(i) ==> i < amps@.len(),
{
    let weights: Vec<_> = amps.iter().map(|a| a.norm_squared()).collect();
    match rand::distr::weighted::WeightedIndex::new(&weights) {
        Ok(dist) => Some(rand::distr::Distribution::sample(&dist, &mut rand::rng())),
        Err(_) => None,
    }
}

} // verus!
