//! The matrix-vector product as a capability, and the shape rules that every
//! provider of it relies on.
//!
//! A matrix is a flat row-major buffer together with a number of columns and
//! of rows. A vector is a flat buffer together with an increment: only the
//! places `0, inc, 2 * inc, ..` of the buffer belong to the vector, the
//! others are slack.

use vstd::prelude::*;

verus! {

/// How the matrix operand is read before it is multiplied.
#[derive(Clone, Copy, Debug, PartialEq, Eq)]
pub enum Transpose {
    No,
    Yes,
    Conjugate,
}

/// What a provider reports when it cannot carry out a product.
pub type Error = String;

/// A row-major buffer of `len` elements holds `rows` rows of at least `cols`
/// elements each. A matrix without rows never fits.
pub open spec fn matrix_fits(cols: int, rows: int, len: int) -> bool {
    rows > 0 && len / rows >= cols
}

/// A buffer of `len` elements is a whole number of steps of `inc` elements.
/// A step of zero never fits.
pub open spec fn vector_fits(len: int, inc: int) -> bool {
    inc > 0 && len % inc == 0
}

/// The number of entries of a vector stored in `len` elements with step `inc`.
pub open spec fn logical_len(len: int, inc: int) -> int {
    len / inc
}

/// The length of the vector that `op(A)` is multiplied with.
pub open spec fn input_len(trans: Transpose, cols: int, rows: int) -> int {
    match trans {
        Transpose::No => cols,
        Transpose::Yes | Transpose::Conjugate => rows,
    }
}

/// The length of the vector that `op(A) * x` yields.
pub open spec fn output_len(trans: Transpose, cols: int, rows: int) -> int {
    match trans {
        Transpose::No => rows,
        Transpose::Yes | Transpose::Conjugate => cols,
    }
}

/// The operands of one product agree: the matrix and both vectors fit their
/// buffers, and the vectors have the lengths that `op(A)` asks for.
pub open spec fn gemv_fits(
    trans: Transpose,
    cols: int,
    rows: int,
    matrix_len: int,
    in_len: int,
    in_inc: int,
    out_len: int,
    out_inc: int,
) -> bool {
    &&& matrix_fits(cols, rows, matrix_len)
    &&& vector_fits(in_len, in_inc)
    &&& vector_fits(out_len, out_inc)
    &&& logical_len(in_len, in_inc) == input_len(trans, cols, rows)
    &&& logical_len(out_len, out_inc) == output_len(trans, cols, rows)
}

/// Every place of `after` that no step of `inc` reaches holds what `before`
/// held there.
pub open spec fn slack_kept<T>(before: Seq<T>, after: Seq<T>, inc: int) -> bool {
    &&& after.len() == before.len()
    &&& forall|i: int| 0 <= i < before.len() && i % inc != 0 ==> after[i] == before[i]
}

/// The matrix-vector product `y := alpha * op(A) * x + beta * y`.
///
/// The contract of `gemv` is what callers may rely on and what every provider
/// has to meet. Nothing here proves it of a provider: one that computes
/// outside this library is taken at its word.
pub trait Blas<T> {
    /// Overwrites the entries of `out_vector` with
    /// `product_factor * op(matrix) * in_vector + out_vector_factor * out_vector`.
    ///
    /// The operands must agree in shape. Whatever the outcome, the buffer
    /// keeps its length; on success the slack between the entries of
    /// `out_vector` is left as it was.
    fn gemv(
        &mut self,
        trans: Transpose,
        cols: usize,
        rows: usize,
        matrix: &[T],
        in_vector: &[T],
        in_vector_inc: usize,
        product_factor: T,
        out_vector: &mut [T],
        out_vector_inc: usize,
        out_vector_factor: T,
    ) -> (result: Result<(), Error>)
        requires
            gemv_fits(
                trans,
                cols as int,
                rows as int,
                matrix@.len() as int,
                in_vector@.len() as int,
                in_vector_inc as int,
                old(out_vector)@.len() as int,
                out_vector_inc as int,
            ),
        ensures
            final(out_vector)@.len() == old(out_vector)@.len(),
            result is Ok ==> slack_kept(
                old(out_vector)@,
                final(out_vector)@,
                out_vector_inc as int,
            ),
    ;
}

/// Whether `matrix` can hold `rows` rows of `cols` elements.
#[inline]
#[must_use]
pub fn matrix_ok<T>(cols: usize, rows: usize, matrix: &[T]) -> (ok: bool)
    ensures
        ok == matrix_fits(cols as int, rows as int, matrix@.len() as int),
{
    rows != 0 && matrix.len() / rows >= cols
}

/// Whether `vector` is made of whole steps of `vector_inc` elements.
#[inline]
#[must_use]
pub fn vector_ok<T>(vector: &[T], vector_inc: usize) -> (ok: bool)
    ensures
        ok == vector_fits(vector@.len() as int, vector_inc as int),
{
    vector_inc != 0 && vector.len() % vector_inc == 0
}

/// Whether the operands of one product agree in shape.
#[inline]
#[must_use]
pub fn gemv_ok<T>(
    trans: Transpose,
    cols: usize,
    rows: usize,
    matrix: &[T],
    in_vector: &[T],
    in_vector_inc: usize,
    out_vector: &[T],
    out_vector_inc: usize,
) -> (ok: bool)
    ensures
        ok == gemv_fits(
            trans,
            cols as int,
            rows as int,
            matrix@.len() as int,
            in_vector@.len() as int,
            in_vector_inc as int,
            out_vector@.len() as int,
            out_vector_inc as int,
        ),
{
    if !matrix_ok(cols, rows, matrix) {
        return false;
    }
    if !vector_ok(in_vector, in_vector_inc) {
        return false;
    }
    if !vector_ok(out_vector, out_vector_inc) {
        return false;
    }
    match trans {
        Transpose::No => {
            in_vector.len() / in_vector_inc == cols && out_vector.len() / out_vector_inc == rows
        },
        _ => {
            in_vector.len() / in_vector_inc == rows && out_vector.len() / out_vector_inc == cols
        },
    }
}

/// States that `matrix` holds `rows` rows of `cols` elements. A matrix that
/// does not is a fault of the caller and cannot be passed.
#[inline]
pub fn assert_matrix<T>(cols: usize, rows: usize, matrix: &[T])
    requires
        matrix_fits(cols as int, rows as int, matrix@.len() as int),
    ensures
        matrix_fits(cols as int, rows as int, matrix@.len() as int),
{
    assert(matrix.len() / rows >= cols);
}

/// States that `vector` is made of whole steps of `vector_inc` elements. A
/// vector that is not is a fault of the caller and cannot be passed.
#[inline]
pub fn assert_vector<T>(vector: &[T], vector_inc: usize)
    requires
        vector_fits(vector@.len() as int, vector_inc as int),
    ensures
        vector_fits(vector@.len() as int, vector_inc as int),
{
    assert(vector.len() % vector_inc == 0);
}

/// States that the operands of one product agree in shape. Operands that do
/// not are a fault of the caller and cannot be passed.
#[inline]
pub fn assert_gemv<T>(
    trans: Transpose,
    cols: usize,
    rows: usize,
    matrix: &[T],
    in_vector: &[T],
    in_vector_inc: usize,
    out_vector: &[T],
    out_vector_inc: usize,
)
    requires
        gemv_fits(
            trans,
            cols as int,
            rows as int,
            matrix@.len() as int,
            in_vector@.len() as int,
            in_vector_inc as int,
            out_vector@.len() as int,
            out_vector_inc as int,
        ),
    ensures
        gemv_fits(
            trans,
            cols as int,
            rows as int,
            matrix@.len() as int,
            in_vector@.len() as int,
            in_vector_inc as int,
            out_vector@.len() as int,
            out_vector_inc as int,
        ),
{
    assert_matrix(cols, rows, matrix);
    assert_vector(in_vector, in_vector_inc);
    assert_vector(out_vector, out_vector_inc);
    match trans {
        Transpose::No => {
            assert(in_vector.len() / in_vector_inc == cols);
            assert(out_vector.len() / out_vector_inc == rows);
        },
        _ => {
            assert(in_vector.len() / in_vector_inc == rows);
            assert(out_vector.len() / out_vector_inc == cols);
        },
    }
}

/// The place in a row-major buffer of the element in row `row` and column
/// `col`, where each row takes up `leading` elements.
pub open spec fn matrix_place(row: int, col: int, leading: int) -> int {
    row * leading + col
}

/// The place in its buffer of entry `k` of a vector with step `inc`.
pub open spec fn vector_place(k: int, inc: int) -> int {
    k * inc
}

/// For the shape rules the conjugate transpose is the transpose.
pub proof fn lemma_conjugate_fits_as_transpose(
    cols: int,
    rows: int,
    matrix_len: int,
    in_len: int,
    in_inc: int,
    out_len: int,
    out_inc: int,
)
    ensures
        gemv_fits(Transpose::Conjugate, cols, rows, matrix_len, in_len, in_inc, out_len, out_inc)
            == gemv_fits(Transpose::Yes, cols, rows, matrix_len, in_len, in_inc, out_len, out_inc),
{
}

/// Transposing swaps the roles of the two vectors: the operands of a plain
/// product agree exactly when those of the transposed product agree with the
/// vectors exchanged.
pub proof fn lemma_transpose_swaps_vectors(
    cols: int,
    rows: int,
    matrix_len: int,
    x_len: int,
    x_inc: int,
    y_len: int,
    y_inc: int,
)
    ensures
        gemv_fits(Transpose::No, cols, rows, matrix_len, x_len, x_inc, y_len, y_inc)
            == gemv_fits(Transpose::Yes, cols, rows, matrix_len, y_len, y_inc, x_len, x_inc),
{
}

/// Where the operands agree, every element of the matrix and every entry of
/// the two vectors that the product reaches lies inside its buffer, each row
/// of the matrix taking up an equal share of the matrix buffer.
pub proof fn lemma_places_in_bounds(
    trans: Transpose,
    cols: int,
    rows: int,
    matrix_len: int,
    in_len: int,
    in_inc: int,
    out_len: int,
    out_inc: int,
)
    requires
        0 <= cols,
        0 <= matrix_len,
        0 <= in_len,
        0 <= out_len,
        gemv_fits(trans, cols, rows, matrix_len, in_len, in_inc, out_len, out_inc),
    ensures
        forall|row: int, col: int|
            0 <= row < rows && 0 <= col < cols ==> 0 <= #[trigger] matrix_place(
                row,
                col,
                matrix_len / rows,
            ) < matrix_len,
        forall|k: int|
            0 <= k < input_len(trans, cols, rows) ==> 0 <= #[trigger] vector_place(k, in_inc)
                < in_len,
        forall|k: int|
            0 <= k < output_len(trans, cols, rows) ==> 0 <= #[trigger] vector_place(k, out_inc)
                < out_len,
{
    let leading = matrix_len / rows;
    assert(rows * leading <= matrix_len) by (nonlinear_arith)
        requires
            rows > 0,
            matrix_len >= 0,
            leading == matrix_len / rows,
    ;
    assert forall|row: int, col: int| 0 <= row < rows && 0 <= col < cols implies 0
        <= #[trigger] matrix_place(row, col, leading) < matrix_len by {
        assert(0 <= row * leading && row * leading + leading <= rows * leading)
            by (nonlinear_arith)
            requires
                0 <= row < rows,
                0 <= leading,
        ;
    }
    lemma_entries_in_bounds(in_len, in_inc);
    lemma_entries_in_bounds(out_len, out_inc);
}

/// Every entry of a vector that fits its buffer lies inside the buffer.
pub proof fn lemma_entries_in_bounds(len: int, inc: int)
    requires
        0 <= len,
        vector_fits(len, inc),
    ensures
        forall|k: int|
            0 <= k < logical_len(len, inc) ==> 0 <= #[trigger] vector_place(k, inc) < len,
{
    let count = len / inc;
    assert(len == count * inc) by (nonlinear_arith)
        requires
            inc > 0,
            len % inc == 0,
            count == len / inc,
    ;
    assert forall|k: int| 0 <= k < count implies 0 <= #[trigger] vector_place(k, inc) < len by {
        assert(0 <= k * inc && k * inc + inc <= count * inc) by (nonlinear_arith)
            requires
                0 <= k < count,
                0 < inc,
        ;
    }
}

} // verus!
