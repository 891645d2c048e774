//! A dense matrix of fixed shape, stored row by row.

use vstd::prelude::*;
use vstd::arithmetic::div_mod::lemma_fundamental_div_mod_converse;
use crate::error::Error;
use crate::scalar::{zero, Scalar};

verus! {

/// A `rows` by `cols` matrix. The shape is fixed when the matrix is made;
/// only the entries change afterwards.
#[derive(Debug, PartialEq)]
pub struct Matrix<S: Scalar> {
    rows: usize,
    cols: usize,
    data: Vec<S>,
}

/// The cell at `(row, col)` of a row-major matrix with `cols` columns has
/// an index below `rows * cols`, and the index determines the cell.
pub proof fn lemma_cell_index(rows: int, cols: int, row: int, col: int)
    requires
        0 <= row < rows,
        0 <= col < cols,
    ensures
        0 <= row * cols + col < rows * cols,
        (row * cols + col) / cols == row,
        (row * cols + col) % cols == col,
{
    assert(row * cols + col < rows * cols && 0 <= row * cols) by (nonlinear_arith)
        requires
            0 <= row < rows,
            0 <= col < cols,
    {
        assert((row + 1) * cols <= rows * cols);
        assert((row + 1) * cols == row * cols + cols);
    }
    lemma_fundamental_div_mod_converse(row * cols + col, cols, row, col);
}

impl<S: Scalar> Matrix<S> {
    /// The number of rows.
    pub closed spec fn rows_spec(self) -> nat {
        self.rows as nat
    }

    /// The number of columns.
    pub closed spec fn cols_spec(self) -> nat {
        self.cols as nat
    }

    /// The entries, row by row.
    pub closed spec fn cells(self) -> Seq<S> {
        self.data@
    }

    /// There is one entry for each cell of the shape. This holds of every
    /// matrix at all times.
    #[verifier::type_invariant]
    pub open spec fn well_formed(self) -> bool {
        self.cells().len() == self.rows_spec() * self.cols_spec()
    }

    /// Whether `(row, col)` names a cell of the matrix.
    pub open spec fn in_shape(self, row: int, col: int) -> bool {
        0 <= row < self.rows_spec() && 0 <= col < self.cols_spec()
    }

    /// The entry at `(row, col)`.
    pub open spec fn entry(self, row: int, col: int) -> S {
        self.cells()[row * self.cols_spec() + col]
    }

    /// Whether `other` has the shape of `self`.
    pub open spec fn same_shape(self, other: Matrix<S>) -> bool {
        self.rows_spec() == other.rows_spec() && self.cols_spec() == other.cols_spec()
    }

    /// Returns the number of rows.
    pub fn rows(&self) -> (r: usize)
        ensures
            r == self.rows_spec(),
    {
        self.rows
    }

    /// Returns the number of columns.
    pub fn cols(&self) -> (r: usize)
        ensures
            r == self.cols_spec(),
    {
        self.cols
    }

    /// Makes the matrix of the given shape whose entries are all zero.
    pub fn new(rows: usize, cols: usize) -> (m: Matrix<S>)
        requires
            rows * cols <= usize::MAX,
        ensures
            m.well_formed(),
            m.rows_spec() == rows,
            m.cols_spec() == cols,
            forall|k: int| 0 <= k < rows * cols ==> m.cells()[k] == zero::<S>(),
    {
        let n: usize = rows * cols;
        let nought = S::from_count(0);
        let mut data: Vec<S> = Vec::with_capacity(n);
        let mut k: usize = 0;
        while k < n
            invariant
                k <= n,
                data@.len() == k,
                nought == zero::<S>(),
                forall|t: int| 0 <= t < k ==> data@[t] == nought,
            decreases n - k,
        {
            data.push(nought);
            k += 1;
        }
        Matrix { rows, cols, data }
    }

    /// Sets every entry to `value`.
    pub fn fill(&mut self, value: S)
        ensures
            final(self).well_formed(),
            final(self).same_shape(*old(self)),
            forall|k: int| 0 <= k < final(self).cells().len() ==> final(self).cells()[k] == value,
    {
        proof {
            use_type_invariant(&*self);
        }
        let n: usize = self.data.len();
        let mut k: usize = 0;
        while k < n
            invariant
                k <= n,
                self.data@.len() == n,
                self.well_formed(),
                self.rows == old(self).rows,
                self.cols == old(self).cols,
                forall|t: int| 0 <= t < k ==> self.data@[t] == value,
            decreases n - k,
        {
            self.data[k] = value;
            k += 1;
        }
    }

    /// Borrows the entry at `(row, col)`, or reports `OutOfBounds` where the
    /// matrix has no such cell.
    pub fn get_as_ref(&self, row: usize, col: usize) -> (r: Result<&S, Error>)
        ensures
            self.in_shape(row as int, col as int) ==> r == Ok::<&S, Error>(
                &self.entry(row as int, col as int),
            ),
            !self.in_shape(row as int, col as int) ==> r == Err::<&S, Error>(Error::OutOfBounds),
    {
        proof {
            use_type_invariant(&*self);
        }
        if row >= self.rows || col >= self.cols {
            return Err(Error::OutOfBounds);
        }
        proof {
            lemma_cell_index(self.rows as int, self.cols as int, row as int, col as int);
            assert(self.data@.len() == self.data.len());
            assert(0 <= row * self.cols) by (nonlinear_arith);
        }
        Ok(&self.data[row * self.cols + col])
    }

    /// Borrows the entry at `(row, col)` for writing, or reports `OutOfBounds`
    /// where the matrix has no such cell. What is written through the borrow
    /// becomes that entry; shape and other entries stay.
    pub fn get_as_mut_ref(&mut self, row: usize, col: usize) -> (r: Result<&mut S, Error>)
        ensures
            old(self).in_shape(row as int, col as int) ==> r is Ok,
            !old(self).in_shape(row as int, col as int) ==> r == Err::<&mut S, Error>(
                Error::OutOfBounds,
            ) && *final(self) == *old(self),
            match r {
                Ok(cell) => {
                    &&& *cell == old(self).entry(row as int, col as int)
                    &&& final(self).well_formed()
                    &&& final(self).same_shape(*old(self))
                    &&& final(self).cells() == old(self).cells().update(
                        row * old(self).cols_spec() + col,
                        *final(cell),
                    )
                },
                Err(_) => true,
            },
    {
        proof {
            use_type_invariant(&*self);
        }
        if row >= self.rows || col >= self.cols {
            return Err(Error::OutOfBounds);
        }
        proof {
            lemma_cell_index(self.rows as int, self.cols as int, row as int, col as int);
            assert(self.data@.len() == self.data.len());
            assert(0 <= row * self.cols) by (nonlinear_arith);
        }
        Ok(&mut self.data[row * self.cols + col])
    }

    /// Returns the entry at `(row, col)`, or reports `OutOfBounds` where the
    /// matrix has no such cell.
    pub fn get(&self, row: usize, col: usize) -> (r: Result<S, Error>)
        ensures
            self.in_shape(row as int, col as int) ==> r == Ok::<S, Error>(
                self.entry(row as int, col as int),
            ),
            !self.in_shape(row as int, col as int) ==> r == Err::<S, Error>(Error::OutOfBounds),
    {
        match self.get_as_ref(row, col) {
            Ok(cell) => Ok(*cell),
            Err(e) => Err(e),
        }
    }

    /// The first `k` terms of the inner product of row `i` of `self` with
    /// column `j` of `other`, added up from the left, starting at zero.
    pub open spec fn dot(self, other: Matrix<S>, i: int, j: int, k: nat) -> S
        decreases k,
    {
        if k == 0 {
            zero::<S>()
        } else {
            self.dot(other, i, j, (k - 1) as nat).plus_spec(
                self.entry(i, k - 1).times_spec(other.entry(k - 1, j)),
            )
        }
    }

    /// Whether `self` is the matrix product of `a` and `b`.
    pub open spec fn is_product_of(self, a: Matrix<S>, b: Matrix<S>) -> bool {
        &&& self.well_formed()
        &&& self.rows_spec() == a.rows_spec()
        &&& self.cols_spec() == b.cols_spec()
        &&& forall|i: int, j: int|
            self.in_shape(i, j) ==> #[trigger] self.entry(i, j) == a.dot(b, i, j, a.cols_spec())
    }

    /// Whether `self` is the entrywise sum of `a` and `b`.
    pub open spec fn is_sum_of(self, a: Matrix<S>, b: Matrix<S>) -> bool {
        &&& self.well_formed()
        &&& self.same_shape(a)
        &&& forall|k: int|
            0 <= k < self.cells().len() ==> #[trigger] self.cells()[k] == a.cells()[k].plus_spec(
                b.cells()[k],
            )
    }

    /// The matrix product `self * mat2`, or `DimensionMismatch` where `self`
    /// has not as many columns as `mat2` has rows.
    pub fn mult(&self, mat2: Matrix<S>) -> (r: Result<Matrix<S>, Error>)
        requires
            self.cols_spec() == mat2.rows_spec() ==> self.rows_spec() * mat2.cols_spec()
                <= usize::MAX,
        ensures
            self.cols_spec() == mat2.rows_spec() ==> r is Ok && r.unwrap().is_product_of(
                *self,
                mat2,
            ),
            self.cols_spec() != mat2.rows_spec() ==> r == Err::<Matrix<S>, Error>(
                Error::DimensionMismatch,
            ),
    {
        proof {
            use_type_invariant(self);
            use_type_invariant(&mat2);
        }
        if self.cols != mat2.rows {
            return Err(Error::DimensionMismatch);
        }
        let rows: usize = self.rows;
        let cols: usize = mat2.cols;
        let inner: usize = self.cols;
        let total: usize = rows * cols;
        let mut data: Vec<S> = Vec::with_capacity(total);
        let mut i: usize = 0;
        while i < rows
            invariant
                self.well_formed(),
                mat2.well_formed(),
                rows == self.rows,
                cols == mat2.cols,
                inner == self.cols,
                inner == mat2.rows,
                rows * cols <= usize::MAX,
                i <= rows,
                data@.len() == i * cols,
                forall|t: int|
                    0 <= t < data@.len() ==> #[trigger] data@[t] == self.dot(
                        mat2,
                        t / (cols as int),
                        t % (cols as int),
                        inner as nat,
                    ),
            decreases rows - i,
        {
            let mut j: usize = 0;
            while j < cols
                invariant
                    self.well_formed(),
                    mat2.well_formed(),
                    rows == self.rows,
                    cols == mat2.cols,
                    inner == self.cols,
                    inner == mat2.rows,
                    rows * cols <= usize::MAX,
                    i < rows,
                    j <= cols,
                    data@.len() == i * cols + j,
                    forall|t: int|
                        0 <= t < data@.len() ==> #[trigger] data@[t] == self.dot(
                            mat2,
                            t / (cols as int),
                            t % (cols as int),
                            inner as nat,
                        ),
                decreases cols - j,
            {
                let mut sum = S::from_count(0);
                let mut k: usize = 0;
                while k < inner
                    invariant
                        self.well_formed(),
                        mat2.well_formed(),
                        cols == mat2.cols,
                        inner == self.cols,
                        inner == mat2.rows,
                        i < self.rows,
                        j < cols,
                        k <= inner,
                        sum == self.dot(mat2, i as int, j as int, k as nat),
                    decreases inner - k,
                {
                    proof {
                        lemma_cell_index(self.rows as int, inner as int, i as int, k as int);
                        lemma_cell_index(inner as int, cols as int, k as int, j as int);
                        assert(self.data@.len() == self.data.len());
                        assert(mat2.data@.len() == mat2.data.len());
                        assert(0 <= i * inner) by (nonlinear_arith);
                        assert(0 <= k * cols) by (nonlinear_arith);
                    }
                    let a = self.data[i * inner + k];
                    let b = mat2.data[k * cols + j];
                    sum = sum.plus(a.times(b));
                    k += 1;
                }
                proof {
                    lemma_cell_index(rows as int, cols as int, i as int, j as int);
                }
                data.push(sum);
                j += 1;
            }
            proof {
                assert((i + 1) * cols == i * cols + cols) by (nonlinear_arith);
            }
            i += 1;
        }
        let product = Matrix { rows, cols, data };
        proof {
            assert forall|a: int, b: int| product.in_shape(a, b) implies #[trigger] product.entry(
                a,
                b,
            ) == self.dot(mat2, a, b, self.cols_spec()) by {
                lemma_cell_index(rows as int, cols as int, a, b);
            }
        }
        Ok(product)
    }

    /// The entrywise sum `self + mat2`, or `DimensionMismatch` where the two
    /// shapes differ.
    pub fn sum(&self, mat2: Matrix<S>) -> (r: Result<Matrix<S>, Error>)
        ensures
            self.same_shape(mat2) ==> r is Ok && r.unwrap().is_sum_of(*self, mat2),
            !self.same_shape(mat2) ==> r == Err::<Matrix<S>, Error>(Error::DimensionMismatch),
    {
        proof {
            use_type_invariant(self);
            use_type_invariant(&mat2);
        }
        if mat2.rows != self.rows || mat2.cols != self.cols {
            return Err(Error::DimensionMismatch);
        }
        let n: usize = self.data.len();
        let mut data: Vec<S> = Vec::with_capacity(n);
        let mut k: usize = 0;
        while k < n
            invariant
                k <= n,
                n == self.data@.len(),
                n == mat2.data@.len(),
                data@.len() == k,
                forall|t: int|
                    0 <= t < k ==> #[trigger] data@[t] == self.data@[t].plus_spec(mat2.data@[t]),
            decreases n - k,
        {
            data.push(self.data[k].plus(mat2.data[k]));
            k += 1;
        }
        Ok(Matrix { rows: self.rows, cols: self.cols, data })
    }
}

impl<S: Scalar> Clone for Matrix<S> {
    /// Makes a second matrix of the same shape with the same entries.
    fn clone(&self) -> (copy: Matrix<S>)
        ensures
            copy.well_formed(),
            copy.same_shape(*self),
            copy.cells() == self.cells(),
    {
        proof {
            use_type_invariant(self);
        }
        let n: usize = self.data.len();
        let mut data: Vec<S> = Vec::with_capacity(n);
        let mut k: usize = 0;
        while k < n
            invariant
                k <= n,
                n == self.data@.len(),
                data@ == self.data@.take(k as int),
            decreases n - k,
        {
            data.push(self.data[k]);
            proof {
                assert(data@ =~= self.data@.take(k + 1));
            }
            k += 1;
        }
        proof {
            assert(self.data@.take(n as int) =~= self.data@);
        }
        Matrix { rows: self.rows, cols: self.cols, data }
    }
}

} // verus!
