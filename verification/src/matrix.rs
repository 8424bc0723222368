//! Wrappers for matrices and arrays: data in column-major order together
//! with its dimensions.
use vstd::prelude::*;
use vstd::arithmetic::div_mod::lemma_fundamental_div_mod_converse;

verus! {

/// Wrapper for creating and using matrices and arrays.
#[derive(Debug, PartialEq)]
pub struct RArray<T, D> {
    data: T,
    dim: D,
}

pub type RColumn<T> = RArray<T, [usize; 1]>;

pub type RMatrix<T> = RArray<T, [usize; 2]>;

pub type RMatrix3D<T> = RArray<T, [usize; 3]>;

/// Column-major offset of `(i, j)` in a matrix with `nrows` rows.
pub open spec fn offset2(nrows: int, i: int, j: int) -> int {
    i + nrows * j
}

/// Column-major offset of `(i, j, k)` in an array of `nrows` by `ncols`
/// submatrices.
pub open spec fn offset3(nrows: int, ncols: int, i: int, j: int, k: int) -> int {
    i + nrows * (j + ncols * k)
}

impl<T, D> RArray<T, D> {
    /// The data of this array.
    pub closed spec fn spec_data(&self) -> T {
        self.data
    }

    /// The dimensions of this array.
    pub closed spec fn spec_dim(&self) -> D {
        self.dim
    }

    /// Get the underlying data for this array.
    pub fn data(&self) -> (r: &T)
        ensures
            *r == self.spec_data(),
    {
        &self.data
    }

    /// Get the dimensions for this array.
    pub fn dim(&self) -> (r: &D)
        ensures
            *r == self.spec_dim(),
    {
        &self.dim
    }
}

impl<T> RArray<T, [usize; 1]> {
    /// Make a new vector type.
    pub fn new(data: T, nrows: usize) -> (r: Self)
        ensures
            r.spec_data() == data,
            r.spec_dim()@ == seq![nrows],
    {
        let dim = [nrows];
        RArray { data, dim }
    }

    /// Get the number of rows.
    pub fn nrows(&self) -> (n: usize)
        ensures
            n == self.spec_dim()@[0],
    {
        self.dim[0]
    }

    /// Get the offset into the array for a given index. An index out of
    /// bounds panics.
    pub fn offset(&self, index: [usize; 1]) -> (r: usize)
        requires
            index@[0] < self.spec_dim()@[0],
        ensures
            r == index@[0],
    {
        index[0]
    }
}

impl<T> RArray<T, [usize; 2]> {
    /// Create a new matrix wrapper.
    pub fn new(data: T, nrows: usize, ncols: usize) -> (r: Self)
        ensures
            r.spec_data() == data,
            r.spec_dim()@ == seq![nrows, ncols],
    {
        let dim = [nrows, ncols];
        RArray { data, dim }
    }

    /// Get the number of rows.
    pub fn nrows(&self) -> (n: usize)
        ensures
            n == self.spec_dim()@[0],
    {
        self.dim[0]
    }

    /// Get the number of columns.
    pub fn ncols(&self) -> (n: usize)
        ensures
            n == self.spec_dim()@[1],
    {
        self.dim[1]
    }

    /// Get the column-major offset into the data for a given (row, column)
    /// index. An index out of bounds panics.
    pub fn offset(&self, index: [usize; 2]) -> (r: usize)
        requires
            index@[0] < self.spec_dim()@[0],
            index@[1] < self.spec_dim()@[1],
            offset2(self.spec_dim()@[0] as int, index@[0] as int, index@[1] as int) <= usize::MAX,
        ensures
            r == offset2(self.spec_dim()@[0] as int, index@[0] as int, index@[1] as int),
    {
        let i: usize = index[0];
        let j: usize = index[1];
        let rows: usize = self.dim[0];
        assert(rows * j <= usize::MAX) by (nonlinear_arith)
            requires
                i + rows * j <= usize::MAX,
                i >= 0,
        ;
        i + rows * j
    }
}

impl<T> RArray<T, [usize; 3]> {
    /// Create a new three-dimensional array wrapper.
    pub fn new(data: T, nrows: usize, ncols: usize, nsub: usize) -> (r: Self)
        ensures
            r.spec_data() == data,
            r.spec_dim()@ == seq![nrows, ncols, nsub],
    {
        let dim = [nrows, ncols, nsub];
        RArray { data, dim }
    }

    /// Get the number of rows.
    pub fn nrows(&self) -> (n: usize)
        ensures
            n == self.spec_dim()@[0],
    {
        self.dim[0]
    }

    /// Get the number of columns.
    pub fn ncols(&self) -> (n: usize)
        ensures
            n == self.spec_dim()@[1],
    {
        self.dim[1]
    }

    /// Get the number of submatrices.
    pub fn nsub(&self) -> (n: usize)
        ensures
            n == self.spec_dim()@[2],
    {
        self.dim[2]
    }

    /// Get the column-major offset into the data for a given (row, column,
    /// submatrix) index. An index out of bounds panics.
    pub fn offset(&self, index: [usize; 3]) -> (r: usize)
        requires
            index@[0] < self.spec_dim()@[0],
            index@[1] < self.spec_dim()@[1],
            index@[2] < self.spec_dim()@[2],
            index@[1] + self.spec_dim()@[1] * index@[2] <= usize::MAX,
            offset3(
                self.spec_dim()@[0] as int,
                self.spec_dim()@[1] as int,
                index@[0] as int,
                index@[1] as int,
                index@[2] as int,
            ) <= usize::MAX,
        ensures
            r == offset3(
                self.spec_dim()@[0] as int,
                self.spec_dim()@[1] as int,
                index@[0] as int,
                index@[1] as int,
                index@[2] as int,
            ),
    {
        let i: usize = index[0];
        let j: usize = index[1];
        let k: usize = index[2];
        let rows: usize = self.dim[0];
        let cols: usize = self.dim[1];
        assert(cols * k <= usize::MAX && rows * (j + cols * k) <= usize::MAX) by (nonlinear_arith)
            requires
                i + rows * (j + cols * k) <= usize::MAX,
                j + cols * k <= usize::MAX,
                i >= 0,
                j >= 0,
        ;
        i + rows * (j + cols * k)
    }
}

impl<E> RArray<Vec<E>, [usize; 2]> {
    /// Zero-based indexing in row, column order. Panics if out of bounds.
    pub fn index(&self, index: [usize; 2]) -> (r: &E)
        requires
            index@[0] < self.spec_dim()@[0],
            index@[1] < self.spec_dim()@[1],
            offset2(self.spec_dim()@[0] as int, index@[0] as int, index@[1] as int) < self.spec_data()@.len(),
        ensures
            *r == self.spec_data()@[offset2(self.spec_dim()@[0] as int, index@[0] as int, index@[1] as int)],
    {
        let _n: usize = self.data.len();
        let offset: usize = self.offset(index);
        &self.data[offset]
    }

    /// Zero-based mutable indexing in row, column order. Panics if out of
    /// bounds. Writing through the reference changes that element only.
    pub fn index_mut(&mut self, index: [usize; 2]) -> (r: &mut E)
        requires
            index@[0] < old(self).spec_dim()@[0],
            index@[1] < old(self).spec_dim()@[1],
            offset2(old(self).spec_dim()@[0] as int, index@[0] as int, index@[1] as int) < old(
                self,
            ).spec_data()@.len(),
        ensures
            *r == old(self).spec_data()@[offset2(
                old(self).spec_dim()@[0] as int,
                index@[0] as int,
                index@[1] as int,
            )],
            final(self).spec_dim() == old(self).spec_dim(),
            final(self).spec_data()@ == old(self).spec_data()@.update(
                offset2(old(self).spec_dim()@[0] as int, index@[0] as int, index@[1] as int),
                *final(r),
            ),
    {
        let _n: usize = self.data.len();
        let offset: usize = self.offset(index);
        &mut self.data[offset]
    }
}

/// Column-major storage of a matrix is a bijection between the indices
/// within its dimensions and the offsets below `nrows * ncols`: the row is
/// the offset modulo `nrows` and the column the offset divided by `nrows`.
pub proof fn lemma_offset2_bijective(nrows: int, ncols: int, i: int, j: int)
    requires
        0 <= i < nrows,
        0 <= j < ncols,
    ensures
        0 <= offset2(nrows, i, j) < nrows * ncols,
        offset2(nrows, i, j) % nrows == i,
        offset2(nrows, i, j) / nrows == j,
{
    assert(offset2(nrows, i, j) == j * nrows + i) by (nonlinear_arith);
    lemma_fundamental_div_mod_converse(offset2(nrows, i, j), nrows, j, i);
    assert(nrows * j + i < nrows * ncols) by (nonlinear_arith)
        requires
            0 <= i < nrows,
            0 <= j < ncols,
    ;
    assert(0 <= nrows * j) by (nonlinear_arith)
        requires
            0 <= nrows,
            0 <= j,
    ;
}

/// The same for three-dimensional arrays: the offset determines the row,
/// the column and the submatrix, and stays below the number of elements.
pub proof fn lemma_offset3_bijective(nrows: int, ncols: int, nsub: int, i: int, j: int, k: int)
    requires
        0 <= i < nrows,
        0 <= j < ncols,
        0 <= k < nsub,
    ensures
        0 <= offset3(nrows, ncols, i, j, k) < nrows * ncols * nsub,
        offset3(nrows, ncols, i, j, k) % nrows == i,
        (offset3(nrows, ncols, i, j, k) / nrows) % ncols == j,
        (offset3(nrows, ncols, i, j, k) / nrows) / ncols == k,
{
    let inner = offset2(ncols, j, k);
    lemma_offset2_bijective(ncols, nsub, j, k);
    lemma_offset2_bijective(nrows, ncols * nsub, i, inner);
    assert(nrows * (ncols * nsub) == nrows * ncols * nsub) by (nonlinear_arith);
}

} // verus!
