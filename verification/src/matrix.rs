//! The matrix core: the `Mat` container itself, its well-formedness
//! invariant, construction helpers, and bounds-checked element access.

use vstd::prelude::*;

verus! {

/// A dense rectangular matrix with `rows * cols` elements stored row-major in
/// a flat backing vector: the element at coordinate `(i, j)` lives at flat
/// offset `i * cols + j`.
#[derive(Debug)]
pub struct Mat<T> {
    pub rows: usize,
    pub cols: usize,
    pub data: Vec<T>,
}

/// An unrecoverable precondition violation: a shape that does not fit the
/// operation, or a coordinate outside the matrix. Each variant carries the
/// two quantities whose comparison failed.
#[derive(Debug, Clone, Copy, PartialEq, Eq, Structural)]
pub enum Violation {
    /// The two operands of an elementwise operation differ in row count.
    RowsMismatch { left: usize, right: usize },
    /// The two operands of an elementwise operation differ in column count.
    ColsMismatch { left: usize, right: usize },
    /// The left operand's column count differs from the right operand's row
    /// count in a matrix product.
    InnerMismatch { left_cols: usize, right_rows: usize },
    /// A row coordinate outside the valid half-open range `[0, bound)`.
    RowOutOfRange { bound: usize, got: usize },
    /// A column coordinate outside the valid half-open range `[0, bound)`.
    ColOutOfRange { bound: usize, got: usize },
    /// A row of a grid literal whose length differs from the first row's.
    RaggedRow { expected: usize, got: usize },
}

/// A coordinate `(i, j)` with `i < rows` and `j < cols` has its flat
/// row-major offset `i * cols + j` inside `[0, rows * cols)`.
pub proof fn lemma_flat_offset_bounds(i: int, j: int, rows: int, cols: int)
    requires
        0 <= i < rows,
        0 <= j < cols,
    ensures
        0 <= i * cols + j < rows * cols,
{
    assert(0 <= i * cols + j < rows * cols) by (nonlinear_arith)
        requires
            0 <= i < rows,
            0 <= j < cols,
    ;
}

impl<T> Mat<T> {
    /// The structural invariant: the backing store holds exactly one element
    /// per coordinate. It holds after every completed operation; only the
    /// `empty` builder hands out a matrix that does not yet satisfy it.
    pub open spec fn wf(self) -> bool {
        self.data@.len() == self.rows * self.cols
    }

    /// Whether `(i, j)` is a valid coordinate of this matrix.
    pub open spec fn in_range(self, i: int, j: int) -> bool {
        0 <= i < self.rows && 0 <= j < self.cols
    }

    /// The flat row-major offset of coordinate `(i, j)`.
    pub open spec fn offset_of(self, i: int, j: int) -> int {
        i * self.cols + j
    }

    /// The element at coordinate `(i, j)`.
    pub open spec fn cell(self, i: int, j: int) -> T {
        self.data@[self.offset_of(i, j)]
    }

    /// Whether this matrix and `other` have the same dimensions.
    pub open spec fn shape_eq<U>(self, other: Mat<U>) -> bool {
        self.rows == other.rows && self.cols == other.cols
    }

    /// A matrix shell with the given declared dimensions and an empty backing
    /// store. A caller that intends to complete it must push exactly
    /// `rows * cols` elements before treating it as well-formed.
    pub fn empty(rows: usize, cols: usize) -> (m: Mat<T>)
        ensures
            m.rows == rows,
            m.cols == cols,
            m.data@ == Seq::<T>::empty(),
    {
        Mat { rows, cols, data: Vec::new() }
    }

    /// A read-only reference to the element at coordinate `(i, j)`.
    pub fn index(&self, i: usize, j: usize) -> (r: &T)
        requires
            self.wf(),
            i < self.rows,
            j < self.cols,
        ensures
            *r == self.cell(i as int, j as int),
    {
        proof {
            lemma_flat_offset_bounds(i as int, j as int, self.rows as int, self.cols as int);
            vstd::std_specs::vec::axiom_spec_len(&self.data);
        }
        &self.data[i * self.cols + j]
    }

    /// A mutable reference to the element at coordinate `(i, j)`; the backing
    /// store afterwards is the old one with that single offset replaced by
    /// whatever the caller leaves behind the reference.
    pub fn index_mut(&mut self, i: usize, j: usize) -> (r: &mut T)
        requires
            old(self).wf(),
            i < old(self).rows,
            j < old(self).cols,
        ensures
            *r == old(self).cell(i as int, j as int),
            final(self).rows == old(self).rows,
            final(self).cols == old(self).cols,
            final(self).data@ == old(self).data@.update(
                old(self).offset_of(i as int, j as int),
                *final(r),
            ),
            final(self).wf(),
    {
        proof {
            lemma_flat_offset_bounds(i as int, j as int, self.rows as int, self.cols as int);
            vstd::std_specs::vec::axiom_spec_len(&self.data);
        }
        &mut self.data[i * self.cols + j]
    }

    /// Bounds-checked element access: the element at `(i, j)`, or the
    /// out-of-range violation naming the bound that was crossed, the row
    /// bound being checked first.
    pub fn checked_index(&self, i: usize, j: usize) -> (r: Result<&T, Violation>)
        requires
            self.wf(),
        ensures
            match r {
                Ok(v) => self.in_range(i as int, j as int) && *v == self.cell(i as int, j as int),
                Err(e) => if i >= self.rows {
                    e == (Violation::RowOutOfRange { bound: self.rows, got: i })
                } else {
                    j >= self.cols && e == (Violation::ColOutOfRange { bound: self.cols, got: j })
                },
            },
    {
        if i >= self.rows {
            Err(Violation::RowOutOfRange { bound: self.rows, got: i })
        } else if j >= self.cols {
            Err(Violation::ColOutOfRange { bound: self.cols, got: j })
        } else {
            Ok(self.index(i, j))
        }
    }
}

impl<T: Copy> Mat<T> {
    /// A `rows x cols` matrix with every cell holding an independent copy of
    /// `value`.
    pub fn fill(value: T, rows: usize, cols: usize) -> (m: Mat<T>)
        requires
            rows * cols <= usize::MAX,
        ensures
            m.rows == rows,
            m.cols == cols,
            m.wf(),
            forall|k: int| 0 <= k < m.data@.len() ==> m.data@[k] == value,
            forall|i: int, j: int| m.in_range(i, j) ==> m.cell(i, j) == value,
    {
        let n = rows * cols;
        let mut data: Vec<T> = Vec::new();
        let mut k: usize = 0;
        while k < n
            invariant
                k <= n,
                data@.len() == k,
                forall|x: int| 0 <= x < k ==> data@[x] == value,
            decreases n - k,
        {
            data.push(value);
            k += 1;
        }
        let m = Mat { rows, cols, data };
        proof {
            assert forall|i: int, j: int| m.in_range(i, j) implies m.cell(i, j) == value by {
                lemma_flat_offset_bounds(i, j, rows as int, cols as int);
            }
        }
        m
    }

    /// A `1 x n` row vector holding the given values in order.
    pub fn row(values: Vec<T>) -> (m: Mat<T>)
        ensures
            m.rows == 1,
            m.cols == values@.len(),
            m.wf(),
            m.data@ == values@,
    {
        let cols = values.len();
        Mat { rows: 1, cols, data: values }
    }

    /// An `n x 1` column vector holding the given values in order.
    pub fn col(values: Vec<T>) -> (m: Mat<T>)
        ensures
            m.rows == values@.len(),
            m.cols == 1,
            m.wf(),
            m.data@ == values@,
    {
        let rows = values.len();
        Mat { rows, cols: 1, data: values }
    }

    /// Whether every row of a grid literal has the first row's length.
    pub open spec fn grid_regular(grid: Seq<Vec<T>>) -> bool {
        forall|i: int| 0 <= i < grid.len() ==> (#[trigger] grid[i])@.len() == grid[0]@.len()
    }

    /// The column count a grid literal establishes: its first row's length,
    /// or zero when there are no rows.
    pub open spec fn grid_cols(grid: Seq<Vec<T>>) -> int {
        if grid.len() == 0 {
            0
        } else {
            grid[0]@.len() as int
        }
    }

    /// A matrix built from rows of literal values, flattened row-major. The
    /// first row's length establishes the column count, and every row must
    /// have that same length.
    pub fn from_rows(grid: Vec<Vec<T>>) -> (m: Mat<T>)
        requires
            Self::grid_regular(grid@),
        ensures
            m.rows == grid@.len(),
            m.cols == Self::grid_cols(grid@),
            m.wf(),
            forall|i: int, j: int| m.in_range(i, j) ==> m.cell(i, j) == grid@[i]@[j],
    {
        let rows = grid.len();
        let cols = if rows == 0 { 0 } else { grid[0].len() };
        let mut data: Vec<T> = Vec::new();
        let mut i: usize = 0;
        while i < rows
            invariant
                Self::grid_regular(grid@),
                rows == grid@.len(),
                cols == Self::grid_cols(grid@),
                i <= rows,
                data@.len() == i * cols,
                forall|a: int, b: int|
                    0 <= a < i && 0 <= b < cols ==> data@[a * cols + b] == grid@[a]@[b],
            decreases rows - i,
        {
            let mut j: usize = 0;
            while j < cols
                invariant
                    Self::grid_regular(grid@),
                    rows == grid@.len(),
                    cols == Self::grid_cols(grid@),
                    i < rows,
                    j <= cols,
                    data@.len() == i * cols + j,
                    forall|a: int, b: int|
                        0 <= a < i && 0 <= b < cols ==> data@[a * cols + b] == grid@[a]@[b],
                    forall|b: int| 0 <= b < j ==> data@[i * cols + b] == grid@[i as int]@[b],
                decreases cols - j,
            {
                proof {
                    lemma_flat_offset_bounds(i as int, j as int, rows as int, cols as int);
                    assert forall|a: int, b: int|
                        0 <= a < i && 0 <= b < cols implies #[trigger] (a * cols + b) < i
                        * cols by {
                        assert(a * cols + b < i * cols) by (nonlinear_arith)
                            requires
                                0 <= a < i,
                                0 <= b < cols,
                        ;
                    }
                }
                data.push(grid[i][j]);
                j += 1;
            }
            proof {
                assert((i + 1) * cols == i * cols + cols) by (nonlinear_arith);
            }
            i += 1;
        }
        let m = Mat { rows, cols, data };
        proof {
            assert forall|i2: int, j2: int| m.in_range(i2, j2) implies m.cell(i2, j2)
                == grid@[i2]@[j2] by {
                lemma_flat_offset_bounds(i2, j2, rows as int, cols as int);
            }
        }
        m
    }

    /// Grid construction with the row-length check made at run time: the
    /// matrix `from_rows` would build, or the ragged-row violation naming the
    /// expected length and the first offending row's actual length.
    pub fn checked_from_rows(grid: Vec<Vec<T>>) -> (r: Result<Mat<T>, Violation>)
        ensures
            match r {
                Ok(m) => Self::grid_regular(grid@) && m.rows == grid@.len() && m.cols
                    == Self::grid_cols(grid@) && m.wf() && forall|i: int, j: int|
                    m.in_range(i, j) ==> m.cell(i, j) == grid@[i]@[j],
                Err(e) => !Self::grid_regular(grid@) && exists|i: int|
                    0 <= i < grid@.len() && (#[trigger] grid@[i])@.len() != grid@[0]@.len() && (
                    forall|a: int|
                        0 <= a < i ==> (#[trigger] grid@[a])@.len() == grid@[0]@.len()) && e == (
                    Violation::RaggedRow {
                        expected: grid@[0]@.len() as usize,
                        got: grid@[i]@.len() as usize,
                    }),
            },
    {
        let rows = grid.len();
        if rows > 0 {
            let expected = grid[0].len();
            let mut i: usize = 1;
            while i < rows
                invariant
                    rows == grid@.len(),
                    rows > 0,
                    expected == grid@[0]@.len(),
                    1 <= i <= rows,
                    forall|a: int| 0 <= a < i ==> (#[trigger] grid@[a])@.len() == grid@[0]@.len(),
                decreases rows - i,
            {
                let got = grid[i].len();
                if got != expected {
                    return Err(Violation::RaggedRow { expected, got });
                }
                i += 1;
            }
        }
        Ok(Self::from_rows(grid))
    }
}

} // verus!
