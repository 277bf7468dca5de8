//! Row-major traversal of a matrix's coordinates: a restartable traversal
//! object that yields every coordinate pair `(i, j)` in row-major order —
//! for each row `i` from first to last, each column `j` from first to last —
//! exactly `rows * cols` pairs in all, and none for a matrix with no rows or
//! no columns.

use vstd::prelude::*;

use vstd::arithmetic::div_mod::lemma_fundamental_div_mod;
use vstd::arithmetic::div_mod::lemma_fundamental_div_mod_converse;
use vstd::arithmetic::div_mod::lemma_mod_bound;

use crate::matrix::Mat;
use crate::matrix::lemma_flat_offset_bounds;

verus! {

/// The full row-major coordinate sequence of a `rows x cols` matrix: the
/// pair at position `k` is `(k / cols, k % cols)`.
pub open spec fn coord_seq(rows: int, cols: int) -> Seq<(int, int)> {
    Seq::new((rows * cols) as nat, |k: int| (k / cols, k % cols))
}

/// The row-major coordinate sequence has exactly `rows * cols` entries,
/// every entry is a coordinate of the shape, and the pair `(i, j)` stands at
/// position `i * cols + j`: the sequence is exactly
/// `(0, 0), (0, 1), ..., (0, cols - 1), (1, 0), ..., (rows - 1, cols - 1)`.
pub proof fn lemma_coord_seq_row_major(rows: int, cols: int)
    requires
        0 <= rows,
        0 <= cols,
    ensures
        coord_seq(rows, cols).len() == rows * cols,
        forall|k: int|
            0 <= k < rows * cols ==> {
                let p = #[trigger] coord_seq(rows, cols)[k];
                0 <= p.0 < rows && 0 <= p.1 < cols && k == p.0 * cols + p.1
            },
        forall|i: int, j: int|
            0 <= i < rows && 0 <= j < cols ==> coord_seq(rows, cols)[#[trigger] (i * cols + j)] == (
            i,
            j,
            ),
{
    assert(rows * cols >= 0) by (nonlinear_arith)
        requires
            0 <= rows,
            0 <= cols,
    ;
    assert forall|k: int| 0 <= k < rows * cols implies {
        let p = #[trigger] coord_seq(rows, cols)[k];
        0 <= p.0 < rows && 0 <= p.1 < cols && k == p.0 * cols + p.1
    } by {
        assert(cols > 0) by (nonlinear_arith)
            requires
                0 <= k < rows * cols,
                0 <= cols,
        ;
        assert(coord_seq(rows, cols)[k] == (k / cols, k % cols));
        lemma_fundamental_div_mod(k, cols);
        lemma_mod_bound(k, cols);
        assert(0 <= k / cols < rows) by (nonlinear_arith)
            requires
                k == cols * (k / cols) + (k % cols),
                0 <= k % cols < cols,
                0 <= k < rows * cols,
        ;
    }
    assert forall|i: int, j: int|
        0 <= i < rows && 0 <= j < cols implies coord_seq(rows, cols)[#[trigger] (i * cols + j)] == (
    i,
    j,
    ) by {
        lemma_flat_offset_bounds(i, j, rows, cols);
        lemma_fundamental_div_mod_converse(i * cols + j, cols, i, j);
    }
}

/// A traversal of the coordinates of one matrix shape, in row-major order.
/// A fresh one is made per call of `Mat::iter`, independent of any other.
pub struct MatIterator {
    rows: usize,
    cols: usize,
    i: usize,
    j: usize,
}

impl MatIterator {
    /// The row count of the shape being traversed.
    pub closed spec fn spec_rows(self) -> int {
        self.rows as int
    }

    /// The column count of the shape being traversed.
    pub closed spec fn spec_cols(self) -> int {
        self.cols as int
    }

    /// How many coordinate pairs the traversal has already yielded.
    pub closed spec fn emitted(self) -> int {
        self.i * self.cols + self.j
    }

    /// The traversal's internal invariant: its position is a coordinate of
    /// the shape, or the one just past its last row.
    pub closed spec fn wf(self) -> bool {
        if self.cols == 0 {
            self.i == 0 && self.j == 0
        } else {
            &&& self.j < self.cols
            &&& self.i <= self.rows
            &&& self.i == self.rows ==> self.j == 0
        }
    }

    /// The next coordinate pair in row-major order: `Some` of the pair at
    /// position `emitted()` of the shape's coordinate sequence while any pair
    /// is left, and `None` forever after all `rows * cols` pairs were
    /// yielded.
    pub fn next(&mut self) -> (r: Option<(usize, usize)>)
        requires
            old(self).wf(),
        ensures
            final(self).wf(),
            final(self).spec_rows() == old(self).spec_rows(),
            final(self).spec_cols() == old(self).spec_cols(),
            match r {
                Some(p) => {
                    &&& old(self).emitted() < old(self).spec_rows() * old(self).spec_cols()
                    &&& final(self).emitted() == old(self).emitted() + 1
                    &&& (p.0 as int, p.1 as int) == coord_seq(
                        old(self).spec_rows(),
                        old(self).spec_cols(),
                    )[old(self).emitted()]
                },
                None => {
                    &&& old(self).emitted() == old(self).spec_rows() * old(self).spec_cols()
                    &&& *final(self) == *old(self)
                },
            },
    {
        if self.cols == 0 || self.i >= self.rows {
            None
        } else {
            let p = (self.i, self.j);
            proof {
                lemma_flat_offset_bounds(
                    self.i as int,
                    self.j as int,
                    self.rows as int,
                    self.cols as int,
                );
                lemma_fundamental_div_mod_converse(
                    self.i * self.cols + self.j,
                    self.cols as int,
                    self.i as int,
                    self.j as int,
                );
            }
            if self.j + 1 < self.cols {
                self.j += 1;
            } else {
                proof {
                    assert((self.i + 1) * self.cols == self.i * self.cols + self.cols)
                        by (nonlinear_arith);
                }
                self.j = 0;
                self.i += 1;
            }
            Some(p)
        }
    }
}

impl<T> Mat<T> {
    /// A fresh traversal of this matrix's coordinates in row-major order,
    /// starting at the first pair and independent of any earlier traversal.
    pub fn iter(&self) -> (it: MatIterator)
        ensures
            it.wf(),
            it.spec_rows() == self.rows,
            it.spec_cols() == self.cols,
            it.emitted() == 0,
    {
        MatIterator { rows: self.rows, cols: self.cols, i: 0, j: 0 }
    }
}

} // verus!
