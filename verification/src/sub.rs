//! Elementwise matrix subtraction: the owning and the in-place form, and the
//! run-time-checked forms that report a dimension-mismatch violation.

use vstd::prelude::*;
use vstd::std_specs::ops::SubSpec;

use crate::matrix::Mat;
use crate::matrix::Violation;

verus! {

impl<T: core::ops::Sub<Output = T> + Copy> Mat<T> {
    /// Whether every pairwise subtraction of corresponding cells is defined:
    /// the element type's `-` obeys its specification, and no pair of cells
    /// falls outside it (for bounded integers: no difference overflows).
    pub open spec fn sub_defined(self, m: Mat<T>) -> bool {
        &&& T::obeys_sub_spec()
        &&& forall|k: int|
            0 <= k < self.data@.len() ==> (#[trigger] self.data@[k]).sub_req(m.data@[k])
    }

    /// The owning elementwise difference: a new matrix of the shared shape
    /// whose every flat entry is the left entry minus the right one. Neither
    /// operand is changed.
    pub fn sub(&self, m: &Mat<T>) -> (r: Mat<T>)
        requires
            self.wf(),
            m.wf(),
            self.shape_eq(*m),
            self.sub_defined(*m),
        ensures
            r.rows == self.rows,
            r.cols == self.cols,
            r.wf(),
            forall|k: int|
                0 <= k < r.data@.len() ==> #[trigger] r.data@[k] == self.data@[k].sub_spec(
                    m.data@[k],
                ),
    {
        let n = self.data.len();
        let mut data: Vec<T> = Vec::new();
        let mut k: usize = 0;
        while k < n
            invariant
                self.wf(),
                m.wf(),
                self.shape_eq(*m),
                self.sub_defined(*m),
                n == self.data@.len(),
                k <= n,
                data@.len() == k,
                forall|x: int|
                    0 <= x < k ==> #[trigger] data@[x] == self.data@[x].sub_spec(m.data@[x]),
            decreases n - k,
        {
            data.push(self.data[k] - m.data[k]);
            k += 1;
        }
        Mat { rows: self.rows, cols: self.cols, data }
    }

    /// The in-place elementwise difference: every flat entry of the receiver
    /// becomes its old value minus the corresponding entry of `m`; the
    /// dimensions do not change, and `m` is only read.
    pub fn sub_assign(&mut self, m: &Mat<T>)
        requires
            old(self).wf(),
            m.wf(),
            old(self).shape_eq(*m),
            old(self).sub_defined(*m),
        ensures
            final(self).rows == old(self).rows,
            final(self).cols == old(self).cols,
            final(self).wf(),
            final(self).data@.len() == old(self).data@.len(),
            forall|k: int|
                0 <= k < final(self).data@.len() ==> #[trigger] final(self).data@[k] == old(
                    self,
                ).data@[k].sub_spec(m.data@[k]),
    {
        let n = self.data.len();
        let mut k: usize = 0;
        while k < n
            invariant
                m.wf(),
                old(self).wf(),
                self.rows == old(self).rows,
                self.cols == old(self).cols,
                self.shape_eq(*m),
                n == self.data@.len(),
                n == old(self).data@.len(),
                k <= n,
                forall|x: int| k <= x < n ==> #[trigger] self.data@[x] == old(self).data@[x],
                forall|x: int|
                    0 <= x < k ==> #[trigger] self.data@[x] == old(self).data@[x].sub_spec(
                        m.data@[x],
                    ),
                old(self).sub_defined(*m),
            decreases n - k,
        {
            let v = self.data[k] - m.data[k];
            self.data[k] = v;
            k += 1;
        }
    }

    /// The owning difference with the shape check made at run time: the
    /// matrix `sub` would build, or the violation naming the dimension that
    /// differs, rows being compared first.
    pub fn checked_sub(&self, m: &Mat<T>) -> (r: Result<Mat<T>, Violation>)
        requires
            self.wf(),
            m.wf(),
            self.shape_eq(*m) ==> self.sub_defined(*m),
        ensures
            match r {
                Ok(out) => self.shape_eq(*m) && out.rows == self.rows && out.cols == self.cols
                    && out.wf() && forall|k: int|
                    0 <= k < out.data@.len() ==> #[trigger] out.data@[k] == self.data@[k].sub_spec(
                        m.data@[k],
                    ),
                Err(e) => if self.rows != m.rows {
                    e == (Violation::RowsMismatch { left: self.rows, right: m.rows })
                } else {
                    self.cols != m.cols && e == (Violation::ColsMismatch {
                        left: self.cols,
                        right: m.cols,
                    })
                },
            },
    {
        if self.rows != m.rows {
            Err(Violation::RowsMismatch { left: self.rows, right: m.rows })
        } else if self.cols != m.cols {
            Err(Violation::ColsMismatch { left: self.cols, right: m.cols })
        } else {
            Ok(self.sub(m))
        }
    }

    /// The in-place difference with the shape check made at run time: on a
    /// mismatch the receiver is left unchanged and the violation names the
    /// dimension that differs.
    pub fn checked_sub_assign(&mut self, m: &Mat<T>) -> (r: Result<(), Violation>)
        requires
            old(self).wf(),
            m.wf(),
            old(self).shape_eq(*m) ==> old(self).sub_defined(*m),
        ensures
            final(self).rows == old(self).rows,
            final(self).cols == old(self).cols,
            match r {
                Ok(()) => old(self).shape_eq(*m) && final(self).wf() && final(self).data@.len()
                    == old(self).data@.len() && forall|k: int|
                    0 <= k < final(self).data@.len() ==> #[trigger] final(self).data@[k] == old(
                        self,
                    ).data@[k].sub_spec(m.data@[k]),
                Err(e) => *final(self) == *old(self) && if old(self).rows != m.rows {
                    e == (Violation::RowsMismatch { left: old(self).rows, right: m.rows })
                } else {
                    old(self).cols != m.cols && e == (Violation::ColsMismatch {
                        left: old(self).cols,
                        right: m.cols,
                    })
                },
            },
    {
        if self.rows != m.rows {
            Err(Violation::RowsMismatch { left: self.rows, right: m.rows })
        } else if self.cols != m.cols {
            Err(Violation::ColsMismatch { left: self.cols, right: m.cols })
        } else {
            self.sub_assign(m);
            Ok(())
        }
    }
}

} // verus!
