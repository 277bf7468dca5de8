//! Matrix multiplication: the textbook triple-loop product, its run-time-
//! checked form that reports an inner-dimension violation, and the scalar
//! forms that multiply every cell by one value.

use vstd::prelude::*;
use vstd::std_specs::ops::AddSpec;
use vstd::std_specs::ops::MulSpec;

use crate::element::ZeroElement;
use crate::matrix::Mat;
use crate::matrix::Violation;
use crate::matrix::lemma_flat_offset_bounds;

verus! {

/// The first `n` steps of the accumulation that produces cell `(i, j)` of
/// the product `a * b`: starting from the additive identity, the sums of the
/// products `a[(i, k)] * b[(k, j)]` for `k` below `n`, in order.
pub open spec fn dot_acc<
    T: core::ops::Add<Output = T> + core::ops::Mul<Output = T> + ZeroElement,
>(a: Mat<T>, b: Mat<T>, i: int, j: int, n: int) -> T
    decreases n,
{
    if n <= 0 {
        T::zero_spec()
    } else {
        dot_acc(a, b, i, j, n - 1).add_spec(a.cell(i, n - 1).mul_spec(b.cell(n - 1, j)))
    }
}

/// Whether every product and every running sum in the first `n` steps of the
/// accumulation for cell `(i, j)` is defined.
pub open spec fn dot_acc_defined<
    T: core::ops::Add<Output = T> + core::ops::Mul<Output = T> + ZeroElement,
>(a: Mat<T>, b: Mat<T>, i: int, j: int, n: int) -> bool
    decreases n,
{
    if n <= 0 {
        true
    } else {
        &&& dot_acc_defined(a, b, i, j, n - 1)
        &&& a.cell(i, n - 1).mul_req(b.cell(n - 1, j))
        &&& dot_acc(a, b, i, j, n - 1).add_req(a.cell(i, n - 1).mul_spec(b.cell(n - 1, j)))
    }
}

/// A defined accumulation of `n` steps has every shorter prefix defined too.
pub proof fn lemma_dot_acc_defined_prefix<
    T: core::ops::Add<Output = T> + core::ops::Mul<Output = T> + ZeroElement,
>(a: Mat<T>, b: Mat<T>, i: int, j: int, k: int, n: int)
    requires
        dot_acc_defined(a, b, i, j, n),
        0 <= k <= n,
    ensures
        dot_acc_defined(a, b, i, j, k),
    decreases n,
{
    if k < n {
        lemma_dot_acc_defined_prefix(a, b, i, j, k, n - 1);
    }
}

impl<T: core::ops::Add<Output = T> + core::ops::Mul<Output = T> + ZeroElement + Copy> Mat<T> {
    /// Whether the product `self * m` is defined: the element type's `+` and
    /// `*` obey their specifications, and every accumulation stays inside
    /// them (for bounded integers: no product or running sum overflows).
    pub open spec fn mul_defined(self, m: Mat<T>) -> bool {
        &&& T::obeys_add_spec()
        &&& T::obeys_mul_spec()
        &&& forall|i: int, j: int|
            0 <= i < self.rows && 0 <= j < m.cols ==> dot_acc_defined(
                self,
                m,
                i,
                j,
                self.cols as int,
            )
    }

    /// The matrix product: a `self.rows x m.cols` matrix whose cell `(i, j)`
    /// accumulates, from the additive identity, the products
    /// `self[(i, k)] * m[(k, j)]` over `k` in `[0, self.cols)`. Neither
    /// operand is changed.
    pub fn mul(&self, m: &Mat<T>) -> (r: Mat<T>)
        requires
            self.wf(),
            m.wf(),
            self.cols == m.rows,
            self.mul_defined(*m),
        ensures
            r.rows == self.rows,
            r.cols == m.cols,
            r.wf(),
            forall|i: int, j: int|
                r.in_range(i, j) ==> r.cell(i, j) == dot_acc(*self, *m, i, j, self.cols as int),
    {
        let out_cols = m.cols;
        let mut data: Vec<T> = Vec::new();
        let mut i: usize = 0;
        while i < self.rows
            invariant
                self.wf(),
                m.wf(),
                self.cols == m.rows,
                self.mul_defined(*m),
                out_cols == m.cols,
                i <= self.rows,
                data@.len() == i * out_cols,
                forall|a: int, b: int|
                    0 <= a < i && 0 <= b < out_cols ==> data@[a * out_cols + b] == dot_acc(
                        *self,
                        *m,
                        a,
                        b,
                        self.cols as int,
                    ),
            decreases self.rows - i,
        {
            let mut j: usize = 0;
            while j < out_cols
                invariant
                    self.wf(),
                    m.wf(),
                    self.cols == m.rows,
                    self.mul_defined(*m),
                    out_cols == m.cols,
                    i < self.rows,
                    j <= out_cols,
                    data@.len() == i * out_cols + j,
                    forall|a: int, b: int|
                        0 <= a < i && 0 <= b < out_cols ==> data@[a * out_cols + b] == dot_acc(
                            *self,
                            *m,
                            a,
                            b,
                            self.cols as int,
                        ),
                    forall|b: int|
                        0 <= b < j ==> data@[i * out_cols + b] == dot_acc(
                            *self,
                            *m,
                            i as int,
                            b,
                            self.cols as int,
                        ),
                decreases out_cols - j,
            {
                let mut acc: T = T::zero();
                let mut k: usize = 0;
                while k < self.cols
                    invariant
                        self.wf(),
                        m.wf(),
                        self.cols == m.rows,
                        self.mul_defined(*m),
                        out_cols == m.cols,
                        i < self.rows,
                        j < out_cols,
                        k <= self.cols,
                        acc == dot_acc(*self, *m, i as int, j as int, k as int),
                    decreases self.cols - k,
                {
                    proof {
                        lemma_dot_acc_defined_prefix(
                            *self,
                            *m,
                            i as int,
                            j as int,
                            k + 1,
                            self.cols as int,
                        );
                    }
                    let prod = *self.index(i, k) * *m.index(k, j);
                    acc = acc + prod;
                    k += 1;
                }
                proof {
                    lemma_flat_offset_bounds(i as int, j as int, self.rows as int, out_cols as int);
                    assert forall|a: int, b: int|
                        0 <= a < i && 0 <= b < out_cols implies #[trigger] (a * out_cols + b) < i
                        * out_cols by {
                        assert(a * out_cols + b < i * out_cols) by (nonlinear_arith)
                            requires
                                0 <= a < i,
                                0 <= b < out_cols,
                        ;
                    }
                }
                data.push(acc);
                j += 1;
            }
            proof {
                assert((i + 1) * out_cols == i * out_cols + out_cols) by (nonlinear_arith);
            }
            i += 1;
        }
        let r = Mat { rows: self.rows, cols: out_cols, data };
        proof {
            assert forall|i2: int, j2: int| r.in_range(i2, j2) implies r.cell(i2, j2) == dot_acc(
                *self,
                *m,
                i2,
                j2,
                self.cols as int,
            ) by {
                lemma_flat_offset_bounds(i2, j2, r.rows as int, r.cols as int);
            }
        }
        r
    }

    /// The product with the inner-dimension check made at run time: the
    /// matrix `mul` would build, or the violation naming the left operand's
    /// column count and the right operand's row count.
    pub fn checked_mul(&self, m: &Mat<T>) -> (r: Result<Mat<T>, Violation>)
        requires
            self.wf(),
            m.wf(),
            self.cols == m.rows ==> self.mul_defined(*m),
        ensures
            match r {
                Ok(out) => self.cols == m.rows && out.rows == self.rows && out.cols == m.cols
                    && out.wf() && forall|i: int, j: int|
                    out.in_range(i, j) ==> out.cell(i, j) == dot_acc(
                        *self,
                        *m,
                        i,
                        j,
                        self.cols as int,
                    ),
                Err(e) => self.cols != m.rows && e == (Violation::InnerMismatch {
                    left_cols: self.cols,
                    right_rows: m.rows,
                }),
            },
    {
        if self.cols != m.rows {
            Err(Violation::InnerMismatch { left_cols: self.cols, right_rows: m.rows })
        } else {
            Ok(self.mul(m))
        }
    }
}

impl<T: core::ops::Mul<Output = T> + Copy> Mat<T> {
    /// Whether multiplying every cell by the scalar is defined.
    pub open spec fn mul_scalar_defined(self, scalar: T) -> bool {
        &&& T::obeys_mul_spec()
        &&& forall|k: int| 0 <= k < self.data@.len() ==> (#[trigger] self.data@[k]).mul_req(scalar)
    }

    /// The owning scalar product: a new matrix of the same shape whose every
    /// flat entry is the product of the old entry and `scalar`.
    pub fn mul_scalar(&self, scalar: T) -> (r: Mat<T>)
        requires
            self.wf(),
            self.mul_scalar_defined(scalar),
        ensures
            r.rows == self.rows,
            r.cols == self.cols,
            r.wf(),
            forall|k: int|
                0 <= k < r.data@.len() ==> #[trigger] r.data@[k] == self.data@[k].mul_spec(scalar),
    {
        let n = self.data.len();
        let mut data: Vec<T> = Vec::new();
        let mut k: usize = 0;
        while k < n
            invariant
                self.wf(),
                self.mul_scalar_defined(scalar),
                n == self.data@.len(),
                k <= n,
                data@.len() == k,
                forall|x: int| 0 <= x < k ==> #[trigger] data@[x] == self.data@[x].mul_spec(scalar),
            decreases n - k,
        {
            data.push(self.data[k] * scalar);
            k += 1;
        }
        Mat { rows: self.rows, cols: self.cols, data }
    }

    /// The in-place scalar product: every flat entry of the receiver becomes
    /// the product of its old value and `scalar`; the dimensions do not
    /// change.
    pub fn mul_assign_scalar(&mut self, scalar: T)
        requires
            old(self).wf(),
            old(self).mul_scalar_defined(scalar),
        ensures
            final(self).rows == old(self).rows,
            final(self).cols == old(self).cols,
            final(self).wf(),
            final(self).data@.len() == old(self).data@.len(),
            forall|k: int|
                0 <= k < final(self).data@.len() ==> #[trigger] final(self).data@[k] == old(
                    self,
                ).data@[k].mul_spec(scalar),
    {
        let n = self.data.len();
        let mut k: usize = 0;
        while k < n
            invariant
                old(self).wf(),
                self.rows == old(self).rows,
                self.cols == old(self).cols,
                n == self.data@.len(),
                n == old(self).data@.len(),
                k <= n,
                forall|x: int| k <= x < n ==> #[trigger] self.data@[x] == old(self).data@[x],
                forall|x: int|
                    0 <= x < k ==> #[trigger] self.data@[x] == old(self).data@[x].mul_spec(scalar),
                old(self).mul_scalar_defined(scalar),
            decreases n - k,
        {
            let v = self.data[k] * scalar;
            self.data[k] = v;
            k += 1;
        }
    }
}

} // verus!
