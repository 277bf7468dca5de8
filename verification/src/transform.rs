//! Elementwise transformation: applying a caller-supplied pure function to
//! every element, either into a new matrix (possibly of another element type)
//! or in place.

use vstd::prelude::*;

use crate::matrix::Mat;

verus! {

impl<T: Copy> Mat<T> {
    /// The mapping transform: a new matrix of the same shape whose every flat
    /// entry is an output of `f` on the old entry there. Each element is
    /// visited exactly once, in flat row-major order; the source is not
    /// changed.
    pub fn transform<O, F: Fn(T) -> O>(&self, f: F) -> (r: Mat<O>)
        requires
            self.wf(),
            forall|k: int| 0 <= k < self.data@.len() ==> call_requires(f, (self.data@[k],)),
        ensures
            r.rows == self.rows,
            r.cols == self.cols,
            r.wf(),
            forall|k: int|
                0 <= k < r.data@.len() ==> call_ensures(f, (self.data@[k],), #[trigger] r.data@[k]),
    {
        let n = self.data.len();
        let mut data: Vec<O> = Vec::new();
        let mut k: usize = 0;
        while k < n
            invariant
                self.wf(),
                forall|x: int| 0 <= x < n ==> call_requires(f, (self.data@[x],)),
                n == self.data@.len(),
                k <= n,
                data@.len() == k,
                forall|x: int|
                    0 <= x < k ==> call_ensures(f, (self.data@[x],), #[trigger] data@[x]),
            decreases n - k,
        {
            data.push(f(self.data[k]));
            k += 1;
        }
        Mat { rows: self.rows, cols: self.cols, data }
    }

    /// The in-place transform: every flat entry of the receiver becomes an
    /// output of `f` on its old value; the dimensions do not change, and each
    /// element is visited exactly once, in flat row-major order.
    pub fn transform_assign<F: Fn(T) -> T>(&mut self, f: F)
        requires
            old(self).wf(),
            forall|k: int| 0 <= k < old(self).data@.len() ==> call_requires(f, (old(self).data@[k],)),
        ensures
            final(self).rows == old(self).rows,
            final(self).cols == old(self).cols,
            final(self).wf(),
            final(self).data@.len() == old(self).data@.len(),
            forall|k: int|
                0 <= k < final(self).data@.len() ==> call_ensures(
                    f,
                    (old(self).data@[k],),
                    #[trigger] final(self).data@[k],
                ),
    {
        let n = self.data.len();
        let mut k: usize = 0;
        while k < n
            invariant
                old(self).wf(),
                self.rows == old(self).rows,
                self.cols == old(self).cols,
                n == self.data@.len(),
                n == old(self).data@.len(),
                k <= n,
                forall|x: int| k <= x < n ==> #[trigger] self.data@[x] == old(self).data@[x],
                forall|x: int|
                    0 <= x < k ==> call_ensures(f, (old(self).data@[x],), #[trigger] self.data@[x]),
                forall|x: int| 0 <= x < n ==> call_requires(f, (old(self).data@[x],)),
            decreases n - k,
        {
            let v = f(self.data[k]);
            self.data[k] = v;
            k += 1;
        }
    }
}

} // verus!
