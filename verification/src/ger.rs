//! The rank-1 update `Z <- Z + alpha * x * y^T` and its portable,
//! layout-aware kernel.
//!
//! The kernel walks the matrix in the order its memory layout favours:
//! column by column for a column-major matrix, row by row otherwise (an
//! indeterminate layout defaults to row traversal), so the inner loop
//! always moves along the unit-stride axis. Every entry is updated with
//! the same expression either way, so the result depends only on the
//! logical values, never on the traversal order.

use vstd::prelude::*;
use crate::layout::{memory_layout, MemoryOrder};
use crate::scalar::Scalar;
use crate::view::{outside_entries, MatView, VecView};

verus! {

/// The logical value of the whole matrix after the update: entry `(i, j)`
/// becomes `z[i][j] + alpha * x[i] * y[j]`, with the element type's own
/// addition and multiplication.
pub open spec fn spec_ger<T: Scalar>(z: Seq<Seq<T>>, alpha: T, x: Seq<T>, y: Seq<T>) -> Seq<Seq<T>> {
    Seq::new(
        z.len(),
        |i: int|
            Seq::new(
                z[i].len(),
                |j: int| z[i][j].spec_plus(alpha.spec_times(x[i]).spec_times(y[j])),
            ),
    )
}

/// The generic fallback kernel: update `z` in place, walking it in the
/// order its layout favours. It has no dimension or stride limits; every
/// matrix the accelerated path refuses ends up here.
pub fn ger_generic<T: Scalar>(z: &mut MatView<T>, alpha: T, x: &VecView<T>, y: &VecView<T>)
    requires
        old(z).wf(),
        x.wf(),
        y.wf(),
        old(z).m == x.len,
        old(z).n == y.len,
    ensures
        final(z).wf(),
        final(z).m == old(z).m,
        final(z).n == old(z).n,
        final(z).s0 == old(z).s0,
        final(z).s1 == old(z).s1,
        final(z).offset == old(z).offset,
        final(z)@ == spec_ger(old(z)@, alpha, x@, y@),
        forall|k: int|
            0 <= k < old(z).data@.len() && outside_entries(*old(z), k)
                ==> final(z).data@[k] == old(z).data@[k],
{
    let m = z.m;
    let n = z.n;
    let ghost z0 = *z;
    let ghost goal = spec_ger(z0@, alpha, x@, y@);
    let shape = z.shape();
    let layout = memory_layout(&shape);
    let column_major = match layout {
        Some(MemoryOrder::F) => true,
        _ => false,
    };
    if column_major {
        let mut j: usize = 0;
        while j < n
            invariant
                z.wf(),
                z.m == m,
                z.n == n,
                z.s0 == z0.s0,
                z.s1 == z0.s1,
                z.offset == z0.offset,
                z.data@.len() == z0.data@.len(),
                forall|k: int|
                    0 <= k < z0.data@.len() && outside_entries(z0, k) ==> z.data@[k] == z0.data@[k],
                x.wf(),
                y.wf(),
                x.len == m,
                y.len == n,
                j <= n,
                z0.m == m,
                z0.n == n,
                goal == spec_ger(z0@, alpha, x@, y@),
                forall|r: int, c: int| 0 <= r < m && 0 <= c < j ==> z@[r][c] == goal[r][c],
                forall|r: int, c: int| 0 <= r < m && j <= c < n ==> z@[r][c] == z0@[r][c],
            decreases n - j,
        {
            let mut i: usize = 0;
            while i < m
                invariant
                    z.wf(),
                    z.m == m,
                    z.n == n,
                    z.s0 == z0.s0,
                    z.s1 == z0.s1,
                    z.offset == z0.offset,
                    z.data@.len() == z0.data@.len(),
                    forall|k: int|
                        0 <= k < z0.data@.len() && outside_entries(z0, k) ==> z.data@[k] == z0.data@[k],
                    x.wf(),
                    y.wf(),
                    x.len == m,
                    y.len == n,
                    j < n,
                    i <= m,
                    z0.m == m,
                    z0.n == n,
                    goal == spec_ger(z0@, alpha, x@, y@),
                    forall|r: int, c: int| 0 <= r < m && 0 <= c < j ==> z@[r][c] == goal[r][c],
                    forall|r: int| 0 <= r < i ==> z@[r][j as int] == goal[r][j as int],
                    forall|r: int| i <= r < m ==> z@[r][j as int] == z0@[r][j as int],
                    forall|r: int, c: int| 0 <= r < m && j < c < n ==> z@[r][c] == z0@[r][c],
                decreases m - i,
            {
                let zij = z.read_entry(i, j);
                let v = zij.plus(alpha.times(x.get(i)).times(y.get(j)));
                z.write_entry(i, j, v);
                proof {
                    assert forall|k: int|
                        0 <= k < z0.data@.len() && outside_entries(z0, k)
                            implies z.data@[k] == z0.data@[k] by {
                        assert(z0.pos_of(i as int, j as int) != k);
                    }
                }
                i += 1;
            }
            j += 1;
        }
    } else {
        let mut i: usize = 0;
        while i < m
            invariant
                z.wf(),
                z.m == m,
                z.n == n,
                z.s0 == z0.s0,
                z.s1 == z0.s1,
                z.offset == z0.offset,
                z.data@.len() == z0.data@.len(),
                forall|k: int|
                    0 <= k < z0.data@.len() && outside_entries(z0, k) ==> z.data@[k] == z0.data@[k],
                x.wf(),
                y.wf(),
                x.len == m,
                y.len == n,
                i <= m,
                z0.m == m,
                z0.n == n,
                goal == spec_ger(z0@, alpha, x@, y@),
                forall|r: int, c: int| 0 <= r < i && 0 <= c < n ==> z@[r][c] == goal[r][c],
                forall|r: int, c: int| i <= r < m && 0 <= c < n ==> z@[r][c] == z0@[r][c],
            decreases m - i,
        {
            let mut j: usize = 0;
            while j < n
                invariant
                    z.wf(),
                    z.m == m,
                    z.n == n,
                    z.s0 == z0.s0,
                    z.s1 == z0.s1,
                    z.offset == z0.offset,
                    z.data@.len() == z0.data@.len(),
                    forall|k: int|
                        0 <= k < z0.data@.len() && outside_entries(z0, k) ==> z.data@[k] == z0.data@[k],
                    x.wf(),
                    y.wf(),
                    x.len == m,
                    y.len == n,
                    i < m,
                    j <= n,
                    z0.m == m,
                    z0.n == n,
                    goal == spec_ger(z0@, alpha, x@, y@),
                    forall|r: int, c: int| 0 <= r < i && 0 <= c < n ==> z@[r][c] == goal[r][c],
                    forall|c: int| 0 <= c < j ==> z@[i as int][c] == goal[i as int][c],
                    forall|c: int| j <= c < n ==> z@[i as int][c] == z0@[i as int][c],
                    forall|r: int, c: int| i < r < m && 0 <= c < n ==> z@[r][c] == z0@[r][c],
                decreases n - j,
            {
                let zij = z.read_entry(i, j);
                let v = zij.plus(alpha.times(x.get(i)).times(y.get(j)));
                z.write_entry(i, j, v);
                proof {
                    assert forall|k: int|
                        0 <= k < z0.data@.len() && outside_entries(z0, k)
                            implies z.data@[k] == z0.data@[k] by {
                        assert(z0.pos_of(i as int, j as int) != k);
                    }
                }
                j += 1;
            }
            i += 1;
        }
    }
    proof {
        assert forall|r: int| 0 <= r < m implies z@[r] =~= goal[r] by {
            assert(z@[r].len() == n);
            assert(goal[r].len() == z0@[r].len());
        }
        assert(z@ =~= goal);
    }
}

/// The rank-1 update as an operation of the matrix type: after the call,
/// `self` holds `self + alpha * x * y^T`.
pub trait Ger<V1, V2>: Sized {
    type Elem;

    /// When the update may be asked for: the shapes agree and the views
    /// are valid.
    spec fn ger_req(&self, x: &V1, y: &V2) -> bool;

    /// What the update did to `self`, which held `pre` before the call.
    spec fn ger_post(&self, pre: Self, alpha: Self::Elem, x: &V1, y: &V2) -> bool;

    /// Perform `self <- self + alpha * x * y^T` in place.
    fn ger(&mut self, alpha: Self::Elem, x: &V1, y: &V2)
        requires
            old(self).ger_req(x, y),
        ensures
            final(self).ger_post(*old(self), alpha, x, y),
    ;
}

impl<T: Scalar> Ger<VecView<T>, VecView<T>> for MatView<T> {
    type Elem = T;

    /// The matrix has as many rows as `x` has elements and as many
    /// columns as `y` has, and all three views are well-formed.
    open spec fn ger_req(&self, x: &VecView<T>, y: &VecView<T>) -> bool {
        &&& self.wf()
        &&& x.wf()
        &&& y.wf()
        &&& self.m == x.len
        &&& self.n == y.len
    }

    /// The matrix keeps its shape and storage layout, and every entry
    /// `(i, j)` now holds `pre[i][j] + alpha * x[i] * y[j]`.
    open spec fn ger_post(&self, pre: Self, alpha: T, x: &VecView<T>, y: &VecView<T>) -> bool {
        &&& self.wf()
        &&& self.m == pre.m
        &&& self.n == pre.n
        &&& self.s0 == pre.s0
        &&& self.s1 == pre.s1
        &&& self.offset == pre.offset
        &&& self@ == spec_ger(pre@, alpha, x@, y@)
        &&& forall|k: int|
            0 <= k < pre.data@.len() && outside_entries(pre, k) ==> self.data@[k] == pre.data@[k]
    }

    fn ger(&mut self, alpha: T, x: &VecView<T>, y: &VecView<T>) {
        ger_generic(self, alpha, x, y);
    }
}

/// The update behind a run-time shape check: performed exactly when the
/// matrix has as many rows as `x` has elements and as many columns as `y`
/// has; on a mismatch nothing is touched and `false` comes back.
pub fn ger_checked<T: Scalar>(z: &mut MatView<T>, alpha: T, x: &VecView<T>, y: &VecView<T>) -> (ok:
    bool)
    requires
        old(z).wf(),
        x.wf(),
        y.wf(),
    ensures
        ok == (old(z).m == x.len && old(z).n == y.len),
        ok ==> final(z).wf() && final(z)@ == spec_ger(old(z)@, alpha, x@, y@),
        ok ==> final(z).m == old(z).m && final(z).n == old(z).n && final(z).s0 == old(z).s0
            && final(z).s1 == old(z).s1 && final(z).offset == old(z).offset,
        ok ==> forall|k: int|
            0 <= k < old(z).data@.len() && outside_entries(*old(z), k)
                ==> final(z).data@[k] == old(z).data@[k],
        !ok ==> *final(z) == *old(z),
{
    if z.m != x.len || z.n != y.len {
        return false;
    }
    ger_generic(z, alpha, x, y);
    true
}

} // verus!
