//! Strided views: the crate's own in-memory representation of vectors and
//! matrices.
//!
//! A view owns a flat element buffer and addresses it through an offset,
//! logical extents and signed per-axis strides, exactly as a host
//! multidimensional-array type would describe one of its views. All index
//! arithmetic of the crate lives here; everything else works on a view's
//! logical value (a sequence of elements, or of rows).

use vstd::prelude::*;
use crate::shape::{MatShape, VecShape};

verus! {

/// Every logical index of a strided vector lands inside a buffer of
/// `dlen` elements, the buffer is small enough for pointer arithmetic,
/// and only an empty view may carry a zero stride.
pub open spec fn vec_indices_ok(dlen: int, offset: int, len: int, stride: int) -> bool {
    &&& dlen <= isize::MAX
    &&& len > 0 ==> stride != 0
    &&& forall|i: int| 0 <= i < len ==> 0 <= offset + #[trigger] (i * stride) < dlen
}

/// A vector view: element `i` of the view is `data[offset + i * stride]`.
/// A negative stride walks the buffer backwards from `offset`.
pub struct VecView<T> {
    pub data: Vec<T>,
    pub offset: usize,
    pub len: usize,
    pub stride: isize,
}

impl<T> VecView<T> {
    /// The buffer position of logical element `i`.
    pub open spec fn idx_of(self, i: int) -> int {
        self.offset + i * self.stride
    }

    /// Well-formedness: every logical element lands inside the buffer.
    pub open spec fn wf(self) -> bool {
        vec_indices_ok(self.data@.len() as int, self.offset as int, self.len as int, self.stride as int)
    }

    /// The shape of this view: what the compatibility checks and the
    /// dispatch planner look at.
    pub fn shape(&self) -> (s: VecShape)
        ensures
            s == (VecShape { len: self.len, stride: self.stride }),
    {
        VecShape { len: self.len, stride: self.stride }
    }

    /// Build a view over `data`, validating that every logical element
    /// falls inside the buffer: exactly the valid descriptors are
    /// accepted.
    pub fn try_new(data: Vec<T>, offset: usize, len: usize, stride: isize) -> (r: Option<VecView<T>>)
        ensures
            r is Some <==> vec_indices_ok(data@.len() as int, offset as int, len as int, stride as int),
            r matches Some(v) ==> v == (VecView { data, offset, len, stride }),
    {
        let dlen = data.len();
        if dlen > isize::MAX as usize {
            return None;
        }
        if len == 0 {
            return Some(VecView { data, offset, len, stride });
        }
        if stride == 0 {
            proof {
                assert(!vec_indices_ok(dlen as int, offset as int, len as int, stride as int));
            }
            return None;
        }
        if offset >= dlen {
            proof {
                let i: int = 0;
                assert(i * (stride as int) == 0);
                assert(!vec_indices_ok(dlen as int, offset as int, len as int, stride as int));
            }
            return None;
        }
        proof {
            assert((len - 1) as i128 as int * (stride as i128 as int) < i128::MAX - 0x1_0000_0000_0000_0000
                && (len - 1) as i128 as int * (stride as i128 as int) > i128::MIN + 0x8000_0000_0000_0000) by (nonlinear_arith)
                requires
                    0 <= ((len - 1) as i128 as int) < 0x1_0000_0000_0000_0000,
                    (stride as i128 as int) >= -0x8000_0000_0000_0000,
                    (stride as i128 as int) < 0x8000_0000_0000_0000,
            ;
        }
        let last: i128 = offset as i128 + ((len - 1) as i128) * (stride as i128);
        if last < 0 || last >= dlen as i128 {
            proof {
                let i: int = (len - 1) as int;
                assert(offset + i * stride == last as int);
                assert(!vec_indices_ok(dlen as int, offset as int, len as int, stride as int));
            }
            return None;
        }
        proof {
            assert forall|i: int| 0 <= i < len implies 0 <= offset + #[trigger] (i * stride) < dlen by {
                assert(0 <= offset + i * stride < dlen) by (nonlinear_arith)
                    requires
                        0 <= i < (len as int),
                        0 <= offset < (dlen as int),
                        0 <= offset + (len - 1) * stride < (dlen as int),
                ;
            }
        }
        Some(VecView { data, offset, len, stride })
    }
}

proof fn lemma_vec_len_bound(dlen: int, offset: int, len: int, stride: int)
    requires
        vec_indices_ok(dlen, offset, len, stride),
        len > 0,
    ensures
        len <= dlen,
{
    let last: int = len - 1;
    assert(0 * stride == 0);
    assert(0 <= offset + 0 * stride < dlen);
    assert(0 <= offset + last * stride < dlen);
    assert(len <= dlen) by (nonlinear_arith)
        requires
            stride != 0,
            last == len - 1,
            len > 0,
            0 <= offset < dlen,
            0 <= offset + last * stride < dlen,
    ;
}

impl<T: Copy> VecView<T> {
    /// Read logical element `i`.
    pub fn get(&self, i: usize) -> (r: T)
        requires
            self.wf(),
            i < self.len,
        ensures
            r == self@[i as int],
    {
        proof {
            lemma_vec_len_bound(
                self.data@.len() as int,
                self.offset as int,
                self.len as int,
                self.stride as int,
            );
            assert(0 * self.stride == 0);
            assert(0 <= self.offset + 0 * self.stride < self.data@.len());
            assert(0 <= self.offset + (i as int) * self.stride < self.data@.len());
        }
        let pos = self.offset as isize + (i as isize) * self.stride;
        self.data[pos as usize]
    }
}

impl<T> View for VecView<T> {
    type V = Seq<T>;

    open spec fn view(&self) -> Seq<T> {
        Seq::new(self.len as nat, |i: int| self.data@[self.idx_of(i)])
    }
}

/// The explicitly reversed copy of a vector view: the same buffer read in
/// the opposite order, starting at the view's lowest-addressed element,
/// with the stride's sign flipped (a view of at most one element gets
/// unit stride, since its stride never matters).
pub open spec fn reversed_view<T>(v: VecView<T>) -> VecView<T> {
    VecView {
        data: v.data,
        offset: if v.len == 0 {
            v.offset
        } else {
            v.idx_of(v.len - 1) as usize
        },
        len: v.len,
        stride: if v.len <= 1 {
            1
        } else {
            (-(v.stride as int)) as isize
        },
    }
}

/// A vector view with negative stride holds exactly the elements of its
/// reversed, positive-stride copy, in the opposite order; and that copy
/// begins at the view's lowest-addressed element, exactly where the
/// stride normalization points a native routine.
pub proof fn lemma_negative_stride_reversal<T>(v: VecView<T>)
    requires
        v.wf(),
        v.stride < 0,
    ensures
        reversed_view(v).wf(),
        reversed_view(v).stride >= 1,
        reversed_view(v)@ == v@.reverse(),
        v.len > 0 ==> reversed_view(v).offset == v.offset + (v.len - 1) * v.stride,
{
    let w = reversed_view(v);
    let dlen = v.data@.len() as int;
    let len = v.len as int;
    if len == 0 {
        assert(w@ =~= v@.reverse());
        return;
    }
    assert(0 <= v.offset + (len - 1) * v.stride < dlen);
    assert(w.offset == v.offset + (len - 1) * v.stride);
    if len == 1 {
        assert((len - 1) * v.stride == 0);
        assert forall|i: int| 0 <= i < len implies 0 <= w.offset + #[trigger] (i * w.stride) < dlen by {
            assert(i == 0 && i * w.stride == 0);
        }
        assert(w@ =~= v@.reverse());
        return;
    }
    assert(0 * v.stride == 0);
    assert(1 * v.stride == v.stride);
    assert(0 <= v.offset + 0 * v.stride < dlen);
    assert(0 <= v.offset + 1 * v.stride < dlen);
    assert(w.stride == -(v.stride as int));
    assert forall|i: int| 0 <= i < len implies 0 <= w.offset + #[trigger] (i * w.stride) < dlen by {
        assert((len - 1) * v.stride + i * (-(v.stride as int)) == (len - 1 - i) * v.stride)
            by (nonlinear_arith);
        assert(0 <= v.offset + (len - 1 - i) * v.stride < dlen);
    }
    assert(w.wf());
    assert forall|i: int| 0 <= i < len implies w@[i] == v@.reverse()[i] by {
        assert((len - 1) * v.stride + i * (-(v.stride as int)) == (len - 1 - i) * v.stride)
            by (nonlinear_arith);
        assert(w.idx_of(i) == v.idx_of(len - 1 - i));
    }
    assert(w@ =~= v@.reverse());
}

/// Every logical entry of a strided matrix lands inside a buffer of
/// `dlen` elements, no two logical entries share a buffer position (so a
/// write to one entry cannot change another), and the buffer is small
/// enough for pointer arithmetic.
pub open spec fn mat_indices_ok(dlen: int, offset: int, m: int, n: int, s0: int, s1: int) -> bool {
    &&& dlen <= isize::MAX
    &&& forall|i: int, j: int|
        0 <= i < m && 0 <= j < n ==> 0 <= offset + #[trigger] (i * s0) + #[trigger] (j * s1) < dlen
    &&& forall|i: int, j: int, i2: int, j2: int|
        0 <= i < m && 0 <= j < n && 0 <= i2 < m && 0 <= j2 < n && !(i == i2 && j == j2)
            ==> offset + #[trigger] (i * s0) + #[trigger] (j * s1)
                != offset + #[trigger] (i2 * s0) + #[trigger] (j2 * s1)
}

/// The stride family the matrix constructor accepts: both strides
/// positive, and one axis's stride at least covering the other axis's
/// whole extent, so that distinct logical entries never share a buffer
/// position. Row-ordered (`s0` spans `n` steps of `s1`) or column-ordered
/// (`s1` spans `m` steps of `s0`), gaps allowed.
pub open spec fn regular_strides(m: int, n: int, s0: int, s1: int) -> bool {
    ||| (s1 >= 1 && s0 >= n * s1)
    ||| (s0 >= 1 && s1 >= m * s0)
}

/// What the matrix constructor accepts: an empty matrix, or regular
/// strides whose highest logical entry still lands inside the buffer.
pub open spec fn mat_ctor_ok(dlen: int, offset: int, m: int, n: int, s0: int, s1: int) -> bool {
    &&& dlen <= isize::MAX
    &&& (m == 0 || n == 0 || {
        &&& regular_strides(m, n, s0, s1)
        &&& offset + (m - 1) * s0 + (n - 1) * s1 < dlen
    })
}

/// A matrix view: entry `(i, j)` of the view is
/// `data[offset + i * s0 + j * s1]`.
pub struct MatView<T> {
    pub data: Vec<T>,
    pub m: usize,
    pub n: usize,
    pub s0: isize,
    pub s1: isize,
    pub offset: usize,
}

impl<T> MatView<T> {
    /// The buffer position of logical entry `(i, j)`.
    pub open spec fn pos_of(self, i: int, j: int) -> int {
        self.offset + i * self.s0 + j * self.s1
    }

    /// Well-formedness: every logical entry lands inside the buffer and
    /// no two logical entries alias.
    pub open spec fn wf(self) -> bool {
        mat_indices_ok(
            self.data@.len() as int,
            self.offset as int,
            self.m as int,
            self.n as int,
            self.s0 as int,
            self.s1 as int,
        )
    }

    /// The shape of this view: what the layout detector, the
    /// compatibility checks and the dispatch planner look at.
    pub fn shape(&self) -> (s: MatShape)
        ensures
            s == (MatShape { m: self.m, n: self.n, s0: self.s0, s1: self.s1 }),
    {
        MatShape { m: self.m, n: self.n, s0: self.s0, s1: self.s1 }
    }
}

/// Buffer position `k` is outside the view: no logical entry of `z`
/// lives there, so the update may not change it.
pub open spec fn outside_entries<T>(z: MatView<T>, k: int) -> bool {
    forall|i: int, j: int| 0 <= i < z.m && 0 <= j < z.n ==> #[trigger] z.pos_of(i, j) != k
}

impl<T> View for MatView<T> {
    type V = Seq<Seq<T>>;

    open spec fn view(&self) -> Seq<Seq<T>> {
        Seq::new(
            self.m as nat,
            |i: int| Seq::new(self.n as nat, |j: int| self.data@[self.pos_of(i, j)]),
        )
    }
}

proof fn lemma_regular_bounds(dlen: int, offset: int, m: int, n: int, s0: int, s1: int)
    requires
        m >= 1,
        n >= 1,
        s0 >= 1,
        s1 >= 1,
        0 <= offset,
        offset + (m - 1) * s0 + (n - 1) * s1 < dlen,
    ensures
        forall|i: int, j: int|
            0 <= i < m && 0 <= j < n ==> 0 <= offset + #[trigger] (i * s0) + #[trigger] (j * s1) < dlen,
{
    assert forall|i: int, j: int|
        0 <= i < m && 0 <= j < n implies 0 <= offset + #[trigger] (i * s0) + #[trigger] (j * s1) < dlen by {
        assert(0 <= i * s0 <= (m - 1) * s0 && 0 <= j * s1 <= (n - 1) * s1) by (nonlinear_arith)
            requires
                0 <= i < m,
                0 <= j < n,
                s0 >= 1,
                s1 >= 1,
        ;
    }
}

proof fn lemma_row_ordered_injective(m: int, n: int, s0: int, s1: int)
    requires
        s1 >= 1,
        s0 >= n * s1,
    ensures
        forall|i: int, j: int, i2: int, j2: int|
            0 <= i < m && 0 <= j < n && 0 <= i2 < m && 0 <= j2 < n && !(i == i2 && j == j2)
                ==> #[trigger] (i * s0) + #[trigger] (j * s1) != #[trigger] (i2 * s0) + #[trigger] (j2 * s1),
{
    assert forall|i: int, j: int, i2: int, j2: int|
        0 <= i < m && 0 <= j < n && 0 <= i2 < m && 0 <= j2 < n && !(i == i2 && j == j2)
            implies #[trigger] (i * s0) + #[trigger] (j * s1) != #[trigger] (i2 * s0) + #[trigger] (j2 * s1) by {
        if i == i2 {
            assert(j * s1 != j2 * s1) by (nonlinear_arith)
                requires
                    s1 >= 1,
                    j != j2,
            ;
        } else if i < i2 {
            assert(i * s0 + j * s1 < i2 * s0 + j2 * s1) by (nonlinear_arith)
                requires
                    0 <= i < i2,
                    0 <= j < n,
                    0 <= j2,
                    s1 >= 1,
                    s0 >= n * s1,
            ;
        } else {
            assert(i2 * s0 + j2 * s1 < i * s0 + j * s1) by (nonlinear_arith)
                requires
                    0 <= i2 < i,
                    0 <= j2 < n,
                    0 <= j,
                    s1 >= 1,
                    s0 >= n * s1,
            ;
        }
    }
}

proof fn lemma_regular_injective(m: int, n: int, s0: int, s1: int)
    requires
        regular_strides(m, n, s0, s1),
    ensures
        forall|i: int, j: int, i2: int, j2: int|
            0 <= i < m && 0 <= j < n && 0 <= i2 < m && 0 <= j2 < n && !(i == i2 && j == j2)
                ==> #[trigger] (i * s0) + #[trigger] (j * s1) != #[trigger] (i2 * s0) + #[trigger] (j2 * s1),
{
    if s1 >= 1 && s0 >= n * s1 {
        lemma_row_ordered_injective(m, n, s0, s1);
    } else {
        lemma_row_ordered_injective(n, m, s1, s0);
        assert forall|i: int, j: int, i2: int, j2: int|
            0 <= i < m && 0 <= j < n && 0 <= i2 < m && 0 <= j2 < n && !(i == i2 && j == j2)
                implies #[trigger] (i * s0) + #[trigger] (j * s1) != #[trigger] (i2 * s0) + #[trigger] (j2 * s1) by {
            assert(j * s1 + i * s0 != j2 * s1 + i2 * s0);
        }
    }
}

proof fn lemma_mat_dims_bound(dlen: int, offset: int, m: int, n: int, s0: int, s1: int)
    requires
        mat_indices_ok(dlen, offset, m, n, s0, s1),
        m >= 1,
        n >= 1,
    ensures
        m <= dlen,
        n <= dlen,
{
    assert(0 * s0 == 0 && 0 * s1 == 0 && 1 * s0 == s0 && 1 * s1 == s1);
    assert(0 <= offset + 0 * s0 + 0 * s1 < dlen);
    if m >= 2 {
        assert(offset + 1 * s0 + 0 * s1 != offset + 0 * s0 + 0 * s1);
        let last: int = m - 1;
        assert(0 <= offset + last * s0 + 0 * s1 < dlen);
        assert(m <= dlen) by (nonlinear_arith)
            requires
                s0 != 0,
                last == m - 1,
                m >= 2,
                0 <= offset < dlen,
                0 <= offset + last * s0 < dlen,
        ;
    }
    if n >= 2 {
        assert(offset + 0 * s0 + 1 * s1 != offset + 0 * s0 + 0 * s1);
        let last: int = n - 1;
        assert(0 <= offset + 0 * s0 + last * s1 < dlen);
        assert(n <= dlen) by (nonlinear_arith)
            requires
                s1 != 0,
                last == n - 1,
                n >= 2,
                0 <= offset < dlen,
                0 <= offset + last * s1 < dlen,
        ;
    }
}

impl<T> MatView<T> {
    /// Build a view over `data`, validating the constructor's stride
    /// family: exactly the descriptors `mat_ctor_ok` allows are accepted,
    /// and every accepted view is well-formed.
    pub fn try_new(data: Vec<T>, offset: usize, m: usize, n: usize, s0: isize, s1: isize) -> (r: Option<
        MatView<T>,
    >)
        ensures
            r is Some <==> mat_ctor_ok(
                data@.len() as int,
                offset as int,
                m as int,
                n as int,
                s0 as int,
                s1 as int,
            ),
            r matches Some(v) ==> v == (MatView { data, m, n, s0, s1, offset }) && v.wf(),
    {
        let dlen = data.len();
        if dlen > isize::MAX as usize {
            return None;
        }
        if m == 0 || n == 0 {
            return Some(MatView { data, m, n, s0, s1, offset });
        }
        proof {
            assert((n as i128 as int) * (s1 as i128 as int) < i128::MAX
                && (n as i128 as int) * (s1 as i128 as int) > i128::MIN
                && (m as i128 as int) * (s0 as i128 as int) < i128::MAX
                && (m as i128 as int) * (s0 as i128 as int) > i128::MIN
                && ((m - 1) as i128 as int) * (s0 as i128 as int) < i128::MAX
                && ((m - 1) as i128 as int) * (s0 as i128 as int) > i128::MIN
                && ((n - 1) as i128 as int) * (s1 as i128 as int) < i128::MAX
                && ((n - 1) as i128 as int) * (s1 as i128 as int) > i128::MIN) by (nonlinear_arith)
                requires
                    0 < (m as int),
                    (m as int) < 0x1_0000_0000_0000_0000,
                    0 < (n as int),
                    (n as int) < 0x1_0000_0000_0000_0000,
                    (s0 as int) >= -0x8000_0000_0000_0000,
                    (s0 as int) < 0x8000_0000_0000_0000,
                    (s1 as int) >= -0x8000_0000_0000_0000,
                    (s1 as int) < 0x8000_0000_0000_0000,
            ;
        }
        let row_ordered = s1 >= 1 && (s0 as i128) >= (n as i128) * (s1 as i128);
        let col_ordered = s0 >= 1 && (s1 as i128) >= (m as i128) * (s0 as i128);
        if !(row_ordered || col_ordered) {
            return None;
        }
        proof {
            assert(s0 as int >= 1 && s1 as int >= 1) by (nonlinear_arith)
                requires
                    m as int >= 1,
                    n as int >= 1,
                    (s1 as int >= 1 && s0 as int >= (n as int) * (s1 as int))
                        || (s0 as int >= 1 && s1 as int >= (m as int) * (s0 as int)),
            ;
        }
        let span0: i128 = ((m - 1) as i128) * (s0 as i128);
        let span1: i128 = ((n - 1) as i128) * (s1 as i128);
        proof {
            assert(span0 >= 0 && span1 >= 0) by (nonlinear_arith)
                requires
                    span0 as int == (m - 1) * (s0 as int),
                    span1 as int == (n - 1) * (s1 as int),
                    m >= 1,
                    n >= 1,
                    s0 as int >= 1,
                    s1 as int >= 1,
            ;
        }
        if span0 >= dlen as i128 || span1 >= dlen as i128 {
            return None;
        }
        let last: i128 = offset as i128 + span0 + span1;
        if last >= dlen as i128 {
            return None;
        }
        proof {
            lemma_regular_bounds(dlen as int, offset as int, m as int, n as int, s0 as int, s1 as int);
            lemma_regular_injective(m as int, n as int, s0 as int, s1 as int);
        }
        Some(MatView { data, m, n, s0, s1, offset })
    }

    fn entry_pos(&self, i: usize, j: usize) -> (r: usize)
        requires
            self.wf(),
            i < self.m,
            j < self.n,
        ensures
            r == self.pos_of(i as int, j as int),
    {
        proof {
            lemma_mat_dims_bound(
                self.data@.len() as int,
                self.offset as int,
                self.m as int,
                self.n as int,
                self.s0 as int,
                self.s1 as int,
            );
            assert(0 * self.s0 == 0 && 0 * self.s1 == 0);
            assert(0 <= self.offset + 0 * self.s0 + 0 * self.s1 < self.data@.len());
            assert(0 <= self.offset + (i as int) * self.s0 + 0 * self.s1 < self.data@.len());
            assert(0 <= self.offset + (i as int) * self.s0 + (j as int) * self.s1 < self.data@.len());
        }
        let base = self.offset as isize + (i as isize) * self.s0;
        let pos = base + (j as isize) * self.s1;
        pos as usize
    }

    /// Overwrite logical entry `(i, j)` with `v`: exactly that entry of
    /// the view changes.
    pub fn write_entry(&mut self, i: usize, j: usize, v: T)
        requires
            old(self).wf(),
            i < old(self).m,
            j < old(self).n,
        ensures
            final(self).wf(),
            final(self).m == old(self).m,
            final(self).n == old(self).n,
            final(self).s0 == old(self).s0,
            final(self).s1 == old(self).s1,
            final(self).offset == old(self).offset,
            final(self).data@.len() == old(self).data@.len(),
            final(self)@ == old(self)@.update(i as int, old(self)@[i as int].update(j as int, v)),
            final(self).data@ == old(self).data@.update(old(self).pos_of(i as int, j as int), v),
    {
        let pos = self.entry_pos(i, j);
        self.data[pos] = v;
        proof {
            let pre = *old(self);
            let target = pre@.update(i as int, pre@[i as int].update(j as int, v));
            assert forall|r: int| 0 <= r < self.m implies self@[r] =~= target[r] by {
                assert forall|c: int| 0 <= c < self.n implies self@[r][c] == target[r][c] by {
                    if r == i && c == j {
                        assert(self@[r][c] == v);
                    } else {
                        assert(pre.pos_of(r, c) != pre.pos_of(i as int, j as int));
                    }
                }
            }
            assert(self@ =~= target);
        }
    }
}

impl<T: Copy> MatView<T> {
    /// Read logical entry `(i, j)`.
    pub fn read_entry(&self, i: usize, j: usize) -> (r: T)
        requires
            self.wf(),
            i < self.m,
            j < self.n,
        ensures
            r == self@[i as int][j as int],
    {
        let pos = self.entry_pos(i, j);
        self.data[pos]
    }
}

} // verus!
