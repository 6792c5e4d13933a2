//! Native-routine compatibility checks and stride normalization.
//!
//! A native BLAS routine takes every dimension, stride and increment as a
//! 32-bit signed integer (`c_int`), has no notion of a negative matrix
//! stride, and wants a vector handed to it as a pointer to its
//! lowest-addressed element together with a signed increment. The checks
//! here decide whether a given shape fits those constraints; failing them
//! is never an error, only a deterministic routing decision towards the
//! generic kernel.

use vstd::prelude::*;
use crate::layout::MemoryOrder;
use crate::scalar::{same_type, ScalarKind};
use crate::shape::{MatShape, VecShape};

verus! {

/// A stride or increment the native routine can take: it fits the 32-bit
/// signed integer range at both ends.
pub open spec fn spec_compat_stride(s: isize) -> bool {
    i32::MIN <= s <= i32::MAX
}

fn is_blas_compat_stride(s: isize) -> (r: bool)
    ensures
        r == spec_compat_stride(s),
{
    s <= i32::MAX as isize && s >= i32::MIN as isize
}

/// A dimension the native routine can take: it does not exceed the 32-bit
/// signed integer maximum.
pub open spec fn spec_compat_dim(n: usize) -> bool {
    n <= i32::MAX
}

fn is_blas_compat_dim(n: usize) -> (r: bool)
    ensures
        r == spec_compat_dim(n),
{
    n <= i32::MAX as usize
}

/// A vector shape the native routine can take: length within the 32-bit
/// signed maximum and stride within the 32-bit signed range. A negative
/// vector stride is fine; the pointer is adjusted for it.
pub open spec fn spec_compat_1d(v: VecShape) -> bool {
    &&& spec_compat_dim(v.len)
    &&& spec_compat_stride(v.stride)
}

/// Check that a vector shape fits the native routine's integer arguments.
pub fn is_blas_compat_1d(v: &VecShape) -> (r: bool)
    ensures
        r == spec_compat_1d(*v),
{
    if !is_blas_compat_dim(v.len) {
        return false;
    }
    if !is_blas_compat_stride(v.stride) {
        return false;
    }
    true
}

/// A matrix shape the native routine can take: both strides at least 1
/// (the routine has no notion of a negative or zero matrix stride), and
/// both strides and both dimensions within the 32-bit signed range.
pub open spec fn spec_compat_2d(s: MatShape) -> bool {
    &&& s.s0 >= 1 && s.s1 >= 1
    &&& spec_compat_stride(s.s0) && spec_compat_stride(s.s1)
    &&& spec_compat_dim(s.m) && spec_compat_dim(s.n)
}

/// Check that a matrix shape fits the native routine's integer arguments
/// and sign constraints. A matrix with a negative axis stride is always
/// incompatible and falls back to the generic kernel.
pub fn is_blas_compat_2d(s: &MatShape) -> (r: bool)
    ensures
        r == spec_compat_2d(*s),
{
    if s.s0 < 1 || s.s1 < 1 {
        return false;
    }
    if !is_blas_compat_stride(s.s0) || !is_blas_compat_stride(s.s1) {
        return false;
    }
    if !is_blas_compat_dim(s.m) || !is_blas_compat_dim(s.n) {
        return false;
    }
    true
}

/// A matrix shape a native routine can walk in the given order: the inner
/// (fast) axis has unit stride unless its outer dimension is 1, both
/// strides are at least 1, and strides and dimensions fit the 32-bit
/// signed range.
pub open spec fn spec_is_blas_2d(dim: (usize, usize), stride: (isize, isize), order: MemoryOrder) -> bool {
    let inner_stride = match order {
        MemoryOrder::C => stride.1,
        MemoryOrder::F => stride.0,
    };
    let outer_dim = match order {
        MemoryOrder::C => dim.1,
        MemoryOrder::F => dim.0,
    };
    &&& inner_stride == 1 || outer_dim == 1
    &&& stride.0 >= 1 && stride.1 >= 1
    &&& spec_compat_stride(stride.0) && spec_compat_stride(stride.1)
    &&& spec_compat_dim(dim.0) && spec_compat_dim(dim.1)
}

/// Check that a matrix of dimensions `dim` and strides `stride` can be
/// handed to a native routine as a matrix of the given memory order.
pub fn is_blas_2d(dim: (usize, usize), stride: (isize, isize), order: MemoryOrder) -> (r: bool)
    ensures
        r == spec_is_blas_2d(dim, stride, order),
{
    let (m, n) = dim;
    let (s0, s1) = stride;
    let (inner_stride, outer_dim): (isize, usize) = match order {
        MemoryOrder::C => (s1, n),
        MemoryOrder::F => (s0, m),
    };
    if !(inner_stride == 1 || outer_dim == 1) {
        return false;
    }
    if s0 < 1 || s1 < 1 {
        return false;
    }
    if !is_blas_compat_stride(s0) || !is_blas_compat_stride(s1) {
        return false;
    }
    if !is_blas_compat_dim(m) || !is_blas_compat_dim(n) {
        return false;
    }
    true
}

/// Check that a vector with elements of kind `elem` can be handed to the
/// native routine of precision `target`: the element type must match the
/// target precision exactly (no implicit numeric conversion, ever), and
/// the shape must fit the routine's integer arguments.
pub fn blas_compat_1d(elem: ScalarKind, target: ScalarKind, v: &VecShape) -> (r: bool)
    ensures
        r == (elem == target && spec_compat_1d(*v)),
{
    if !same_type(elem, target) {
        return false;
    }
    is_blas_compat_1d(v)
}

fn blas_row_major_2d(elem: ScalarKind, target: ScalarKind, s: &MatShape) -> (r: bool)
    ensures
        r == (elem == target && spec_is_blas_2d((s.m, s.n), (s.s0, s.s1), MemoryOrder::C)),
{
    if !same_type(elem, target) {
        return false;
    }
    is_blas_2d((s.m, s.n), (s.s0, s.s1), MemoryOrder::C)
}

fn blas_column_major_2d(elem: ScalarKind, target: ScalarKind, s: &MatShape) -> (r: bool)
    ensures
        r == (elem == target && spec_is_blas_2d((s.m, s.n), (s.s0, s.s1), MemoryOrder::F)),
{
    if !same_type(elem, target) {
        return false;
    }
    is_blas_2d((s.m, s.n), (s.s0, s.s1), MemoryOrder::F)
}

/// The layout to hand a native routine of precision `target` for a matrix
/// with elements of kind `elem` and shape `s`: row-major if the routine
/// can walk the matrix in row-major order, else column-major if it can
/// walk it that way, else `None` and the whole call falls back.
pub open spec fn spec_blas_layout(elem: ScalarKind, target: ScalarKind, s: MatShape) -> Option<MemoryOrder> {
    if elem == target && spec_is_blas_2d((s.m, s.n), (s.s0, s.s1), MemoryOrder::C) {
        Some(MemoryOrder::C)
    } else if elem == target && spec_is_blas_2d((s.m, s.n), (s.s0, s.s1), MemoryOrder::F) {
        Some(MemoryOrder::F)
    } else {
        None
    }
}

/// Determine the layout under which a native routine of precision `target`
/// can take a matrix with elements of kind `elem` and shape `s`.
pub fn blas_layout(elem: ScalarKind, target: ScalarKind, s: &MatShape) -> (r: Option<MemoryOrder>)
    ensures
        r == spec_blas_layout(elem, target, *s),
{
    if blas_row_major_2d(elem, target, s) {
        Some(MemoryOrder::C)
    } else if blas_column_major_2d(elem, target, s) {
        Some(MemoryOrder::F)
    } else {
        None
    }
}

/// The offset, in elements, from a vector view's first logical element to
/// its lowest-addressed element: zero for a non-negative stride or an
/// empty vector, `(len - 1) * stride` (a negative number) otherwise.
pub open spec fn spec_blas_offset(v: VecShape) -> int {
    if v.stride >= 0 || v.len == 0 {
        0
    } else {
        (v.len - 1) * v.stride
    }
}

/// Normalize a vector shape to the native routine's calling convention.
///
/// The native routine expects a pointer to the lowest-addressed element
/// and a signed increment. The result is the offset, in elements, to add
/// to a pointer at the view's first logical element to reach the
/// lowest-addressed one, together with the length and the increment as the
/// routine's 32-bit integers. The increment stays the original (possibly
/// negative) stride; the routine then walks backward from the lowest
/// address. An empty vector gets offset zero, so its pointer is never
/// moved.
pub fn blas_1d_params(v: &VecShape) -> (r: (i64, i32, i32))
    requires
        spec_compat_1d(*v),
    ensures
        r.0 == spec_blas_offset(*v),
        r.1 == v.len as i32,
        r.2 == v.stride as i32,
{
    if v.stride >= 0 || v.len == 0 {
        (0i64, v.len as i32, v.stride as i32)
    } else {
        proof {
            let l = (v.len - 1) as int;
            let s = v.stride as int;
            assert(i64::MIN <= l * s <= 0) by (nonlinear_arith)
                requires
                    0 <= l <= i32::MAX,
                    i32::MIN <= s < 0,
            ;
        }
        let offset: i64 = ((v.len - 1) as i64) * (v.stride as i64);
        (offset, v.len as i32, v.stride as i32)
    }
}

} // verus!
