//! The dispatcher's decision chain.
//!
//! For each of the two accelerated precisions, in a fixed order: if the
//! element type matches, the matrix and both vectors fit the native
//! routine's integer and sign constraints, and the matrix has a definite
//! memory layout, the update goes to that routine, and the plan carries
//! every argument the call needs. Otherwise the update goes to the generic
//! kernel. The caller owning the native routines executes the plan; the
//! generic kernel lives in this crate.

use vstd::prelude::*;
use crate::compat::{
    blas_1d_params, is_blas_compat_1d, is_blas_compat_2d, spec_blas_offset, spec_compat_1d,
    spec_compat_2d,
};
use crate::layout::{memory_layout, spec_memory_layout, MemoryOrder};
use crate::scalar::{same_type, ScalarKind};
use crate::shape::{MatShape, VecShape};

verus! {

/// How one rank-1 update is to be carried out.
///
/// `Accelerated` carries, ready for the native routine's C calling
/// convention: the layout, both dimensions, the offset in elements from
/// each vector's first logical element to its lowest-addressed one, both
/// increments, and the matrix's leading dimension. `Generic` routes the
/// update to the generic kernel.
#[derive(Clone, Copy, Debug, PartialEq, Eq, Structural)]
pub enum GerPlan {
    Accelerated {
        layout: MemoryOrder,
        m: i32,
        n: i32,
        x_offset: i64,
        incx: i32,
        y_offset: i64,
        incy: i32,
        lda: i32,
    },
    Generic,
}

/// The plan for a rank-1 update of a matrix of shape `z` with vectors of
/// shapes `x` and `y`, all with elements of kind `elem`: accelerated
/// exactly when the element type is one of the two native precisions, all
/// three shapes fit the native routine's constraints, and the matrix's
/// layout is definite.
pub open spec fn spec_plan_ger(elem: ScalarKind, z: MatShape, x: VecShape, y: VecShape) -> GerPlan {
    if (elem == ScalarKind::F32 || elem == ScalarKind::F64) && spec_compat_2d(z)
        && spec_compat_1d(x) && spec_compat_1d(y) {
        match spec_memory_layout(z) {
            Some(layout) => (GerPlan::Accelerated {
                layout,
                m: z.m as i32,
                n: z.n as i32,
                x_offset: spec_blas_offset(x) as i64,
                incx: x.stride as i32,
                y_offset: spec_blas_offset(y) as i64,
                incy: y.stride as i32,
                lda: layout.spec_stride(z) as i32,
            }),
            None => GerPlan::Generic,
        }
    } else {
        GerPlan::Generic
    }
}

fn plan_accelerated(z: &MatShape, x: &VecShape, y: &VecShape, layout: MemoryOrder) -> (r: GerPlan)
    requires
        spec_compat_2d(*z),
        spec_compat_1d(*x),
        spec_compat_1d(*y),
    ensures
        (r == GerPlan::Accelerated {
            layout,
            m: z.m as i32,
            n: z.n as i32,
            x_offset: spec_blas_offset(*x) as i64,
            incx: x.stride as i32,
            y_offset: spec_blas_offset(*y) as i64,
            incy: y.stride as i32,
            lda: layout.spec_stride(*z) as i32,
        }),
{
    let (x_offset, _, incx) = blas_1d_params(x);
    let (y_offset, _, incy) = blas_1d_params(y);
    GerPlan::Accelerated {
        layout,
        m: z.m as i32,
        n: z.n as i32,
        x_offset,
        incx,
        y_offset,
        incy,
        lda: layout.stride(z),
    }
}

/// Decide how to carry out one rank-1 update: try each accelerated
/// precision in order, and fall back to the generic kernel if none
/// applies. An incompatible shape, an indeterminate layout or a
/// non-accelerated element type is not an error, only a routing decision.
pub fn plan_ger(elem: ScalarKind, z: &MatShape, x: &VecShape, y: &VecShape) -> (r: GerPlan)
    ensures
        r == spec_plan_ger(elem, *z, *x, *y),
{
    if same_type(elem, ScalarKind::F32) && is_blas_compat_2d(z) && is_blas_compat_1d(x)
        && is_blas_compat_1d(y) {
        if let Some(layout) = memory_layout(z) {
            return plan_accelerated(z, x, y, layout);
        }
    }
    if same_type(elem, ScalarKind::F64) && is_blas_compat_2d(z) && is_blas_compat_1d(x)
        && is_blas_compat_1d(y) {
        if let Some(layout) = memory_layout(z) {
            return plan_accelerated(z, x, y, layout);
        }
    }
    GerPlan::Generic
}

} // verus!
