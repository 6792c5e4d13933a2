//! Properties of the update that relate several operations, stated and
//! proved over the same spec functions the operations' own contracts use.

use vstd::prelude::*;
use crate::compat::spec_blas_offset;
use crate::ger::spec_ger;
use crate::scalar::Scalar;
use crate::shape::VecShape;
use crate::view::{lemma_negative_stride_reversal, reversed_view, MatView, VecView};

verus! {

/// Layout independence: the update's outcome depends only on the
/// matrix's logical values, never on how they are stored. Two views
/// holding the same logical matrix — one row-major, one column-major, or
/// any other layout — are taken to the same logical result.
pub proof fn lemma_ger_layout_independent<T: Scalar>(
    z1: MatView<T>,
    z2: MatView<T>,
    alpha: T,
    x: Seq<T>,
    y: Seq<T>,
)
    requires
        z1@ == z2@,
    ensures
        spec_ger(z1@, alpha, x, y) == spec_ger(z2@, alpha, x, y),
{
}

/// Negative-stride correctness for the column vector: updating with a
/// negative-stride view of `x` gives the same logical result as updating
/// with its explicitly reversed, positive-stride copy read back to front.
pub proof fn lemma_ger_reversed_x<T: Scalar>(z: Seq<Seq<T>>, alpha: T, x: VecView<T>, y: Seq<T>)
    requires
        x.wf(),
        x.stride < 0,
    ensures
        spec_ger(z, alpha, reversed_view(x)@.reverse(), y) == spec_ger(z, alpha, x@, y),
{
    lemma_negative_stride_reversal(x);
    assert(reversed_view(x)@.reverse() =~= x@);
}

/// Negative-stride correctness for the row vector, as for the column
/// vector.
pub proof fn lemma_ger_reversed_y<T: Scalar>(z: Seq<Seq<T>>, alpha: T, x: Seq<T>, y: VecView<T>)
    requires
        y.wf(),
        y.stride < 0,
    ensures
        spec_ger(z, alpha, x, reversed_view(y)@.reverse()) == spec_ger(z, alpha, x, y@),
{
    lemma_negative_stride_reversal(y);
    assert(reversed_view(y)@.reverse() =~= y@);
}

/// The stride normalization hands a native routine exactly the start of
/// the reversed copy: for a negative-stride view, moving the pointer by
/// the normalizer's offset lands on the view's lowest-addressed element,
/// where the reversed, positive-stride copy begins.
pub proof fn lemma_blas_offset_is_reversed_start<T>(v: VecView<T>)
    requires
        v.wf(),
        v.stride < 0,
        v.len > 0,
    ensures
        v.offset + spec_blas_offset(VecShape { len: v.len, stride: v.stride })
            == reversed_view(v).offset,
{
    lemma_negative_stride_reversal(v);
}

/// A degenerate update is a no-op: with no rows or no columns (so with a
/// zero-length `x` or `y`), the matrix's logical value is unchanged.
pub proof fn lemma_ger_empty_is_noop<T: Scalar>(z: MatView<T>, alpha: T, x: Seq<T>, y: Seq<T>)
    requires
        z.m == 0 || z.n == 0,
    ensures
        spec_ger(z@, alpha, x, y) == z@,
{
    assert forall|r: int| 0 <= r < z@.len() implies spec_ger(z@, alpha, x, y)[r] =~= z@[r] by {
    }
    assert(spec_ger(z@, alpha, x, y) =~= z@);
}

} // verus!
