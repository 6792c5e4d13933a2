//! Memory-layout detection: classify a strided matrix as row-major (C
//! order), column-major (F order), or neither.

use vstd::prelude::*;
use crate::shape::MatShape;

verus! {

/// The memory order of a matrix view: `C` for row-major (consecutive
/// elements of one row are adjacent in memory), `F` for column-major.
#[derive(Clone, Copy, Debug, PartialEq, Eq, Structural)]
pub enum MemoryOrder {
    C,
    F,
}

/// What `memory_layout` returns: a definite order, or `None` when neither
/// axis has unit stride.
///
/// A unit column stride (or a single column, whose stride never matters)
/// makes the matrix row-major; failing that, a unit row stride (or a single
/// row) makes it column-major. The row-major test comes first, so a 1-by-1
/// matrix is classified row-major by convention.
pub open spec fn spec_memory_layout(s: MatShape) -> Option<MemoryOrder> {
    if s.s1 == 1 || s.n == 1 {
        Some(MemoryOrder::C)
    } else if s.s0 == 1 || s.m == 1 {
        Some(MemoryOrder::F)
    } else {
        None
    }
}

/// Classify a matrix view's memory layout from its shape and strides.
/// `None` (an indeterminate layout) is a valid outcome and routes the
/// update to the generic kernel.
pub fn memory_layout(s: &MatShape) -> (r: Option<MemoryOrder>)
    ensures
        r == spec_memory_layout(*s),
{
    if s.s1 == 1 || s.n == 1 {
        Some(MemoryOrder::C)
    } else if s.s0 == 1 || s.m == 1 {
        Some(MemoryOrder::F)
    } else {
        None
    }
}

impl MemoryOrder {
    /// The leading dimension a native routine is handed for a matrix of
    /// this order: the stride between consecutive rows for row-major,
    /// between consecutive columns for column-major.
    pub open spec fn spec_stride(self, s: MatShape) -> int {
        match self {
            MemoryOrder::C => s.s0 as int,
            MemoryOrder::F => s.s1 as int,
        }
    }

    /// The leading dimension of `s` under this order, as the native
    /// routine's 32-bit signed integer.
    pub fn stride(&self, s: &MatShape) -> (r: i32)
        requires
            i32::MIN <= s.s0 <= i32::MAX,
            i32::MIN <= s.s1 <= i32::MAX,
        ensures
            r == self.spec_stride(*s),
    {
        match self {
            MemoryOrder::C => s.s0 as i32,
            MemoryOrder::F => s.s1 as i32,
        }
    }
}

} // verus!
