//! Element types of the update.
//!
//! Two things live here. [`ScalarKind`] classifies an element type for the
//! accelerated paths: the native routines exist for exactly two precisions,
//! and every other element type routes to the generic kernel. [`Scalar`] is
//! what the generic kernel asks of an element type: copyable values with
//! addition and multiplication whose exact outcome each implementation
//! states as a spec function.

use vstd::prelude::*;

verus! {

/// Classification of an element type for dispatch: one of the two
/// precisions a native routine exists for, or any other element type.
///
/// Two distinct element types may both be classified `Other`, so equality
/// of kinds is type identity only when one side is an accelerated
/// precision — which is the only way the dispatcher uses it.
#[derive(Clone, Copy, Debug, PartialEq, Eq, Structural)]
pub enum ScalarKind {
    F32,
    F64,
    Other,
}

/// Return `true` if the two element-type classifications are the same
/// kind. The dispatcher calls this with an accelerated precision on one
/// side to decide whether a native routine may handle the element type.
pub fn same_type(a: ScalarKind, b: ScalarKind) -> (r: bool)
    ensures
        r == (a == b),
{
    a == b
}

/// An element type the generic kernel can update: values are copyable and
/// support addition and multiplication. Each implementation pins the exact
/// result of both operations with a spec function of its own, so the
/// kernel's contract is exact for every implementing type.
pub trait Scalar: Sized + Copy {
    /// The value of `self + other` for this element type.
    spec fn spec_plus(self, other: Self) -> Self;

    /// The value of `self * other` for this element type.
    spec fn spec_times(self, other: Self) -> Self;

    /// Add two elements.
    fn plus(self, other: Self) -> (r: Self)
        ensures
            r == self.spec_plus(other),
    ;

    /// Multiply two elements.
    fn times(self, other: Self) -> (r: Self)
        ensures
            r == self.spec_times(other),
    ;
}

impl Scalar for i64 {
    open spec fn spec_plus(self, other: i64) -> i64 {
        vstd::wrapping::i64_specs::wrapping_add(self, other)
    }

    open spec fn spec_times(self, other: i64) -> i64 {
        vstd::wrapping::i64_specs::wrapping_mul(self, other)
    }

    fn plus(self, other: i64) -> (r: i64) {
        self.wrapping_add(other)
    }

    fn times(self, other: i64) -> (r: i64) {
        self.wrapping_mul(other)
    }
}

impl Scalar for i32 {
    open spec fn spec_plus(self, other: i32) -> i32 {
        vstd::wrapping::i32_specs::wrapping_add(self, other)
    }

    open spec fn spec_times(self, other: i32) -> i32 {
        vstd::wrapping::i32_specs::wrapping_mul(self, other)
    }

    fn plus(self, other: i32) -> (r: i32) {
        self.wrapping_add(other)
    }

    fn times(self, other: i32) -> (r: i32) {
        self.wrapping_mul(other)
    }
}

} // verus!
