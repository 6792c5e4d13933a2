//! Plain shape-and-stride descriptors of strided one- and two-dimensional
//! buffers. A descriptor carries no data; it is what the layout detector,
//! the compatibility checks and the dispatch planner reason about.

use vstd::prelude::*;

verus! {

/// Shape of a strided vector view: a logical length and a signed stride in
/// element units. Element `i` of the view lives `i * stride` elements away
/// from the view's first logical element; a negative stride walks the
/// underlying buffer backwards.
#[derive(Clone, Copy, Debug, PartialEq, Eq, Structural)]
pub struct VecShape {
    pub len: usize,
    pub stride: isize,
}

/// Shape of a strided matrix view: `m` rows by `n` columns, with signed
/// per-axis strides in element units. Entry `(i, j)` lives
/// `i * s0 + j * s1` elements away from the view's first logical element.
#[derive(Clone, Copy, Debug, PartialEq, Eq, Structural)]
pub struct MatShape {
    pub m: usize,
    pub n: usize,
    pub s0: isize,
    pub s1: isize,
}

} // verus!
