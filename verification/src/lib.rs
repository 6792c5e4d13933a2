//! Rank-1 matrix update (the BLAS "GER" operation): `Z <- Z + alpha * x * y^T`.
//!
//! The crate's core is the dispatch and compatibility layer around that
//! update: classifying a strided matrix as row- or column-major, checking
//! that shapes and strides fit a native BLAS routine's 32-bit signed
//! integer arguments, normalizing negative vector strides to the pointer
//! convention BLAS expects, and a portable, layout-aware fallback kernel
//! working over the crate's own strided views.
//!
//! Everything that decides is verified here; performing a native BLAS call
//! itself (a C foreign function over raw pointers) is left to the caller,
//! who obtains every argument for it from the dispatch planner.

pub mod compat;
pub mod dispatch;
pub mod ger;
pub mod laws;
pub mod layout;
pub mod scalar;
pub mod shape;
pub mod view;
