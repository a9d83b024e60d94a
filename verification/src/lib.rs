//! Integer blueprint of the two-dimensional discrete cosine transform
//! (DCT-II) and its inverse (IDCT-III).
//!
//! The transform itself is floating-point arithmetic, which stays outside
//! this crate. Everything that determines that arithmetic exactly lives
//! here, verified: the angle indices of the cosine basis matrix, the
//! normalization (alpha) numerators, the precomputed per-engine table
//! layout, the shape checks that reject invalid configurations and
//! mismatched blocks, and the transposition helpers used by the separable
//! two-dimensional passes.

pub mod laws;
pub mod plan;
pub mod shape;
pub mod tables;
