//! A small reverse-mode automatic-differentiation engine over trees of scalar
//! operations, together with the index arithmetic, dataset decoding and dense
//! layer evaluation that surround it.

pub mod scalar;
pub mod tree;
pub mod expression;
pub mod laws;
pub mod math;
pub mod mnist;
pub mod nn;
