//! Geometric and photometric primitives for a ray tracer: homogeneous
//! tuples (points and vectors) and linear RGB colors, compared through a
//! tolerance-based equality capability.
//!
//! The aggregates are generic over their scalar type. The scalar arithmetic
//! itself is supplied by the caller; this library fixes how each operation
//! treats the point/vector discriminator and how equality composes.
pub mod approx;
pub mod color;
pub mod tuple;

pub use approx::{is_approx_eq, ApproxEq};
pub use color::{make_color, Color};
pub use tuple::{make_point, make_vector, Tuple, POINT, VECTOR};
