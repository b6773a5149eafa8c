//! Fixed-dimension vectors and small matrices over exact integer elements,
//! with component-wise bounding boxes.
pub mod homogeneous;
pub mod matrix;
pub mod minmax;
pub mod plane;
pub mod reduce;
pub mod scalar;
pub mod space;

pub use homogeneous::xyzw;
pub use matrix::{adjugate, cofactor, det, diagonal, inverse, minor, mul, mul1, mulv, submatrix, transpose};
pub use minmax::{max, min, minmax, reduce_minmax, MinMax};
pub use plane::{ceil, cross2, div_ceil, iceil, ifloor, int2, scale_rect, size, uint2, xy, Rect};
pub use reduce::{dot, sq, sum, Components};
pub use scalar::{component_wise_max, component_wise_min, Additive, ComponentWiseMinMax, Ratio, Scalar};
pub use space::{cross, xyz};
