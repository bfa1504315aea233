//! An exact geometry kernel for intersecting a parametric 3D line (ray) with
//! planes, spheres and triangles.
//!
//! All coordinates are integers and every derived quantity is kept exact: a
//! ray parameter is either a rational number `num / den` or a quadratic surd
//! `(num + sgn * sqrt(disc)) / den`, so intersection counts, signs and
//! comparisons are decided without any rounding. The price is a bound on the
//! size of input coordinates (`COORD_LIMIT`), chosen so that every
//! intermediate product provably fits in an `i128`.

use vstd::prelude::*;

pub mod arith;
pub mod base;
pub mod frac;
pub mod line3;
pub mod plane;
pub mod sphere;
pub mod triangle3;
pub mod vector3;

pub use base::GeomError;
pub use base::Intersection;
pub use base::Lambda;
pub use base::Shape;
pub use frac::Frac;
pub use frac::Frac3;
pub use frac::Radical;
pub use line3::Line3;
pub use plane::Plane;
pub use sphere::Sphere;
pub use triangle3::Triangle3;
pub use vector3::Vector3;

verus! {

/// Largest coordinate magnitude accepted for the points that define shapes
/// and lines. Small enough that the deepest product chain of the kernel (the
/// barycentric solve applied to a rational hit point) stays within `i128`.
pub const COORD_LIMIT: i64 = 8192;

/// Largest coordinate magnitude accepted for a plane normal; large enough to
/// hold the cross product of two triangle edges (`8 * COORD_LIMIT^2`).
pub const NORMAL_LIMIT: i64 = 8 * 8192 * 8192;

/// Bound on the arguments of the elementwise vector operations; their
/// products then fit comfortably in an `i64`.
pub const VEC_OP_LIMIT: i64 = 1073741824;

/// Bound (`2^47`) on the numerator and denominator of a ray parameter passed
/// to `Line3::calc_point`; covers every parameter a plane intersection can
/// produce.
pub const LAMBDA_LIMIT: i128 = 140737488355328;

/// Bound (`2^62`) on the components of a rational point passed to
/// `Triangle3::barycentric`; covers every point `Line3::calc_point` can
/// produce.
pub const POINT_LIMIT: i128 = 4611686018427387904;

} // verus!
