//! Integer 3D vectors and their exact spec-level arithmetic: difference, dot
//! product, cross product, squared magnitude.

use vstd::prelude::*;

verus! {

use crate::COORD_LIMIT;
use crate::VEC_OP_LIMIT;
use crate::arith::lemma_mul_bound;
use crate::frac::Frac;
use crate::frac::Radical;

/// A point or direction in 3D space with exact integer coordinates. The
/// caller picks the unit; every operation of the kernel is exact, so scaling
/// all inputs by a common factor leaves every ray parameter unchanged.
#[derive(Clone, Copy, Debug, PartialEq, Eq, Structural)]
pub struct Vector3 {
    pub x: i64,
    pub y: i64,
    pub z: i64,
}

/// Every coordinate of `u` has magnitude at most `m`.
pub open spec fn vec_bounded(u: Vector3, m: int) -> bool {
    &&& -m <= u.x <= m
    &&& -m <= u.y <= m
    &&& -m <= u.z <= m
}

/// The coordinate range accepted for shape and line definitions.
pub open spec fn in_coord_range(u: Vector3) -> bool {
    vec_bounded(u, COORD_LIMIT as int)
}

/// Componentwise difference `u - v` (exact on the ranges the kernel uses).
pub open spec fn vsub(u: Vector3, v: Vector3) -> Vector3 {
    Vector3 { x: (u.x - v.x) as i64, y: (u.y - v.y) as i64, z: (u.z - v.z) as i64 }
}

/// Dot product of `u` and `v` as an unbounded integer.
pub open spec fn dot_spec(u: Vector3, v: Vector3) -> int {
    u.x * v.x + u.y * v.y + u.z * v.z
}

pub open spec fn cross_x(u: Vector3, v: Vector3) -> int {
    u.y * v.z - u.z * v.y
}

pub open spec fn cross_y(u: Vector3, v: Vector3) -> int {
    u.z * v.x - u.x * v.z
}

pub open spec fn cross_z(u: Vector3, v: Vector3) -> int {
    u.x * v.y - u.y * v.x
}

/// Cross product of `u` and `v` (exact on the ranges the kernel uses).
pub open spec fn vcross(u: Vector3, v: Vector3) -> Vector3 {
    Vector3 { x: cross_x(u, v) as i64, y: cross_y(u, v) as i64, z: cross_z(u, v) as i64 }
}

/// The dot product of vectors bounded by `m` and `n` is bounded by `3 * m * n`.
pub proof fn lemma_dot_bound(u: Vector3, v: Vector3, m: int, n: int)
    requires
        vec_bounded(u, m),
        vec_bounded(v, n),
    ensures
        -3 * (m * n) <= dot_spec(u, v) <= 3 * (m * n),
{
    lemma_mul_bound(u.x as int, v.x as int, m, n);
    lemma_mul_bound(u.y as int, v.y as int, m, n);
    lemma_mul_bound(u.z as int, v.z as int, m, n);
}

/// Each cross product component of vectors bounded by `m` and `n` is bounded
/// by `2 * m * n`.
pub proof fn lemma_cross_bound(u: Vector3, v: Vector3, m: int, n: int)
    requires
        vec_bounded(u, m),
        vec_bounded(v, n),
    ensures
        -2 * (m * n) <= cross_x(u, v) <= 2 * (m * n),
        -2 * (m * n) <= cross_y(u, v) <= 2 * (m * n),
        -2 * (m * n) <= cross_z(u, v) <= 2 * (m * n),
{
    lemma_mul_bound(u.y as int, v.z as int, m, n);
    lemma_mul_bound(u.z as int, v.y as int, m, n);
    lemma_mul_bound(u.z as int, v.x as int, m, n);
    lemma_mul_bound(u.x as int, v.z as int, m, n);
    lemma_mul_bound(u.x as int, v.y as int, m, n);
    lemma_mul_bound(u.y as int, v.x as int, m, n);
}

impl Vector3 {
    /// Creates a new `Vector3`.
    pub fn new(x: i64, y: i64, z: i64) -> (r: Vector3)
        ensures
            r == (Vector3 { x, y, z }),
    {
        Vector3 { x, y, z }
    }

    /// Creates a vector from three `i32` coordinates.
    pub fn from_i32(x: i32, y: i32, z: i32) -> (r: Vector3)
        ensures
            r.x == x as int,
            r.y == y as int,
            r.z == z as int,
    {
        Vector3 { x: x as i64, y: y as i64, z: z as i64 }
    }

    /// Componentwise difference `self - other`.
    pub fn sub(&self, other: &Vector3) -> (r: Vector3)
        requires
            vec_bounded(*self, VEC_OP_LIMIT as int),
            vec_bounded(*other, VEC_OP_LIMIT as int),
        ensures
            r == vsub(*self, *other),
            vec_bounded(r, 2 * VEC_OP_LIMIT as int),
    {
        Vector3 { x: self.x - other.x, y: self.y - other.y, z: self.z - other.z }
    }

    /// Returns the dot product of `self` and another vector.
    pub fn dot(&self, other: &Vector3) -> (r: i64)
        requires
            vec_bounded(*self, VEC_OP_LIMIT as int),
            vec_bounded(*other, VEC_OP_LIMIT as int),
        ensures
            r == dot_spec(*self, *other),
    {
        proof {
            lemma_dot_bound(*self, *other, VEC_OP_LIMIT as int, VEC_OP_LIMIT as int);
            lemma_mul_bound(self.x as int, other.x as int, VEC_OP_LIMIT as int, VEC_OP_LIMIT as int);
            lemma_mul_bound(self.y as int, other.y as int, VEC_OP_LIMIT as int, VEC_OP_LIMIT as int);
            lemma_mul_bound(self.z as int, other.z as int, VEC_OP_LIMIT as int, VEC_OP_LIMIT as int);
        }
        self.x * other.x + self.y * other.y + self.z * other.z
    }

    /// Returns the cross product of `self` and another vector.
    pub fn cross(&self, other: &Vector3) -> (r: Vector3)
        requires
            vec_bounded(*self, VEC_OP_LIMIT as int),
            vec_bounded(*other, VEC_OP_LIMIT as int),
        ensures
            r == vcross(*self, *other),
            vec_bounded(r, 2 * (VEC_OP_LIMIT as int * VEC_OP_LIMIT as int)),
    {
        proof {
            lemma_cross_bound(*self, *other, VEC_OP_LIMIT as int, VEC_OP_LIMIT as int);
            lemma_mul_bound(self.y as int, other.z as int, VEC_OP_LIMIT as int, VEC_OP_LIMIT as int);
            lemma_mul_bound(self.z as int, other.y as int, VEC_OP_LIMIT as int, VEC_OP_LIMIT as int);
            lemma_mul_bound(self.z as int, other.x as int, VEC_OP_LIMIT as int, VEC_OP_LIMIT as int);
            lemma_mul_bound(self.x as int, other.z as int, VEC_OP_LIMIT as int, VEC_OP_LIMIT as int);
            lemma_mul_bound(self.x as int, other.y as int, VEC_OP_LIMIT as int, VEC_OP_LIMIT as int);
            lemma_mul_bound(self.y as int, other.x as int, VEC_OP_LIMIT as int, VEC_OP_LIMIT as int);
        }
        Vector3 {
            x: self.y * other.z - self.z * other.y,
            y: self.z * other.x - self.x * other.z,
            z: self.x * other.y - self.y * other.x,
        }
    }

    /// Returns the squared magnitude (length) of the vector.
    pub fn magnitude_2(&self) -> (r: i64)
        requires
            vec_bounded(*self, VEC_OP_LIMIT as int),
        ensures
            r == dot_spec(*self, *self),
    {
        self.dot(self)
    }

    /// Returns the magnitude (length) of the vector, as an exact radical.
    pub fn magnitude(&self) -> (r: Radical)
        requires
            vec_bounded(*self, VEC_OP_LIMIT as int),
        ensures
            r.sq.num == dot_spec(*self, *self),
            r.sq.den == 1,
            r.wf(),
    {
        let sq = self.magnitude_2();
        proof {
            lemma_dot_bound(*self, *self, VEC_OP_LIMIT as int, VEC_OP_LIMIT as int);
            crate::arith::lemma_square_sign(self.x as int);
            crate::arith::lemma_square_sign(self.y as int);
            crate::arith::lemma_square_sign(self.z as int);
        }
        Radical { sq: Frac { num: sq as i128, den: 1 } }
    }

    /// Whether the vector is exactly zero.
    pub fn is_zero(&self) -> (r: bool)
        ensures
            r <==> (self.x == 0 && self.y == 0 && self.z == 0),
    {
        self.x == 0 && self.y == 0 && self.z == 0
    }

    /// Returns the distance from `self` to another vector, as an exact
    /// radical.
    pub fn distance_to(&self, other: Vector3) -> (r: Radical)
        requires
            in_coord_range(*self),
            in_coord_range(other),
        ensures
            r.sq.num == dot_spec(vsub(*self, other), vsub(*self, other)),
            r.sq.den == 1,
            r.wf(),
    {
        let d = self.sub(&other);
        d.magnitude()
    }
}

} // verus!
