//! Exact scalar values: rational numbers with a positive denominator, points
//! with rational coordinates over a common denominator, and radicals (square
//! roots of rationals) for the distances the kernel cannot express as
//! rationals.

use vstd::prelude::*;

verus! {

use crate::vector3::Vector3;

/// An exact rational number `num / den` with `den > 0`.
#[derive(Clone, Copy, Debug, PartialEq, Eq, Structural)]
pub struct Frac {
    pub num: i128,
    pub den: i128,
}

impl Frac {
    pub open spec fn wf(self) -> bool {
        self.den > 0
    }

    /// Both components bounded in magnitude by `m`.
    pub open spec fn bounded(self, m: int) -> bool {
        &&& -m <= self.num <= m
        &&& self.den <= m
    }

    /// The value equals the rational `n / d` (for `d != 0`).
    pub open spec fn eqv(self, n: int, d: int) -> bool {
        self.num * d == n * self.den
    }

    /// Builds the fraction `num / den`, moving the sign to the numerator.
    pub fn new(num: i128, den: i128) -> (r: Frac)
        requires
            den != 0,
            -crate::POINT_LIMIT <= num <= crate::POINT_LIMIT,
            -crate::POINT_LIMIT <= den <= crate::POINT_LIMIT,
        ensures
            r.wf(),
            den > 0 ==> r == (Frac { num, den }),
            den < 0 ==> r == (Frac { num: -num as i128, den: -den as i128 }),
    {
        if den > 0 {
            Frac { num, den }
        } else {
            Frac { num: -num, den: -den }
        }
    }

    /// The whole number `n` as a fraction.
    pub fn from_int(n: i64) -> (r: Frac)
        ensures
            r.num == n as int,
            r.den == 1,
            r.wf(),
    {
        Frac { num: n as i128, den: 1 }
    }
}

/// A point with exact rational coordinates `(xn / den, yn / den, zn / den)`,
/// `den > 0`.
#[derive(Clone, Copy, Debug, PartialEq, Eq, Structural)]
pub struct Frac3 {
    pub xn: i128,
    pub yn: i128,
    pub zn: i128,
    pub den: i128,
}

/// The integer point `v` as a rational point with denominator `1`.
pub open spec fn point_of(v: Vector3) -> Frac3 {
    Frac3 { xn: v.x as i128, yn: v.y as i128, zn: v.z as i128, den: 1 }
}

impl Frac3 {
    pub open spec fn wf(self) -> bool {
        self.den > 0
    }

    /// All numerators bounded in magnitude by `m`, denominator at most `m`.
    pub open spec fn bounded(self, m: int) -> bool {
        &&& -m <= self.xn <= m
        &&& -m <= self.yn <= m
        &&& -m <= self.zn <= m
        &&& self.den <= m
    }

    /// An integer point as a rational point.
    pub fn from_vector3(v: &Vector3) -> (r: Frac3)
        ensures
            r == point_of(*v),
            r.wf(),
    {
        Frac3 { xn: v.x as i128, yn: v.y as i128, zn: v.z as i128, den: 1 }
    }
}

/// The nonnegative real number `sqrt(sq)`, kept as its exact rational square.
/// Lengths and distances of integer geometry are irrational in general, so
/// the kernel reports them in this form; comparisons can be decided on the
/// squares.
#[derive(Clone, Copy, Debug, PartialEq, Eq, Structural)]
pub struct Radical {
    pub sq: Frac,
}

impl Radical {
    pub open spec fn wf(self) -> bool {
        &&& self.sq.wf()
        &&& self.sq.num >= 0
    }
}

} // verus!
