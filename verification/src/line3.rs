//! A line (ray) in 3D space, defined by a pivot point and the director
//! vector to a second point, with the squared magnitude of the director
//! precomputed for the intersection solves.

use vstd::prelude::*;

verus! {

use crate::COORD_LIMIT;
use crate::LAMBDA_LIMIT;
use crate::POINT_LIMIT;
use crate::arith::lemma_mul_bound;
use crate::arith::lemma_square_sign;
use crate::base::GeomError;
use crate::frac::Frac;
use crate::frac::Frac3;
use crate::frac::Radical;
use crate::vector3::Vector3;
use crate::vector3::cross_x;
use crate::vector3::cross_y;
use crate::vector3::cross_z;
use crate::vector3::dot_spec;
use crate::vector3::in_coord_range;
use crate::vector3::lemma_cross_bound;
use crate::vector3::vec_bounded;
use crate::vector3::vsub;

/// A line in 3D space: pivot point `a`, director vector `v`, and the
/// precomputed squared magnitude `qa` of the director.
#[derive(Clone, Copy, Debug, PartialEq, Eq, Structural)]
pub struct Line3 {
    /// Pivot point of the line.
    pub a: Vector3,
    /// Director vector of the line.
    pub v: Vector3,
    /// Precomputed squared magnitude of `v`; never zero.
    pub qa: i64,
}

/// The rational point `a + v * (num / den)`, over the common denominator
/// `den`.
pub open spec fn calc_point_spec(l: Line3, num: int, den: int) -> Frac3 {
    Frac3 {
        xn: (l.a.x * den + l.v.x * num) as i128,
        yn: (l.a.y * den + l.v.y * num) as i128,
        zn: (l.a.z * den + l.v.z * num) as i128,
        den: den as i128,
    }
}

/// The numerator of the squared distance from `p` to the line: the squared
/// magnitude of `(p - a) x v`. The squared distance itself is this over
/// `qa`.
pub open spec fn dist_sq_num(l: Line3, p: Vector3) -> int {
    let ap = vsub(p, l.a);
    cross_x(ap, l.v) * cross_x(ap, l.v) + cross_y(ap, l.v) * cross_y(ap, l.v) + cross_z(ap, l.v)
        * cross_z(ap, l.v)
}

impl Line3 {
    pub open spec fn wf(self) -> bool {
        &&& in_coord_range(self.a)
        &&& vec_bounded(self.v, 2 * COORD_LIMIT as int)
        &&& self.qa == dot_spec(self.v, self.v)
        &&& self.qa > 0
    }

    /// Creates a new `Line3` through the two points `a` and `b`, with
    /// director vector `v = b - a`. Fails exactly when the two points
    /// coincide, since equal points define no direction.
    pub fn new(a: &Vector3, b: &Vector3) -> (r: Result<Line3, GeomError>)
        requires
            in_coord_range(*a),
            in_coord_range(*b),
        ensures
            *a == *b ==> r == Err::<Line3, GeomError>(GeomError::DegenerateLine),
            *a != *b ==> (r matches Ok(l) && l.a == *a && l.v == vsub(*b, *a) && l.wf()),
    {
        let v = b.sub(a);
        let qa = v.magnitude_2();
        proof {
            lemma_square_sign(v.x as int);
            lemma_square_sign(v.y as int);
            lemma_square_sign(v.z as int);
        }
        if qa == 0 {
            Err(GeomError::DegenerateLine)
        } else {
            Ok(Line3 { a: *a, v, qa })
        }
    }

    /// Calculates the point of the line at the given rational ray parameter,
    /// exactly.
    pub fn calc_point(&self, lambda: &Frac) -> (r: Frac3)
        requires
            self.wf(),
            lambda.wf(),
            lambda.bounded(LAMBDA_LIMIT as int),
        ensures
            r == calc_point_spec(*self, lambda.num as int, lambda.den as int),
            r.wf(),
            r.bounded(POINT_LIMIT as int),
            r.den == lambda.den,
    {
        proof {
            lemma_mul_bound(self.a.x as int, lambda.den as int, COORD_LIMIT as int, LAMBDA_LIMIT as int);
            lemma_mul_bound(self.a.y as int, lambda.den as int, COORD_LIMIT as int, LAMBDA_LIMIT as int);
            lemma_mul_bound(self.a.z as int, lambda.den as int, COORD_LIMIT as int, LAMBDA_LIMIT as int);
            lemma_mul_bound(self.v.x as int, lambda.num as int, 2 * COORD_LIMIT as int, LAMBDA_LIMIT as int);
            lemma_mul_bound(self.v.y as int, lambda.num as int, 2 * COORD_LIMIT as int, LAMBDA_LIMIT as int);
            lemma_mul_bound(self.v.z as int, lambda.num as int, 2 * COORD_LIMIT as int, LAMBDA_LIMIT as int);
        }
        Frac3 {
            xn: (self.a.x as i128) * lambda.den + (self.v.x as i128) * lambda.num,
            yn: (self.a.y as i128) * lambda.den + (self.v.y as i128) * lambda.num,
            zn: (self.a.z as i128) * lambda.den + (self.v.z as i128) * lambda.num,
            den: lambda.den,
        }
    }

    /// Calculates the distance between a point and the line, as the exact
    /// radical `sqrt(|(p - a) x v|^2 / qa)`.
    pub fn dist_point(&self, p: &Vector3) -> (r: Radical)
        requires
            self.wf(),
            in_coord_range(*p),
        ensures
            r.sq.num == dist_sq_num(*self, *p),
            r.sq.den == self.qa,
            r.wf(),
    {
        let ap = p.sub(&self.a);
        proof {
            lemma_cross_bound(ap, self.v, 2 * COORD_LIMIT as int, 2 * COORD_LIMIT as int);
        }
        let c = ap.cross(&self.v);
        proof {
            lemma_square_sign(c.x as int);
            lemma_square_sign(c.y as int);
            lemma_square_sign(c.z as int);
        }
        let m = c.magnitude_2();
        Radical { sq: Frac { num: m as i128, den: self.qa as i128 } }
    }
}

/// Law: the ray parameter `0` yields the pivot point `a`, exactly.
pub proof fn lemma_calc_point_zero(l: Line3)
    requires
        l.wf(),
    ensures
        calc_point_spec(l, 0, 1) == (Frac3 {
            xn: l.a.x as i128,
            yn: l.a.y as i128,
            zn: l.a.z as i128,
            den: 1,
        }),
{
}

/// Law: the ray parameter `1` yields the second defining point `b`, exactly,
/// for a line built through `a` and `b`.
pub proof fn lemma_calc_point_one(l: Line3, a: Vector3, b: Vector3)
    requires
        l.wf(),
        in_coord_range(a),
        in_coord_range(b),
        l.a == a,
        l.v == vsub(b, a),
    ensures
        calc_point_spec(l, 1, 1) == (Frac3 {
            xn: b.x as i128,
            yn: b.y as i128,
            zn: b.z as i128,
            den: 1,
        }),
{
}

/// Law: any point of the line itself is at distance `0` from the line. The
/// point is given as an integer point `p` satisfying `p = a + v * (ln / ld)`
/// for some rational parameter `ln / ld`.
pub proof fn lemma_dist_point_on_line(l: Line3, p: Vector3, ln: int, ld: int)
    requires
        l.wf(),
        in_coord_range(p),
        ld != 0,
        p.x * ld == l.a.x * ld + l.v.x * ln,
        p.y * ld == l.a.y * ld + l.v.y * ln,
        p.z * ld == l.a.z * ld + l.v.z * ln,
    ensures
        dist_sq_num(l, p) == 0,
{
    let ap = vsub(p, l.a);
    assert(ap.x * ld == l.v.x * ln) by (nonlinear_arith)
        requires
            ap.x == p.x - l.a.x,
            p.x * ld == l.a.x * ld + l.v.x * ln,
    ;
    assert(ap.y * ld == l.v.y * ln) by (nonlinear_arith)
        requires
            ap.y == p.y - l.a.y,
            p.y * ld == l.a.y * ld + l.v.y * ln,
    ;
    assert(ap.z * ld == l.v.z * ln) by (nonlinear_arith)
        requires
            ap.z == p.z - l.a.z,
            p.z * ld == l.a.z * ld + l.v.z * ln,
    ;
    lemma_parallel_cross_zero(ap.x as int, ap.y as int, ap.z as int, l.v.x as int, l.v.y as int,
        l.v.z as int, ln, ld);
}

/// A vector that is a rational multiple of another has zero cross product
/// with it.
proof fn lemma_parallel_cross_zero(ax: int, ay: int, az: int, vx: int, vy: int, vz: int, ln: int, ld: int)
    requires
        ld != 0,
        ax * ld == vx * ln,
        ay * ld == vy * ln,
        az * ld == vz * ln,
    ensures
        ay * vz - az * vy == 0,
        az * vx - ax * vz == 0,
        ax * vy - ay * vx == 0,
{
    assert(ay * vz - az * vy == 0) by (nonlinear_arith)
        requires
            ld != 0,
            ay * ld == vy * ln,
            az * ld == vz * ln,
    ;
    assert(az * vx - ax * vz == 0) by (nonlinear_arith)
        requires
            ld != 0,
            az * ld == vz * ln,
            ax * ld == vx * ln,
    ;
    assert(ax * vy - ay * vx == 0) by (nonlinear_arith)
        requires
            ld != 0,
            ax * ld == vx * ln,
            ay * ld == vy * ln,
    ;
}

} // verus!
