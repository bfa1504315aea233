//! A sphere in 3D space, and its exact intersection with a line: the roots
//! of the quadratic obtained by substituting the line equation into the
//! sphere equation, kept as exact quadratic surds.

use vstd::prelude::*;

verus! {

use list::List;
use crate::COORD_LIMIT;
use crate::arith::lemma_mul_bound;
use crate::base::Intersection;
use crate::base::Lambda;
use crate::base::Shape;
use crate::base::list_items;
use crate::base::list_new;
use crate::base::list_push;
use crate::base::solves_quadratic;
use crate::line3::Line3;
use crate::vector3::Vector3;
use crate::vector3::dot_spec;
use crate::vector3::in_coord_range;
use crate::vector3::lemma_dot_bound;
use crate::vector3::vsub;

/// A sphere in 3D space: center and radius. A positive radius is the
/// physically meaningful case; this is a caller contract, not enforced, and
/// `r == 0` degenerates to a single point.
#[derive(Clone, Copy, Debug, PartialEq, Eq, Structural)]
pub struct Sphere {
    /// Center of the sphere.
    pub c: Vector3,
    /// Radius of the sphere.
    pub r: i64,
}

/// The linear coefficient `2 * (v . (a - c))` of the sphere-line quadratic
/// `qa * x^2 + qb * x + qc == 0`.
pub open spec fn sphere_qb(s: Sphere, l: Line3) -> int {
    2 * dot_spec(l.v, vsub(l.a, s.c))
}

/// The constant coefficient `|a - c|^2 - r^2` of the sphere-line quadratic.
pub open spec fn sphere_qc(s: Sphere, l: Line3) -> int {
    dot_spec(vsub(l.a, s.c), vsub(l.a, s.c)) - s.r * s.r
}

/// The discriminant of the sphere-line quadratic; its sign classifies the
/// intersection: two hits, one tangent hit, or none.
pub open spec fn sphere_disc(s: Sphere, l: Line3) -> int {
    sphere_qb(s, l) * sphere_qb(s, l) - 4 * l.qa * sphere_qc(s, l)
}

/// The root `(-qb + sgn * sqrt(disc)) / (2 * qa)` of the sphere-line
/// quadratic, as an exact surd.
pub open spec fn sphere_root(s: Sphere, l: Line3, sgn: int) -> Lambda {
    Lambda {
        num: (-sphere_qb(s, l)) as i128,
        sgn: sgn as i128,
        disc: (if sgn == 0 {
            0
        } else {
            sphere_disc(s, l)
        }) as i128,
        den: (2 * l.qa) as i128,
    }
}

impl Sphere {
    /// Creates a new `Sphere` from its center and radius; no validation
    /// beyond the coordinate range is applied.
    pub fn new(c: &Vector3, r: i64) -> (s: Sphere)
        requires
            in_coord_range(*c),
            -COORD_LIMIT <= r <= COORD_LIMIT,
        ensures
            s.c == *c,
            s.r == r,
            s.wf(),
    {
        Sphere { c: *c, r }
    }
}

/// Shared bound reasoning for the quadratic's coefficients.
proof fn lemma_sphere_coeff_bounds(s: Sphere, l: Line3)
    requires
        s.wf(),
        l.wf(),
    ensures
        -1610612736 <= sphere_qb(s, l) <= 1610612736,
        -805306368 <= dot_spec(vsub(l.a, s.c), vsub(l.a, s.c)) <= 805306368,
        -67108864 <= s.r * s.r <= 67108864,
        -1073741824 <= sphere_qc(s, l) <= 1073741824,
        0 < l.qa <= 805306368,
{
    assert(COORD_LIMIT as int == 8192);
    let o = vsub(l.a, s.c);
    lemma_dot_bound(l.v, o, 2 * COORD_LIMIT as int, 2 * COORD_LIMIT as int);
    assert(-805306368 <= dot_spec(l.v, o) <= 805306368);
    lemma_dot_bound(o, o, 2 * COORD_LIMIT as int, 2 * COORD_LIMIT as int);
    assert(-805306368 <= dot_spec(o, o) <= 805306368);
    lemma_dot_bound(l.v, l.v, 2 * COORD_LIMIT as int, 2 * COORD_LIMIT as int);
    assert(-805306368 <= dot_spec(l.v, l.v) <= 805306368);
    lemma_mul_bound(s.r as int, s.r as int, COORD_LIMIT as int, COORD_LIMIT as int);
    assert(-67108864 <= s.r * s.r <= 67108864);
}

/// Law: the surds that `intersects` reports are roots of the sphere-line
/// quadratic, and when the discriminant vanishes the tangent surd is one
/// too.
pub proof fn lemma_sphere_roots_solve(s: Sphere, l: Line3)
    requires
        s.wf(),
        l.wf(),
    ensures
        sphere_disc(s, l) >= 0 ==> solves_quadratic(
            sphere_root(s, l, -1),
            l.qa as int,
            sphere_qb(s, l),
            sphere_qc(s, l),
        ),
        sphere_disc(s, l) >= 0 ==> solves_quadratic(
            sphere_root(s, l, 1),
            l.qa as int,
            sphere_qb(s, l),
            sphere_qc(s, l),
        ),
        sphere_disc(s, l) == 0 ==> solves_quadratic(
            sphere_root(s, l, 0),
            l.qa as int,
            sphere_qb(s, l),
            sphere_qc(s, l),
        ),
{
    lemma_sphere_coeff_bounds(s, l);
    let qa = l.qa as int;
    let qb = sphere_qb(s, l);
    let qc = sphere_qc(s, l);
    let disc = sphere_disc(s, l);
    lemma_mul_bound(qb, qb, 1610612736, 1610612736);
    lemma_mul_bound(4 * qa, qc, 3221225472, 1073741824);
    assert(-6917529027641081856 <= disc <= 6917529027641081856);
    if disc >= 0 {
        assert(qa * ((-qb) * (-qb) + (1 * 1) * (qb * qb - 4 * qa * qc)) + qb * ((-qb) * (2 * qa))
            + qc * ((2 * qa) * (2 * qa)) == 0) by (nonlinear_arith);
        assert(1 * (2 * qa * (-qb) + qb * (2 * qa)) == 0) by (nonlinear_arith);
        assert((-1) * (2 * qa * (-qb) + qb * (2 * qa)) == 0) by (nonlinear_arith);
        assert(qa * ((-qb) * (-qb) + ((-1) * (-1)) * (qb * qb - 4 * qa * qc)) + qb * ((-qb) * (2
            * qa)) + qc * ((2 * qa) * (2 * qa)) == 0) by (nonlinear_arith);
    }
    if disc == 0 {
        assert(qa * ((-qb) * (-qb) + (0 * 0) * 0) + qb * ((-qb) * (2 * qa)) + qc * ((2 * qa) * (2
            * qa)) == 0) by (nonlinear_arith)
            requires
                qb * qb - 4 * qa * qc == 0,
        ;
    }
}

impl Shape for Sphere {
    open spec fn wf(&self) -> bool {
        &&& in_coord_range(self.c)
        &&& -COORD_LIMIT <= self.r <= COORD_LIMIT
    }

    open spec fn normal_spec(&self, point: Vector3) -> Vector3 {
        vsub(point, self.c)
    }

    open spec fn roots_spec(&self, line: Line3) -> Seq<Lambda> {
        if sphere_disc(*self, line) > 0 {
            seq![sphere_root(*self, line, -1), sphere_root(*self, line, 1)]
        } else if sphere_disc(*self, line) == 0 {
            seq![sphere_root(*self, line, 0)]
        } else {
            Seq::empty()
        }
    }

    open spec fn closest_spec(&self, line: Line3) -> Option<Intersection> {
        if sphere_disc(*self, line) > 0 {
            if sphere_root(*self, line, -1).pos_spec() {
                Some(Intersection { lambda: sphere_root(*self, line, -1), barycentric: None })
            } else if sphere_root(*self, line, 1).pos_spec() {
                Some(Intersection { lambda: sphere_root(*self, line, 1), barycentric: None })
            } else {
                None
            }
        } else if sphere_disc(*self, line) == 0 {
            if sphere_root(*self, line, 0).pos_spec() {
                Some(Intersection { lambda: sphere_root(*self, line, 0), barycentric: None })
            } else {
                None
            }
        } else {
            None
        }
    }

    /// Returns the direction from the center to the given point: the normal
    /// direction of the sphere at a surface point (exact, so not scaled to
    /// unit length; the zero vector at the center itself).
    fn normal(&self, point: &Vector3) -> (r: Vector3) {
        point.sub(&self.c)
    }

    /// Returns the intersections of the sphere with a line: both quadratic
    /// roots if the discriminant is positive (the `-sqrt` root first), the
    /// single tangent root if it is zero, and nothing if it is negative.
    fn intersects(&self, line: &Line3) -> (r: List<Lambda>) {
        let mut intersections = list_new();
        proof {
            lemma_sphere_coeff_bounds(*self, *line);
        }
        let o = line.a.sub(&self.c);
        let qb: i64 = 2 * line.v.dot(&o);
        let qc: i64 = o.magnitude_2() - self.r * self.r;
        proof {
            lemma_mul_bound(qb as int, qb as int, 1610612736, 1610612736);
            lemma_mul_bound(4 * line.qa as int, qc as int, 3221225472, 1073741824);
        }
        let disc: i128 = (qb as i128) * (qb as i128) - 4 * (line.qa as i128) * (qc as i128);
        let den: i128 = 2 * (line.qa as i128);
        if disc > 0 {
            list_push(&mut intersections, Lambda { num: -(qb as i128), sgn: 1, disc, den });
            list_push(&mut intersections, Lambda { num: -(qb as i128), sgn: -1, disc, den });
            proof {
                assert(list_items(intersections) =~= self.roots_spec(*line));
            }
        } else if disc == 0 {
            list_push(&mut intersections, Lambda { num: -(qb as i128), sgn: 0, disc: 0, den });
            proof {
                assert(list_items(intersections) =~= self.roots_spec(*line));
            }
        }
        intersections
    }

    /// Returns the closest strictly positive root of the sphere-line
    /// quadratic, if any: the smaller root `(-qb - sqrt(disc)) / (2 qa)`
    /// when it is positive, else the larger one, else nothing; a tangent
    /// point is returned exactly when its single root is positive.
    fn closest_intersection(&self, line: &Line3) -> (r: Option<Intersection>) {
        proof {
            lemma_sphere_coeff_bounds(*self, *line);
        }
        let o = line.a.sub(&self.c);
        let qb: i64 = 2 * line.v.dot(&o);
        let qc: i64 = o.magnitude_2() - self.r * self.r;
        proof {
            lemma_mul_bound(qb as int, qb as int, 1610612736, 1610612736);
            lemma_mul_bound(4 * line.qa as int, qc as int, 3221225472, 1073741824);
        }
        let disc: i128 = (qb as i128) * (qb as i128) - 4 * (line.qa as i128) * (qc as i128);
        let den: i128 = 2 * (line.qa as i128);
        if disc > 0 {
            let near = Lambda { num: -(qb as i128), sgn: -1, disc, den };
            let far = Lambda { num: -(qb as i128), sgn: 1, disc, den };
            if near.is_positive() {
                Some(Intersection::new(near, None))
            } else if far.is_positive() {
                Some(Intersection::new(far, None))
            } else {
                None
            }
        } else if disc == 0 {
            let tangent = Lambda { num: -(qb as i128), sgn: 0, disc: 0, den };
            if tangent.is_positive() {
                Some(Intersection::new(tangent, None))
            } else {
                None
            }
        } else {
            None
        }
    }
}

} // verus!
