//! A triangle in 3D space, with its vertices in anticlockwise order when
//! looked at from the visible side, the plane that contains it, and the
//! precomputed coefficients of its barycentric basis.

use vstd::prelude::*;

verus! {

use list::List;
use vstd::pervasive::unreached;
use crate::COORD_LIMIT;
use crate::POINT_LIMIT;
use crate::arith::lemma_lagrange;
use crate::arith::lemma_mul_bound;
use crate::arith::lemma_mul_comm;
use crate::arith::lemma_mul_by_one;
use crate::arith::lemma_mul_by_zero;
use crate::arith::lemma_mul_pos;
use crate::arith::lemma_square_sign;
use crate::base::GeomError;
use crate::base::Intersection;
use crate::base::Lambda;
use crate::base::Shape;
use crate::base::list_items;
use crate::base::list_new;
use crate::base::list_peek;
use crate::frac::Frac;
use crate::frac::Frac3;
use crate::frac::point_of;
use crate::line3::Line3;
use crate::line3::calc_point_spec;
use crate::plane::Plane;
use crate::plane::lemma_plane_lambda_wf;
use crate::plane::plane_denom;
use crate::plane::plane_lambda;
use crate::vector3::Vector3;
use crate::vector3::dot_spec;
use crate::vector3::in_coord_range;
use crate::vector3::lemma_cross_bound;
use crate::vector3::lemma_dot_bound;
use crate::vector3::vcross;
use crate::vector3::vsub;

/// A triangle in 3D space. The fields after the vertices are caches
/// computed once at construction: the containing plane, the two edge
/// vectors, and the dot products of the barycentric basis.
#[derive(Clone, Copy, Debug)]
pub struct Triangle3 {
    /// First vertex of the triangle.
    pub a: Vector3,
    /// Second vertex, anticlockwise from `a`.
    pub b: Vector3,
    /// Third vertex, anticlockwise from `b`.
    pub c: Vector3,
    /// The plane that contains the triangle; its normal is `ab x ac`.
    pub plane: Plane,
    /// Edge vector `b - a` of the barycentric basis.
    pub ab: Vector3,
    /// Edge vector `c - a` of the barycentric basis.
    pub ac: Vector3,
    /// `ab . ab`.
    pub d00: i64,
    /// `ab . ac`.
    pub d01: i64,
    /// `ac . ac`.
    pub d11: i64,
    /// The Gram determinant `d00 * d11 - d01 * d01`; positive for every
    /// non-degenerate triangle.
    pub denom: i128,
}

/// The Gram determinant of the edge vectors of the triangle `(a, b, c)`;
/// zero exactly when the three vertices are collinear.
pub open spec fn gram_det(a: Vector3, b: Vector3, c: Vector3) -> int {
    let ab = vsub(b, a);
    let ac = vsub(c, a);
    dot_spec(ab, ab) * dot_spec(ac, ac) - dot_spec(ab, ac) * dot_spec(ab, ac)
}

/// `(p - a) . ab`, scaled by the denominator of the rational point `p`.
pub open spec fn bary_d20(t: Triangle3, p: Frac3) -> int {
    (p.xn - t.a.x * p.den) * t.ab.x + (p.yn - t.a.y * p.den) * t.ab.y + (p.zn - t.a.z * p.den)
        * t.ab.z
}

/// `(p - a) . ac`, scaled by the denominator of the rational point `p`.
pub open spec fn bary_d21(t: Triangle3, p: Frac3) -> int {
    (p.xn - t.a.x * p.den) * t.ac.x + (p.yn - t.a.y * p.den) * t.ac.y + (p.zn - t.a.z * p.den)
        * t.ac.z
}

/// Numerator of the barycentric weight of vertex `b`.
pub open spec fn bary_bnum(t: Triangle3, p: Frac3) -> int {
    t.d11 * bary_d20(t, p) - t.d01 * bary_d21(t, p)
}

/// Numerator of the barycentric weight of vertex `c`.
pub open spec fn bary_cnum(t: Triangle3, p: Frac3) -> int {
    t.d00 * bary_d21(t, p) - t.d01 * bary_d20(t, p)
}

/// Common denominator of the barycentric weights.
pub open spec fn bary_den(t: Triangle3, p: Frac3) -> int {
    p.den * (t.d00 * t.d11 - t.d01 * t.d01)
}

/// The barycentric coordinates of the rational point `p` with respect to
/// the triangle, as exact fractions over a common positive denominator,
/// aligned with the vertices `(a, b, c)`.
pub open spec fn bary_spec(t: Triangle3, p: Frac3) -> Frac3 {
    Frac3 {
        xn: (bary_den(t, p) - bary_bnum(t, p) - bary_cnum(t, p)) as i128,
        yn: bary_bnum(t, p) as i128,
        zn: bary_cnum(t, p) as i128,
        den: bary_den(t, p) as i128,
    }
}

/// All three barycentric coordinates lie in `[0, 1]`: the point is inside
/// the triangle or on its boundary (when it is coplanar with it).
pub open spec fn bary_inside(b: Frac3) -> bool {
    &&& 0 <= b.xn <= b.den
    &&& 0 <= b.yn <= b.den
    &&& 0 <= b.zn <= b.den
}

/// Bounds for the barycentric solve on an in-range point: every
/// intermediate product fits in `i128`, so the spec-level casts are the
/// identity.
proof fn lemma_bary_bounds(t: Triangle3, p: Frac3)
    requires
        t.wf(),
        p.wf(),
        p.bounded(POINT_LIMIT as int),
    ensures
        bary_spec(t, p).xn == bary_den(t, p) - bary_bnum(t, p) - bary_cnum(t, p),
        bary_spec(t, p).yn == bary_bnum(t, p),
        bary_spec(t, p).zn == bary_cnum(t, p),
        bary_spec(t, p).den == bary_den(t, p),
        -37783543548975589097472 <= p.xn - t.a.x * p.den <= 37783543548975589097472,
        -37783543548975589097472 <= p.yn - t.a.y * p.den <= 37783543548975589097472,
        -37783543548975589097472 <= p.zn - t.a.z * p.den <= 37783543548975589097472,
        -1857136732519248155318943744 <= bary_d20(t, p) <= 1857136732519248155318943744,
        -1857136732519248155318943744 <= bary_d21(t, p) <= 1857136732519248155318943744,
        -2991128073888926444101196936153923584 <= bary_bnum(t, p)
            <= 2991128073888926444101196936153923584,
        -2991128073888926444101196936153923584 <= bary_cnum(t, p)
            <= 2991128073888926444101196936153923584,
        0 < bary_den(t, p) <= 5981525981032121428067131771261550592,
        -805306368 <= t.d00 <= 805306368,
        -805306368 <= t.d01 <= 805306368,
        -805306368 <= t.d11 <= 805306368,
        0 < t.denom <= 1297036692682702848,
{
    assert(COORD_LIMIT as int == 8192);
    assert(POINT_LIMIT == 4611686018427387904);
    lemma_dot_bound(t.ab, t.ab, 16384, 16384);
    lemma_dot_bound(t.ab, t.ac, 16384, 16384);
    lemma_dot_bound(t.ac, t.ac, 16384, 16384);
    assert(-805306368 <= t.d00 <= 805306368);
    assert(-805306368 <= t.d01 <= 805306368);
    assert(-805306368 <= t.d11 <= 805306368);
    lemma_mul_bound(t.d00 as int, t.d11 as int, 805306368, 805306368);
    lemma_mul_bound(t.d01 as int, t.d01 as int, 805306368, 805306368);
    lemma_mul_pos(p.den as int, t.d00 * t.d11 - t.d01 * t.d01);
    lemma_mul_bound(t.a.x as int, p.den as int, 8192, 4611686018427387904);
    lemma_mul_bound(t.a.y as int, p.den as int, 8192, 4611686018427387904);
    lemma_mul_bound(t.a.z as int, p.den as int, 8192, 4611686018427387904);
    lemma_mul_bound(p.xn - t.a.x * p.den, t.ab.x as int, 37783543548975589097472, 16384);
    lemma_mul_bound(p.yn - t.a.y * p.den, t.ab.y as int, 37783543548975589097472, 16384);
    lemma_mul_bound(p.zn - t.a.z * p.den, t.ab.z as int, 37783543548975589097472, 16384);
    lemma_mul_bound(p.xn - t.a.x * p.den, t.ac.x as int, 37783543548975589097472, 16384);
    lemma_mul_bound(p.yn - t.a.y * p.den, t.ac.y as int, 37783543548975589097472, 16384);
    lemma_mul_bound(p.zn - t.a.z * p.den, t.ac.z as int, 37783543548975589097472, 16384);
    lemma_mul_bound(t.d11 as int, bary_d20(t, p), 805306368, 1857136732519248155318943744);
    lemma_mul_bound(t.d01 as int, bary_d21(t, p), 805306368, 1857136732519248155318943744);
    lemma_mul_bound(t.d00 as int, bary_d21(t, p), 805306368, 1857136732519248155318943744);
    lemma_mul_bound(t.d01 as int, bary_d20(t, p), 805306368, 1857136732519248155318943744);
    lemma_mul_bound(p.den as int, t.denom as int, 4611686018427387904, 1297036692682702848);
}

impl Triangle3 {
    pub open spec fn wf(self) -> bool {
        &&& in_coord_range(self.a)
        &&& in_coord_range(self.b)
        &&& in_coord_range(self.c)
        &&& self.ab == vsub(self.b, self.a)
        &&& self.ac == vsub(self.c, self.a)
        &&& self.d00 == dot_spec(self.ab, self.ab)
        &&& self.d01 == dot_spec(self.ab, self.ac)
        &&& self.d11 == dot_spec(self.ac, self.ac)
        &&& self.denom == self.d00 * self.d11 - self.d01 * self.d01
        &&& self.denom > 0
        &&& <Plane as Shape>::wf(&self.plane)
        &&& self.plane.a == self.a
        &&& self.plane.n == vcross(self.ab, self.ac)
    }

    /// Creates a new `Triangle3` from three vertices given in anticlockwise
    /// order (looked at from the visible side); this order fixes the sign
    /// of the normal. Fails exactly when the three vertices are collinear
    /// (the Gram determinant of the edges vanishes), since no barycentric
    /// basis exists then.
    pub fn new(a: &Vector3, b: &Vector3, c: &Vector3) -> (r: Result<Triangle3, GeomError>)
        requires
            in_coord_range(*a),
            in_coord_range(*b),
            in_coord_range(*c),
        ensures
            gram_det(*a, *b, *c) == 0 ==> r == Err::<Triangle3, GeomError>(
                GeomError::CollinearTriangle,
            ),
            gram_det(*a, *b, *c) != 0 ==> (r matches Ok(t) && t.a == *a && t.b == *b && t.c == *c
                && t.wf()),
    {
        let ab = b.sub(a);
        let ac = c.sub(a);
        proof {
            assert(COORD_LIMIT as int == 8192);
            lemma_dot_bound(ab, ac, 16384, 16384);
            lemma_dot_bound(ab, ab, 16384, 16384);
            lemma_dot_bound(ac, ac, 16384, 16384);
        }
        let d00: i64 = ab.dot(&ab);
        let d01: i64 = ab.dot(&ac);
        let d11: i64 = ac.dot(&ac);
        proof {
            lemma_mul_bound(d00 as int, d11 as int, 805306368, 805306368);
            lemma_mul_bound(d01 as int, d01 as int, 805306368, 805306368);
        }
        let denom: i128 = (d00 as i128) * (d11 as i128) - (d01 as i128) * (d01 as i128);
        if denom == 0 {
            Err(GeomError::CollinearTriangle)
        } else {
            proof {
                lemma_cross_bound(ab, ac, 16384, 16384);
                assert(-536870912 <= crate::vector3::cross_x(ab, ac) <= 536870912);
                assert(-536870912 <= crate::vector3::cross_y(ab, ac) <= 536870912);
                assert(-536870912 <= crate::vector3::cross_z(ab, ac) <= 536870912);
                lemma_lagrange(ab.x as int, ab.y as int, ab.z as int, ac.x as int, ac.y as int,
                    ac.z as int);
                lemma_square_sign(crate::vector3::cross_x(ab, ac));
                lemma_square_sign(crate::vector3::cross_y(ab, ac));
                lemma_square_sign(crate::vector3::cross_z(ab, ac));
            }
            let n = ab.cross(&ac);
            let plane = match Plane::new(a, &n) {
                Ok(p) => p,
                Err(_) => {
                    proof {
                        assert(false);
                    }
                    unreached()
                },
            };
            Ok(Triangle3 { a: *a, b: *b, c: *c, plane, ab, ac, d00, d01, d11, denom })
        }
    }

    /// Returns the barycentric coordinates of a rational point with respect
    /// to the triangle, as exact fractions over a common positive
    /// denominator.
    ///
    /// The coordinates are aligned with the vertices `(a, b, c)` and sum to
    /// exactly `1`. A coordinate of exactly `0` means the point lies on the
    /// opposite edge; all three in `[0, 1]` means the point lies inside or
    /// on the boundary of the triangle (when the point is coplanar with
    /// it). The point (or any per-vertex attribute) is recovered as
    /// `a * bar_a + b * bar_b + c * bar_c`.
    pub fn barycentric(&self, p: &Frac3) -> (r: Frac3)
        requires
            self.wf(),
            p.wf(),
            p.bounded(POINT_LIMIT as int),
        ensures
            r == bary_spec(*self, *p),
            r.wf(),
            r.xn + r.yn + r.zn == r.den,
            r.den == p.den * self.denom,
    {
        proof {
            lemma_bary_bounds(*self, *p);
        }
        let apx: i128 = p.xn - (self.a.x as i128) * p.den;
        let apy: i128 = p.yn - (self.a.y as i128) * p.den;
        let apz: i128 = p.zn - (self.a.z as i128) * p.den;
        proof {
            lemma_mul_bound(apx as int, self.ab.x as int, 37783543548975589097472, 16384);
            lemma_mul_bound(apy as int, self.ab.y as int, 37783543548975589097472, 16384);
            lemma_mul_bound(apz as int, self.ab.z as int, 37783543548975589097472, 16384);
            lemma_mul_bound(apx as int, self.ac.x as int, 37783543548975589097472, 16384);
            lemma_mul_bound(apy as int, self.ac.y as int, 37783543548975589097472, 16384);
            lemma_mul_bound(apz as int, self.ac.z as int, 37783543548975589097472, 16384);
        }
        let d20: i128 = apx * (self.ab.x as i128) + apy * (self.ab.y as i128) + apz * (self.ab.z
            as i128);
        let d21: i128 = apx * (self.ac.x as i128) + apy * (self.ac.y as i128) + apz * (self.ac.z
            as i128);
        proof {
            lemma_mul_bound(self.d11 as int, d20 as int, 805306368, 1857136732519248155318943744);
            lemma_mul_bound(self.d01 as int, d21 as int, 805306368, 1857136732519248155318943744);
            lemma_mul_bound(self.d00 as int, d21 as int, 805306368, 1857136732519248155318943744);
            lemma_mul_bound(self.d01 as int, d20 as int, 805306368, 1857136732519248155318943744);
            lemma_mul_bound(p.den as int, self.denom as int, 4611686018427387904,
                1297036692682702848);
        }
        let bnum: i128 = (self.d11 as i128) * d20 - (self.d01 as i128) * d21;
        let cnum: i128 = (self.d00 as i128) * d21 - (self.d01 as i128) * d20;
        let den: i128 = p.den * self.denom;
        let anum: i128 = den - bnum - cnum;
        Frac3 { xn: anum, yn: bnum, zn: cnum, den }
    }
}

/// The scaled projection of a rational point equal to the vertex `a` itself
/// vanishes.
proof fn lemma_vertex_dot_zero(
    px: int, py: int, pz: int, pd: int,
    ax: int, ay: int, az: int,
    ex: int, ey: int, ez: int,
)
    by (nonlinear_arith)
    requires
        pd == 1,
        px == ax,
        py == ay,
        pz == az,
    ensures
        (px - ax * pd) * ex + (py - ay * pd) * ey + (pz - az * pd) * ez == 0,
{
}

/// The scaled projection of a rational point equal to an integer point `b`
/// reduces to the plain projection of `b - a`.
proof fn lemma_vertex_dot_edge(
    px: int, py: int, pz: int, pd: int,
    ax: int, ay: int, az: int,
    bx: int, by: int, bz: int,
    ex: int, ey: int, ez: int,
)
    by (nonlinear_arith)
    requires
        pd == 1,
        px == bx,
        py == by,
        pz == bz,
    ensures
        (px - ax * pd) * ex + (py - ay * pd) * ey + (pz - az * pd) * ez == (bx - ax) * ex + (by
            - ay) * ey + (bz - az) * ez,
{
}

/// Law: the barycentric coordinates of the three vertices are exactly
/// `(1, 0, 0)`, `(0, 1, 0)` and `(0, 0, 1)`, as fractions over the common
/// denominator.
pub proof fn lemma_barycentric_vertices(t: Triangle3)
    requires
        t.wf(),
    ensures
        bary_spec(t, point_of(t.a)) == (Frac3 { xn: t.denom, yn: 0, zn: 0, den: t.denom }),
        bary_spec(t, point_of(t.b)) == (Frac3 { xn: 0, yn: t.denom, zn: 0, den: t.denom }),
        bary_spec(t, point_of(t.c)) == (Frac3 { xn: 0, yn: 0, zn: t.denom, den: t.denom }),
{
    lemma_bary_bounds(t, point_of(t.a));
    lemma_bary_bounds(t, point_of(t.b));
    lemma_bary_bounds(t, point_of(t.c));
    lemma_vertex_dot_zero(point_of(t.a).xn as int, point_of(t.a).yn as int, point_of(t.a).zn
        as int, point_of(t.a).den as int, t.a.x as int, t.a.y as int, t.a.z as int, t.ab.x as int,
        t.ab.y as int, t.ab.z as int);
    lemma_vertex_dot_zero(point_of(t.a).xn as int, point_of(t.a).yn as int, point_of(t.a).zn
        as int, point_of(t.a).den as int, t.a.x as int, t.a.y as int, t.a.z as int, t.ac.x as int,
        t.ac.y as int, t.ac.z as int);
    assert(bary_d20(t, point_of(t.a)) == 0);
    assert(bary_d21(t, point_of(t.a)) == 0);
    lemma_mul_by_zero(t.d11 as int, bary_d20(t, point_of(t.a)));
    lemma_mul_by_zero(t.d01 as int, bary_d21(t, point_of(t.a)));
    lemma_mul_by_zero(t.d00 as int, bary_d21(t, point_of(t.a)));
    lemma_mul_by_zero(t.d01 as int, bary_d20(t, point_of(t.a)));
    lemma_mul_by_one(point_of(t.a).den as int, t.d00 * t.d11 - t.d01 * t.d01);
    lemma_mul_by_one(point_of(t.b).den as int, t.d00 * t.d11 - t.d01 * t.d01);
    lemma_mul_by_one(point_of(t.c).den as int, t.d00 * t.d11 - t.d01 * t.d01);
    lemma_vertex_dot_edge(point_of(t.b).xn as int, point_of(t.b).yn as int, point_of(t.b).zn
        as int, point_of(t.b).den as int, t.a.x as int, t.a.y as int, t.a.z as int, t.b.x as int,
        t.b.y as int, t.b.z as int, t.ab.x as int, t.ab.y as int, t.ab.z as int);
    lemma_vertex_dot_edge(point_of(t.b).xn as int, point_of(t.b).yn as int, point_of(t.b).zn
        as int, point_of(t.b).den as int, t.a.x as int, t.a.y as int, t.a.z as int, t.b.x as int,
        t.b.y as int, t.b.z as int, t.ac.x as int, t.ac.y as int, t.ac.z as int);
    lemma_vertex_dot_edge(point_of(t.c).xn as int, point_of(t.c).yn as int, point_of(t.c).zn
        as int, point_of(t.c).den as int, t.a.x as int, t.a.y as int, t.a.z as int, t.c.x as int,
        t.c.y as int, t.c.z as int, t.ab.x as int, t.ab.y as int, t.ab.z as int);
    lemma_vertex_dot_edge(point_of(t.c).xn as int, point_of(t.c).yn as int, point_of(t.c).zn
        as int, point_of(t.c).den as int, t.a.x as int, t.a.y as int, t.a.z as int, t.c.x as int,
        t.c.y as int, t.c.z as int, t.ac.x as int, t.ac.y as int, t.ac.z as int);
    assert(bary_d20(t, point_of(t.b)) == dot_spec(t.ab, t.ab));
    assert(bary_d21(t, point_of(t.b)) == dot_spec(t.ab, t.ac));
    assert(bary_d20(t, point_of(t.c)) == dot_spec(t.ab, t.ac)) by {
        lemma_mul_comm(t.ac.x as int, t.ab.x as int);
        lemma_mul_comm(t.ac.y as int, t.ab.y as int);
        lemma_mul_comm(t.ac.z as int, t.ab.z as int);
    }
    assert(bary_d21(t, point_of(t.c)) == dot_spec(t.ac, t.ac));
    lemma_mul_comm(t.d11 as int, t.d00 as int);
    lemma_mul_comm(t.d01 as int, t.d00 as int);
    lemma_mul_comm(t.d01 as int, t.d11 as int);
}

/// Law: for every rational point, the three barycentric coordinates sum to
/// exactly `1` (their numerators sum to the common denominator).
pub proof fn lemma_barycentric_sum(t: Triangle3, p: Frac3)
    requires
        t.wf(),
        p.wf(),
        p.bounded(POINT_LIMIT as int),
    ensures
        bary_spec(t, p).xn + bary_spec(t, p).yn + bary_spec(t, p).zn == bary_spec(t, p).den,
{
    lemma_bary_bounds(t, p);
}

impl Shape for Triangle3 {
    open spec fn wf(&self) -> bool {
        Triangle3::wf(*self)
    }

    open spec fn normal_spec(&self, point: Vector3) -> Vector3 {
        self.plane.n
    }

    open spec fn roots_spec(&self, line: Line3) -> Seq<Lambda> {
        if plane_denom(self.plane, line) == 0 {
            Seq::empty()
        } else {
            let lam = plane_lambda(self.plane, line);
            let hp = calc_point_spec(line, lam.num as int, lam.den as int);
            if bary_inside(bary_spec(*self, hp)) {
                seq![lam]
            } else {
                Seq::empty()
            }
        }
    }

    open spec fn closest_spec(&self, line: Line3) -> Option<Intersection> {
        if plane_denom(self.plane, line) == 0 {
            None
        } else {
            let lam = plane_lambda(self.plane, line);
            let hp = calc_point_spec(line, lam.num as int, lam.den as int);
            if bary_inside(bary_spec(*self, hp)) {
                Some(Intersection { lambda: lam, barycentric: Some(bary_spec(*self, hp)) })
            } else {
                None
            }
        }
    }

    /// Returns the normal direction of the triangle: the normal of its
    /// plane, the same at every point.
    fn normal(&self, point: &Vector3) -> (r: Vector3) {
        self.plane.n
    }

    /// Returns the intersection of the triangle with a line: the plane hit,
    /// kept only if all three barycentric coordinates of the hit point lie
    /// in `[0, 1]`; the empty list if the line is parallel to the plane,
    /// lies inside it, or hits it outside the triangle's bounds.
    fn intersects(&self, line: &Line3) -> (r: List<Lambda>) {
        let roots = self.plane.intersects(line);
        match list_peek(&roots) {
            None => roots,
            Some(lam) => {
                proof {
                    lemma_plane_lambda_wf(self.plane, *line);
                }
                let fl = Frac { num: lam.num, den: lam.den };
                let p = line.calc_point(&fl);
                let bar = self.barycentric(&p);
                if 0 <= bar.xn && bar.xn <= bar.den && 0 <= bar.yn && bar.yn <= bar.den && 0
                    <= bar.zn && bar.zn <= bar.den {
                    roots
                } else {
                    list_new()
                }
            },
        }
    }

    /// Returns the plane's closest intersection, kept only under the same
    /// barycentric bounds check and then carrying the barycentric
    /// coordinates of the hit point; `None` otherwise.
    fn closest_intersection(&self, line: &Line3) -> (r: Option<Intersection>) {
        let pi = self.plane.closest_intersection(line);
        match pi {
            None => None,
            Some(hit) => {
                proof {
                    lemma_plane_lambda_wf(self.plane, *line);
                }
                let fl = Frac { num: hit.lambda.num, den: hit.lambda.den };
                let p = line.calc_point(&fl);
                let bar = self.barycentric(&p);
                if 0 <= bar.xn && bar.xn <= bar.den && 0 <= bar.yn && bar.yn <= bar.den && 0
                    <= bar.zn && bar.zn <= bar.den {
                    Some(Intersection::new(hit.lambda, Some(&bar)))
                } else {
                    None
                }
            },
        }
    }
}

} // verus!
