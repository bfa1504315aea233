//! A plane in 3D space, and its exact intersection with a line.

use vstd::prelude::*;

verus! {

use list::List;
use crate::COORD_LIMIT;
use crate::LAMBDA_LIMIT;
use crate::NORMAL_LIMIT;
use crate::base::GeomError;
use crate::base::Intersection;
use crate::base::Lambda;
use crate::base::Shape;
use crate::base::list_items;
use crate::base::list_new;
use crate::base::list_push;
use crate::line3::Line3;
use crate::vector3::Vector3;
use crate::vector3::dot_spec;
use crate::vector3::in_coord_range;
use crate::vector3::lemma_dot_bound;
use crate::vector3::vec_bounded;

/// A plane in 3D space: a pivot point `a`, a normal direction `n`, and the
/// precomputed independent term `d = -(n . a)` of the plane equation
/// `n . p + d == 0`.
///
/// The normal is kept exactly as given (an exact kernel cannot scale it to
/// unit length, and no intersection result depends on its length).
#[derive(Clone, Copy, Debug, PartialEq, Eq, Structural)]
pub struct Plane {
    /// Pivot point of the plane.
    pub a: Vector3,
    /// Normal direction of the plane; never zero.
    pub n: Vector3,
    /// Independent term, precomputed as `-(n . a)`.
    pub d: i128,
}

/// The denominator `n . v` of the plane-line solve; zero exactly when the
/// line is parallel to (or lies inside) the plane.
pub open spec fn plane_denom(p: Plane, l: Line3) -> int {
    dot_spec(p.n, l.v)
}

/// The numerator `-(n . a_line) - d` of the plane-line solve.
pub open spec fn plane_num(p: Plane, l: Line3) -> int {
    -dot_spec(p.n, l.a) - p.d
}

/// The ray parameter of the plane hit, as an exact rational with positive
/// denominator.
pub open spec fn plane_lambda(p: Plane, l: Line3) -> Lambda {
    let dn = plane_denom(p, l);
    let nu = plane_num(p, l);
    if dn > 0 {
        Lambda { num: nu as i128, sgn: 0, disc: 0, den: dn as i128 }
    } else {
        Lambda { num: (-nu) as i128, sgn: 0, disc: 0, den: (-dn) as i128 }
    }
}

/// For well-formed arguments the plane hit parameter is well formed, within
/// the range `Line3::calc_point` accepts, and rational.
pub proof fn lemma_plane_lambda_wf(p: Plane, l: Line3)
    requires
        p.wf(),
        l.wf(),
        plane_denom(p, l) != 0,
    ensures
        plane_lambda(p, l).wf(),
        plane_lambda(p, l).sgn == 0,
        plane_lambda(p, l).disc == 0,
        -LAMBDA_LIMIT <= plane_lambda(p, l).num <= LAMBDA_LIMIT,
        0 < plane_lambda(p, l).den <= LAMBDA_LIMIT,
        -LAMBDA_LIMIT <= plane_num(p, l) <= LAMBDA_LIMIT,
        -LAMBDA_LIMIT <= plane_denom(p, l) <= LAMBDA_LIMIT,
{
    assert(COORD_LIMIT as int == 8192);
    assert(NORMAL_LIMIT as int == 536870912);
    assert(LAMBDA_LIMIT == 140737488355328);
    lemma_dot_bound(p.n, l.v, NORMAL_LIMIT as int, 2 * COORD_LIMIT as int);
    assert(-26388279066624 <= plane_denom(p, l) <= 26388279066624);
    lemma_dot_bound(p.n, l.a, NORMAL_LIMIT as int, COORD_LIMIT as int);
    lemma_dot_bound(p.n, p.a, NORMAL_LIMIT as int, COORD_LIMIT as int);
    assert(-13194139533312 <= dot_spec(p.n, l.a) <= 13194139533312);
    assert(-13194139533312 <= p.d <= 13194139533312);
    assert(-26388279066624 <= plane_num(p, l) <= 26388279066624);
}

/// The plane hit parameter equals the exact ratio of the solve's numerator
/// and denominator.
pub proof fn lemma_plane_lambda_ratio(p: Plane, l: Line3)
    requires
        p.wf(),
        l.wf(),
        plane_denom(p, l) != 0,
    ensures
        plane_lambda(p, l).is_ratio(plane_num(p, l), plane_denom(p, l)),
{
    lemma_plane_lambda_wf(p, l);
    let dn = plane_denom(p, l);
    let nu = plane_num(p, l);
    if dn < 0 {
        assert((-nu) * dn == nu * (-dn)) by (nonlinear_arith);
    }
}

impl Plane {
    /// Creates a new `Plane` through the point `a` with normal direction
    /// `n`. Fails exactly when `n` is the zero vector, since a plane needs a
    /// well-defined normal.
    pub fn new(a: &Vector3, n: &Vector3) -> (r: Result<Plane, GeomError>)
        requires
            in_coord_range(*a),
            vec_bounded(*n, NORMAL_LIMIT as int),
        ensures
            (n.x == 0 && n.y == 0 && n.z == 0) ==> r == Err::<Plane, GeomError>(
                GeomError::ZeroNormal,
            ),
            !(n.x == 0 && n.y == 0 && n.z == 0) ==> (r matches Ok(p) && p.a == *a && p.n == *n
                && p.wf()),
    {
        if n.is_zero() {
            Err(GeomError::ZeroNormal)
        } else {
            let d = -(n.dot(a) as i128);
            Ok(Plane { a: *a, n: *n, d })
        }
    }
}

impl Shape for Plane {
    open spec fn wf(&self) -> bool {
        &&& in_coord_range(self.a)
        &&& vec_bounded(self.n, NORMAL_LIMIT as int)
        &&& !(self.n.x == 0 && self.n.y == 0 && self.n.z == 0)
        &&& self.d == -dot_spec(self.n, self.a)
    }

    open spec fn normal_spec(&self, point: Vector3) -> Vector3 {
        self.n
    }

    open spec fn roots_spec(&self, line: Line3) -> Seq<Lambda> {
        if plane_denom(*self, line) == 0 {
            Seq::empty()
        } else {
            seq![plane_lambda(*self, line)]
        }
    }

    open spec fn closest_spec(&self, line: Line3) -> Option<Intersection> {
        if plane_denom(*self, line) == 0 {
            None
        } else {
            Some(Intersection { lambda: plane_lambda(*self, line), barycentric: None })
        }
    }

    /// Returns the normal direction of the plane; a plane has the same
    /// normal at every point.
    fn normal(&self, point: &Vector3) -> (r: Vector3) {
        self.n
    }

    /// Returns the intersection of the plane with a line: one parameter when
    /// `n . v != 0`, and the empty list when the line is parallel to the
    /// plane or lies inside it.
    fn intersects(&self, line: &Line3) -> (r: List<Lambda>) {
        let mut intersections = list_new();
        let denom = self.n.dot(&line.v);
        if denom != 0 {
            proof {
                lemma_plane_lambda_wf(*self, *line);
                lemma_dot_bound(self.n, line.a, NORMAL_LIMIT as int, COORD_LIMIT as int);
                lemma_dot_bound(self.n, self.a, NORMAL_LIMIT as int, COORD_LIMIT as int);
            }
            let num: i128 = -(self.n.dot(&line.a) as i128) - self.d;
            let lam = if denom > 0 {
                Lambda { num, sgn: 0, disc: 0, den: denom as i128 }
            } else {
                Lambda { num: -num, sgn: 0, disc: 0, den: -(denom as i128) }
            };
            list_push(&mut intersections, lam);
            proof {
                assert(list_items(intersections) =~= seq![plane_lambda(*self, *line)]);
            }
        }
        intersections
    }

    /// Returns the same single plane hit as `intersects`, wrapped as an
    /// `Intersection` without barycentric data; no tie-break is needed since
    /// a plane yields at most one hit.
    fn closest_intersection(&self, line: &Line3) -> (r: Option<Intersection>) {
        let denom = self.n.dot(&line.v);
        if denom != 0 {
            proof {
                lemma_plane_lambda_wf(*self, *line);
                lemma_dot_bound(self.n, line.a, NORMAL_LIMIT as int, COORD_LIMIT as int);
                lemma_dot_bound(self.n, self.a, NORMAL_LIMIT as int, COORD_LIMIT as int);
            }
            let num: i128 = -(self.n.dot(&line.a) as i128) - self.d;
            let lam = if denom > 0 {
                Lambda { num, sgn: 0, disc: 0, den: denom as i128 }
            } else {
                Lambda { num: -num, sgn: 0, disc: 0, den: -(denom as i128) }
            };
            Some(Intersection::new(lam, None))
        } else {
            None
        }
    }
}

} // verus!
