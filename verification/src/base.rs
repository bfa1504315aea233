//! Shared vocabulary of the kernel: construction errors, exact ray
//! parameters, the `Intersection` result value, the `Shape` capability, and
//! the trusted view of the linked list that carries intersection parameters.

use vstd::prelude::*;

verus! {

use list::List;
use crate::POINT_LIMIT;
use crate::arith::lemma_mul_bound;
use crate::frac::Frac3;
use crate::line3::Line3;
use crate::vector3::Vector3;
use crate::vector3::in_coord_range;

/// A construction-time validation failure. Queries never fail: a shape or a
/// line either cannot be built at all, or answers every query.
#[derive(Clone, Copy, Debug, PartialEq, Eq, Structural)]
pub enum GeomError {
    /// The two points defining a line coincide.
    DegenerateLine,
    /// The normal defining a plane is the zero vector.
    ZeroNormal,
    /// The three vertices defining a triangle are collinear.
    CollinearTriangle,
}

/// An exact ray parameter: the real number `(num + sgn * sqrt(disc)) / den`.
///
/// A rational parameter (every plane hit) has `sgn == 0`; the roots of a
/// sphere's quadratic carry `sgn == -1` or `sgn == 1` and the quadratic's
/// discriminant in `disc`. Keeping the radical symbolic lets the kernel
/// decide signs and comparisons exactly.
#[derive(Clone, Copy, Debug, PartialEq, Eq, Structural)]
pub struct Lambda {
    pub num: i128,
    pub sgn: i128,
    pub disc: i128,
    pub den: i128,
}

impl Lambda {
    pub open spec fn wf(self) -> bool {
        &&& 0 < self.den <= POINT_LIMIT
        &&& -POINT_LIMIT <= self.num <= POINT_LIMIT
        &&& self.disc >= 0
        &&& (self.sgn == -1 || self.sgn == 0 || self.sgn == 1)
        &&& (self.sgn == 0 ==> self.disc == 0)
    }

    /// Whether the represented real number is strictly positive: with
    /// `den > 0` this is the sign of `num + sgn * sqrt(disc)`, decided on
    /// integers alone.
    pub open spec fn pos_spec(self) -> bool {
        if self.sgn == 1 {
            self.num > 0 || self.disc > self.num * self.num
        } else if self.sgn == -1 {
            self.num > 0 && self.num * self.num > self.disc
        } else {
            self.num > 0
        }
    }

    /// Whether the represented real number equals the rational `n / d`.
    pub open spec fn is_ratio(self, n: int, d: int) -> bool {
        &&& self.sgn == 0
        &&& self.num * d == n * self.den
    }

    /// Decides whether the parameter is strictly positive (ahead of the ray
    /// origin, in the direction of the director vector).
    pub fn is_positive(&self) -> (r: bool)
        requires
            self.wf(),
        ensures
            r == self.pos_spec(),
    {
        if self.sgn == 0 {
            self.num > 0
        } else {
            proof {
                lemma_mul_bound(self.num as int, self.num as int, POINT_LIMIT as int, POINT_LIMIT as int);
            }
            let nsq: i128 = self.num * self.num;
            if self.sgn == 1 {
                self.num > 0 || self.disc > nsq
            } else {
                self.num > 0 && nsq > self.disc
            }
        }
    }

    /// Decides whether the parameter equals the rational `n / d` exactly.
    pub fn eq_ratio(&self, n: i128, d: i128) -> (r: bool)
        requires
            self.wf(),
            0 < d <= POINT_LIMIT,
            -POINT_LIMIT <= n <= POINT_LIMIT,
        ensures
            r == self.is_ratio(n as int, d as int),
    {
        if self.sgn != 0 {
            false
        } else {
            proof {
                lemma_mul_bound(self.num as int, d as int, POINT_LIMIT as int, POINT_LIMIT as int);
                lemma_mul_bound(n as int, self.den as int, POINT_LIMIT as int, POINT_LIMIT as int);
            }
            self.num * d == n * self.den
        }
    }
}

/// The surd `lam` is a root of `qa * x^2 + qb * x + qc == 0`: substituting
/// `(num + sgn * sqrt(disc)) / den` and separating the rational part from
/// the coefficient of `sqrt(disc)` gives these two integer identities.
pub open spec fn solves_quadratic(lam: Lambda, qa: int, qb: int, qc: int) -> bool {
    &&& qa * (lam.num * lam.num + (lam.sgn * lam.sgn) * lam.disc) + qb * (lam.num * lam.den) + qc
        * (lam.den * lam.den) == 0
    &&& lam.sgn * (2 * qa * lam.num + qb * lam.den) == 0
}

/// The minimal description of one intersection of a line with a shape: the
/// ray parameter, and, for triangle hits only, the barycentric coordinates
/// of the hit point (they come for free from the containment test).
#[derive(Clone, Copy, Debug)]
pub struct Intersection {
    pub lambda: Lambda,
    pub barycentric: Option<Frac3>,
}

impl Intersection {
    /// Creates a new `Intersection` from the ray parameter and the optional
    /// barycentric coordinates of the hit point.
    pub fn new(lambda: Lambda, barycentric: Option<&Frac3>) -> (r: Intersection)
        ensures
            r.lambda == lambda,
            barycentric matches Some(b) ==> r.barycentric == Some(*b),
            barycentric is None ==> r.barycentric is None,
    {
        match barycentric {
            Some(b) => Intersection { lambda, barycentric: Some(*b) },
            None => Intersection { lambda, barycentric: None },
        }
    }
}

/// `list::List` declared for the verifier; its values are opaque and are
/// reasoned about only through `list_items`.
#[verifier::external_type_specification]
#[verifier::external_body]
#[verifier::reject_recursive_types(T)]
pub struct ExList<T>(List<T>);

/// The contents of an intersection list, head first.
pub uninterp spec fn list_items(l: List<Lambda>) -> Seq<Lambda>;

/// Relies on `list::List::new`: the new list has no nodes.
#[verifier::external_body]
pub(crate) fn list_new() -> (r: List<Lambda>)
    ensures
        list_items(r) == Seq::<Lambda>::empty(),
{
    List::new()
}

/// Relies on `list::List::push`: the element is prepended as the new head.
#[verifier::external_body]
pub(crate) fn list_push(l: &mut List<Lambda>, x: Lambda)
    ensures
        list_items(*final(l)) == seq![x] + list_items(*old(l)),
{
    l.push(x)
}

/// Relies on `list::List::peek`: the head element is returned when there is
/// one, and `None` exactly when the list is empty.
#[verifier::external_body]
pub(crate) fn list_peek(l: &List<Lambda>) -> (r: Option<Lambda>)
    ensures
        list_items(*l).len() == 0 ==> r is None,
        list_items(*l).len() > 0 ==> r == Some(list_items(*l)[0]),
{
    match l.peek() {
        Some(x) => Some(*x),
        None => None,
    }
}

/// The capability shared by every shape of the kernel: a normal direction,
/// the full set of intersection parameters with a line, and the closest
/// intersection in the ray's forward direction.
pub trait Shape: Sized {
    /// The internal consistency of the shape's precomputed fields.
    spec fn wf(&self) -> bool;

    /// What `normal` returns at `point`.
    spec fn normal_spec(&self, point: Vector3) -> Vector3;

    /// What `intersects` returns, head first.
    spec fn roots_spec(&self, line: Line3) -> Seq<Lambda>;

    /// What `closest_intersection` returns.
    spec fn closest_spec(&self, line: Line3) -> Option<Intersection>;

    /// Returns the normal direction of the shape at a given point. The
    /// direction is exact and therefore not scaled to unit length.
    fn normal(&self, point: &Vector3) -> (r: Vector3)
        requires
            self.wf(),
            in_coord_range(*point),
        ensures
            r == self.normal_spec(*point),
    ;

    /// Returns the intersections of the shape with a line, as the exact ray
    /// parameters of the hit points.
    ///
    /// If the line misses the shape, the list is empty. A line parallel to a
    /// planar shape, or lying inside its plane, also yields the empty list
    /// by convention (in the embedded case every parameter would fulfil the
    /// equation, and no discrete answer exists).
    fn intersects(&self, line: &Line3) -> (r: List<Lambda>)
        requires
            self.wf(),
            line.wf(),
        ensures
            list_items(r) == self.roots_spec(*line),
    ;

    /// Returns the closest positive `Intersection` of the shape with a line
    /// ("positive" means in the direction of the director vector), computed
    /// without building the full list. A plane has at most one hit and
    /// reports it whatever its sign; the sphere applies the positivity
    /// tie-break.
    fn closest_intersection(&self, line: &Line3) -> (r: Option<Intersection>)
        requires
            self.wf(),
            line.wf(),
        ensures
            r == self.closest_spec(*line),
    ;
}

} // verus!
