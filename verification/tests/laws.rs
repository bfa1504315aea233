use raygeom::Frac;
use raygeom::Frac3;
use raygeom::GeomError;
use raygeom::Line3;
use raygeom::Plane;
use raygeom::Shape;
use raygeom::Sphere;
use raygeom::Triangle3;
use raygeom::Vector3;

/// The real value of an exact ray parameter, in floating point.
fn lam_value(l: &raygeom::Lambda) -> f64 {
    ((l.num as f64) + (l.sgn as f64) * (l.disc as f64).sqrt()) / (l.den as f64)
}

#[test]
fn construction_errors() {
    let o = Vector3::new(1, 2, 3);
    assert_eq!(Line3::new(&o, &o).unwrap_err(), GeomError::DegenerateLine);
    assert_eq!(
        Plane::new(&o, &Vector3::new(0, 0, 0)).unwrap_err(),
        GeomError::ZeroNormal
    );
    // three collinear points define no triangle
    assert_eq!(
        Triangle3::new(
            &Vector3::new(0, 0, 0),
            &Vector3::new(1, 1, 1),
            &Vector3::new(3, 3, 3)
        )
        .unwrap_err(),
        GeomError::CollinearTriangle
    );
}

#[test]
fn calc_point_endpoints() {
    // calc_point(0) is the pivot and calc_point(1) the second point, exactly
    let a = Vector3::new(3, -7, 11);
    let b = Vector3::new(-2, 5, 100);
    let line = Line3::new(&a, &b).unwrap();
    let p0 = line.calc_point(&Frac::from_int(0));
    assert_eq!((p0.xn, p0.yn, p0.zn, p0.den), (3, -7, 11, 1));
    let p1 = line.calc_point(&Frac::from_int(1));
    assert_eq!((p1.xn, p1.yn, p1.zn, p1.den), (-2, 5, 100, 1));
}

#[test]
fn calc_point_at_rational_parameter() {
    // the midpoint of the two defining points sits at parameter 1/2, exactly
    let a = Vector3::new(0, 0, 0);
    let b = Vector3::new(0, 0, 10);
    let line = Line3::new(&a, &b).unwrap();
    let mid = line.calc_point(&Frac::new(1, 2));
    assert_eq!((mid.xn, mid.yn, mid.zn, mid.den), (0, 0, 10, 2));
    // a negated denominator names the same parameter
    let mid2 = line.calc_point(&Frac::new(-1, -2));
    assert_eq!((mid2.xn, mid2.yn, mid2.zn, mid2.den), (0, 0, 10, 2));
}

#[test]
fn dist_point_on_line_is_zero() {
    let a = Vector3::new(1, 2, 3);
    let b = Vector3::new(7, -4, 9);
    let line = Line3::new(&a, &b).unwrap();
    // both defining points lie on the line
    assert_eq!(line.dist_point(&a).sq.num, 0);
    assert_eq!(line.dist_point(&b).sq.num, 0);
    // a point ahead of b on the same line: a + 2 * (b - a)
    assert_eq!(line.dist_point(&Vector3::new(13, -10, 15)).sq.num, 0);
}

#[test]
fn barycentric_sum_is_one() {
    let t = Triangle3::new(
        &Vector3::new(1, 0, 0),
        &Vector3::new(-3, 7, 2),
        &Vector3::new(5, 5, -11),
    )
    .unwrap();
    for p in [
        Vector3::new(0, 0, 0),
        Vector3::new(4, -9, 2),
        Vector3::new(1000, 55, -3),
    ] {
        let bar = t.barycentric(&Frac3::from_vector3(&p));
        assert!(bar.den > 0);
        assert_eq!(bar.xn + bar.yn + bar.zn, bar.den);
    }
}

#[test]
fn tangent_root_is_returned_when_positive() {
    // a tangent line whose single root is positive must yield a hit
    let sphere = Sphere::new(&Vector3::new(0, 0, 0), 20);
    let tangent_line = Line3::new(&Vector3::new(0, 20, 100), &Vector3::new(0, 20, 0)).unwrap();
    let hit = sphere.closest_intersection(&tangent_line).unwrap();
    assert_eq!(hit.lambda.sgn, 0);
    assert_eq!(lam_value(&hit.lambda), 1.0);
    // and one behind the ray origin must not
    let away = Line3::new(&Vector3::new(0, 20, -100), &Vector3::new(0, 20, -200)).unwrap();
    assert!(sphere.closest_intersection(&away).is_none());
}

#[test]
fn closest_picks_smallest_positive_root() {
    let sphere = Sphere::new(&Vector3::new(0, 0, 0), 20);
    // from outside, the nearer surface point wins: 0.4 rather than 0.6
    let line = Line3::new(&Vector3::new(0, 0, -100), &Vector3::new(0, 0, 100)).unwrap();
    let hit = sphere.closest_intersection(&line).unwrap();
    assert_eq!(hit.lambda.sgn, -1);
    assert_eq!(lam_value(&hit.lambda), 0.4);
    // from inside, only one root is ahead: 0.2
    let from_origin = Line3::new(&Vector3::new(0, 0, 0), &Vector3::new(0, 0, 100)).unwrap();
    let hit = sphere.closest_intersection(&from_origin).unwrap();
    assert_eq!(hit.lambda.sgn, 1);
    assert_eq!(lam_value(&hit.lambda), 0.2);
}

#[test]
fn triangle_hit_carries_barycentric() {
    let t = Triangle3::new(
        &Vector3::new(0, 0, 0),
        &Vector3::new(0, 0, 10),
        &Vector3::new(0, 10, 0),
    )
    .unwrap();
    let ray = Line3::new(&Vector3::new(10, 5, 5), &Vector3::new(0, 5, 5)).unwrap();
    let hit = t.closest_intersection(&ray).unwrap();
    let bar = hit.barycentric.unwrap();
    assert!(bar.xn == 0);
    assert_eq!(2 * bar.yn, bar.den);
    assert_eq!(2 * bar.zn, bar.den);
    // a plane reports no barycentric data
    let plane = Plane::new(&Vector3::new(0, 0, 0), &Vector3::new(1, 0, 0)).unwrap();
    let phit = plane.closest_intersection(&ray).unwrap();
    assert!(phit.barycentric.is_none());
}

#[test]
fn repeated_queries_are_identical() {
    let sphere = Sphere::new(&Vector3::new(1, 2, 3), 100);
    let line = Line3::new(&Vector3::new(-50, 0, 0), &Vector3::new(50, 4, 6)).unwrap();
    let first = sphere.closest_intersection(&line).unwrap().lambda;
    let second = sphere.closest_intersection(&line).unwrap().lambda;
    assert_eq!(first, second);
    let t = Triangle3::new(
        &Vector3::new(0, 0, 0),
        &Vector3::new(0, 0, 10),
        &Vector3::new(0, 10, 0),
    )
    .unwrap();
    let p = Frac3::from_vector3(&Vector3::new(0, 3, 4));
    assert_eq!(t.barycentric(&p), t.barycentric(&p));
}

#[test]
fn vector_ops_are_exact() {
    let v = Vector3::from_i32(3, 4, 0);
    assert_eq!(v, Vector3::new(3, 4, 0));
    assert_eq!(v.magnitude_2(), 25);
    let m = v.magnitude();
    assert_eq!((m.sq.num, m.sq.den), (25, 1));
    assert!(!v.is_zero());
    assert!(Vector3::new(0, 0, 0).is_zero());
    assert_eq!(v.dot(&Vector3::new(1, 2, 3)), 11);
    assert_eq!(
        Vector3::new(1, 0, 0).cross(&Vector3::new(0, 1, 0)),
        Vector3::new(0, 0, 1)
    );
    let d = Vector3::new(1, 1, 1).distance_to(Vector3::new(4, 5, 1));
    assert_eq!((d.sq.num, d.sq.den), (25, 1));
    assert_eq!(v.sub(&Vector3::new(1, 1, 1)), Vector3::new(2, 3, -1));
}

#[test]
fn exact_ratio_comparison() {
    let plane = Plane::new(&Vector3::new(0, 0, 0), &Vector3::new(1, 1, 0)).unwrap();
    let tilted = Line3::new(&Vector3::new(0, -1, 0), &Vector3::new(0, 1, 10)).unwrap();
    let lam = plane.closest_intersection(&tilted).unwrap().lambda;
    assert!(lam.eq_ratio(1, 2));
    assert!(lam.eq_ratio(2, 4));
    assert!(!lam.eq_ratio(1, 3));
    assert!(lam.is_positive());
}

#[test]
fn normals_are_exact_directions() {
    let probe = Vector3::new(7, 8, 9);
    let plane = Plane::new(&Vector3::new(0, 0, 0), &Vector3::new(1, 1, 0)).unwrap();
    assert_eq!(plane.normal(&probe), Vector3::new(1, 1, 0));
    let sphere = Sphere::new(&Vector3::new(1, 1, 1), 5);
    assert_eq!(sphere.normal(&probe), Vector3::new(6, 7, 8));
    let t = Triangle3::new(
        &Vector3::new(0, 0, 0),
        &Vector3::new(0, 0, 10),
        &Vector3::new(0, 10, 0),
    )
    .unwrap();
    // ab x ac = (0,0,10) x (0,10,0) = (-100, 0, 0)
    assert_eq!(t.normal(&probe), Vector3::new(-100, 0, 0));
}
