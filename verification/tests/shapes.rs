use raygeom::Frac;
use raygeom::Frac3;
use raygeom::Line3;
use raygeom::Plane;
use raygeom::Shape;
use raygeom::Sphere;
use raygeom::Triangle3;
use raygeom::Vector3;

use list::List;

/// The real value of an exact ray parameter, in floating point.
fn lambda_f64(l: &raygeom::Lambda) -> f64 {
    ((l.num as f64) + (l.sgn as f64) * (l.disc as f64).sqrt()) / (l.den as f64)
}

#[test]
fn line_tests() {
    let a = Vector3::new(0, 0, 0);
    let b = Vector3::new(0, 0, 10);

    assert!(Line3::new(&a, &a).is_err());

    let line = Line3::new(&a, &b).unwrap();
    let p0 = line.calc_point(&Frac::from_int(0));
    assert_eq!((p0.xn, p0.yn, p0.zn, p0.den), (0, 0, 0, 1));
    let p1 = line.calc_point(&Frac::from_int(1));
    assert_eq!((p1.xn, p1.yn, p1.zn, p1.den), (0, 0, 10, 1));

    let dist = line.dist_point(&Vector3::new(0, 0, 5));
    assert_eq!(dist.sq.num, 0);

    let dist = line.dist_point(&Vector3::new(3, 7, 5));
    // the squared distance is exactly 58; sqrt(58) in floating point
    assert_eq!(dist.sq.num, 58 * dist.sq.den);
    let d = ((dist.sq.num as f64) / (dist.sq.den as f64)).sqrt();
    assert_eq!(d, 7.6157731058639087);
}

#[test]
fn sphere_tests() {
    // a unit sphere scene, scaled by 10 onto the integer grid
    let a = Vector3::new(0, 0, 0);
    let b = Vector3::new(0, 0, 100);

    let sphere = Sphere::new(&a, 20);

    let line_from_origin = Line3::new(&a, &b).unwrap();
    let line_from_outside = Line3::new(&Vector3::new(0, 0, -100), &b).unwrap();
    let line_from_beyond_sphere = Line3::new(&b, &Vector3::new(0, 0, 200)).unwrap();
    let tangent_line = Line3::new(&Vector3::new(0, 20, 100), &Vector3::new(0, 20, 0)).unwrap();
    let outer_line = Line3::new(&Vector3::new(0, 21, 100), &Vector3::new(0, 21, 0)).unwrap();

    // secant line
    let instersection: List<raygeom::Lambda> = sphere.intersects(&line_from_origin);
    assert_eq!(instersection.iter().count(), 2);
    assert_eq!(
        lambda_f64(&sphere.closest_intersection(&line_from_outside).unwrap().lambda),
        0.4
    );
    assert_eq!(
        lambda_f64(&sphere.closest_intersection(&line_from_origin).unwrap().lambda),
        0.2
    );

    // tangent line
    let tangent_instersection = sphere.intersects(&tangent_line);
    assert_eq!(tangent_instersection.iter().count(), 1);

    // non-crossing line
    let outer_instersection = sphere.intersects(&outer_line);
    assert_eq!(outer_instersection.iter().count(), 0);
    assert_eq!(
        sphere.closest_intersection(&line_from_beyond_sphere).is_none(),
        true
    );
}

#[test]
fn plane_tests() {
    let plane = Plane::new(&Vector3::new(0, 0, 0), &Vector3::new(1, 1, 0)).unwrap();

    let horizontal_line = Line3::new(&Vector3::new(0, 1, 0), &Vector3::new(0, 1, 10)).unwrap();
    let tilted_line = Line3::new(&Vector3::new(0, -1, 0), &Vector3::new(0, 1, 10)).unwrap();
    // a line through the origin inside the plane (its direction has n . v == 0)
    let in_plane_line = Line3::new(&Vector3::new(0, 0, 0), &Vector3::new(-1350, 1350, 8381)).unwrap();

    let mut instersection = plane.intersects(&horizontal_line);
    assert_eq!(instersection.iter().count(), 0);
    assert_eq!(plane.closest_intersection(&horizontal_line).is_none(), true);
    assert!(plane
        .closest_intersection(&tilted_line)
        .unwrap()
        .lambda
        .eq_ratio(1, 2));
    assert_eq!(plane.closest_intersection(&in_plane_line).is_none(), true);

    instersection = plane.intersects(&tilted_line);
    assert_eq!(instersection.iter().count(), 1);

    instersection = plane.intersects(&in_plane_line);
    assert_eq!(instersection.iter().count(), 0);
}

#[test]
fn triangle_tests() {
    let a = Vector3::new(0, 0, 0);
    let b = Vector3::new(0, 0, 10);
    let c = Vector3::new(0, 10, 0);
    let triangle = Triangle3::new(&a, &b, &c).unwrap();

    // barycentric function: point matching vertexes, as exact fractions
    let mut barycentric: Frac3 = triangle.barycentric(&Frac3::from_vector3(&a));
    assert!(barycentric.xn == barycentric.den && barycentric.yn == 0 && barycentric.zn == 0);
    barycentric = triangle.barycentric(&Frac3::from_vector3(&b));
    assert!(barycentric.xn == 0 && barycentric.yn == barycentric.den && barycentric.zn == 0);
    barycentric = triangle.barycentric(&Frac3::from_vector3(&c));
    assert!(barycentric.xn == 0 && barycentric.yn == 0 && barycentric.zn == barycentric.den);

    // point inside the triangle: exactly (0, 1/2, 1/2)
    barycentric = triangle.barycentric(&Frac3::from_vector3(&Vector3::new(0, 5, 5)));
    assert!(barycentric.xn == 0);
    assert!(2 * barycentric.yn == barycentric.den);
    assert!(2 * barycentric.zn == barycentric.den);
    let ray_inside = Line3::new(&Vector3::new(10, 5, 5), &Vector3::new(0, 5, 5)).unwrap();
    let intersections = triangle.intersects(&ray_inside);
    assert_eq!(intersections.iter().count(), 1);
    let mut intersection = triangle.closest_intersection(&ray_inside);
    assert!(intersection.unwrap().lambda.eq_ratio(1, 1));

    // point outside the triangle: exactly (1/10, 1/10, 8/10)
    barycentric = triangle.barycentric(&Frac3::from_vector3(&Vector3::new(0, 8, 1)));
    assert!(10 * barycentric.xn == barycentric.den);
    assert!(10 * barycentric.yn == barycentric.den);
    assert!(10 * barycentric.zn == 8 * barycentric.den);
    let ray_outside = Line3::new(&Vector3::new(10, 15, 15), &Vector3::new(0, 15, 15)).unwrap();
    let intersections = triangle.intersects(&ray_outside);
    assert_eq!(intersections.iter().count(), 0);
    intersection = triangle.closest_intersection(&ray_outside);
    assert_eq!(intersection.is_none(), true);

    // point outside triangle plane, but inside if projected on plane
    barycentric = triangle.barycentric(&Frac3::from_vector3(&Vector3::new(0, 5, 5)));
    assert!(barycentric.xn == 0);
    assert!(2 * barycentric.yn == barycentric.den);
    assert!(2 * barycentric.zn == barycentric.den);
}
