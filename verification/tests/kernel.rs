use pga::{
    ApproxEq, BulkWeight, CartesianError, Direction, Line, Magnitude, Origin, Plane,
    PlaneDirection, Point3, Point4,
};

/// The Cartesian coordinates of a homogeneous point, as fractions.
fn cartesian(p: Point4) -> [f64; 3] {
    [p.x as f64 / p.w as f64, p.y as f64 / p.w as f64, p.z as f64 / p.w as f64]
}

fn close(a: [f64; 3], b: [f64; 3]) -> bool {
    (a[0] - b[0]).abs() <= 1e-6 && (a[1] - b[1]).abs() <= 1e-6 && (a[2] - b[2]).abs() <= 1e-6
}

#[test]
fn test_two_points_join_in_a_line() {
    let p0 = Point3::new(0, 0, 0);
    let p1 = Point3::new(1, 0, 0);
    let line1: Line = p0 ^ p1;
    assert!(!line1.is_zero());
    let p0 = Point4::new(0, 0, 0, 1);
    let p1 = Point4::new(1, 0, 0, 1);
    let line1: Line = p0 ^ p1;
    assert!(!line1.is_zero());
}

#[test]
fn test_identical_points_do_not_join_in_a_line() {
    let p1 = Point3::new(1, 0, 0);
    let degenerate_line1: Line = p1 ^ p1;
    assert!(degenerate_line1.is_zero());
}

#[test]
fn test_three_points_join_in_a_plane() {
    let p0 = Point3::new(0, 0, 0);
    let p1 = Point3::new(1, 0, 0);
    let p2 = Point3::new(0, 1, 0);
    let plane1: Plane = p0 ^ p1 ^ p2;
    assert!(!plane1.is_zero());
    let p0 = Point4::new(0, 0, 0, 1);
    let p1 = Point4::new(1, 0, 0, 1);
    let p2 = Point4::new(0, 1, 0, 1);
    let plane1: Plane = p0 ^ p1 ^ p2;
    assert!(!plane1.is_zero());
}

#[test]
fn test_colinear_points_do_not_join_in_a_plane() {
    let p0 = Point3::new(0, 0, 0);
    let p1 = Point3::new(1, 0, 0);
    let p2 = Point3::new(2, 0, 0);
    let plane1: Plane = p0 ^ p1 ^ p2;
    assert!(plane1.is_zero());
}

#[test]
fn test_two_planes_meet_in_a_line() {
    let line: Line = Plane::forward() & Plane::up();
    assert!(!line.is_zero());
}

#[test]
fn three_base_planes_meet_in_origin() {
    let origin = Point3::try_from(Plane::forward() & Plane::up() & Plane::left()).unwrap();
    assert_eq!(origin, Point3::new(0, 0, 0));
    assert!(!origin.is_zero());
}

#[test]
fn test_three_planes_meet_in_a_point() {
    let p0: Plane = Plane::new(1, 0, 0, -1); // x = 1
    let p1: Plane = Plane::new(0, 1, 0, -2); // y = 2
    let p2: Plane = Plane::new(0, 0, 1, -3); // z = 3

    let point = Point3::try_from(p0 & p1 & p2).unwrap();
    let expected = Point3::new(1, 2, 3);
    assert!(point.approx_eq(&expected));
}

#[test]
fn line_through_origin_and_plane_meet_in_a_point() {
    let p0 = Point4::new(0, 0, 0, 1);
    let p1 = Point4::new(1, 0, 0, 1);
    let line: Line = p0 ^ p1;
    // A plane that does not pass through the origin: x = 0.5, that is 2x - 1 = 0.
    let plane = Plane::new(2, 0, 0, -1);
    let point = plane & line;
    // The point (1, 0, 0) with weight two lies at (0.5, 0, 0), between the
    // points with whole coordinates.
    assert_eq!(point, Point4::new(-1, 0, 0, -2));
    assert_eq!(Point3::try_from(point), Err(CartesianError::NotIntegral));
    let expected = [0.5, 0.0, 0.0];
    assert!(close(cartesian(point), expected));
    let point = line & plane;
    assert_eq!(point, Point4::new(1, 0, 0, 2));
    assert!(close(cartesian(point), expected));
}

#[test]
fn test_line_and_plane_meet_in_a_point() {
    let p0 = Point3::new(0, 1, 0);
    let p1 = Point3::new(1, 1, 0);
    let line: Line = p0 ^ p1;
    // A plane that does not pass through the origin: x = -1.
    let plane = Plane::new(1, 0, 0, 1);
    let point = plane & line;
    let expected = Point3::new(-1, 1, 0);
    let actual = Point3::try_from(point).unwrap();
    assert!(actual.approx_eq(&expected));
    let point = line & plane;
    assert!(Point3::try_from(point).unwrap().approx_eq(&expected));
}

#[test]
fn coplaner_line_and_plane_meet_in_a_direction() {
    let p0 = Point4::new(0, 0, 0, 1);
    let p1 = Point4::new(1, 0, 0, 1);
    let line: Line = p0 ^ p1;
    // A plane parallel to the line: z = 0.5, that is 2z - 1 = 0. With the
    // plane doubled the direction (-0.5, 0, 0) is doubled too.
    let plane = Plane::new(0, 0, 2, -1);
    let point = plane & line;
    let expected = Direction::new(-1, 0, 0);
    assert!(point.bulk().approx_eq(&expected));
    assert!(point.weight().approx_eq(&Origin::new(0)));
    assert_eq!([point.x as f64 / 2.0, point.y as f64 / 2.0, point.z as f64 / 2.0], [
        -0.5, 0.0, 0.0
    ]);
}

#[test]
fn coplaner_line_through_origin_and_plane_do_not_meet() {
    let p0 = Point4::new(0, 0, 0, 1);
    let p1 = Point4::new(1, 0, 0, 1);
    let line: Line = p0 ^ p1;
    let plane = Plane::new(0, 0, 1, 0);
    let p = plane & line;
    assert!(p.bulk().approx_eq(&Direction::new(0, 0, 0)));
    assert!(p.weight().approx_eq(&Origin::new(0)));
    assert!(p.is_zero());
}

#[test]
fn test_line_and_point_join_in_a_plane() {
    let p0 = Point4::new(0, 0, 0, 1);
    let p1 = Point4::new(1, 0, 0, 1);
    let p2 = Point4::new(0, 1, 0, 1);
    let line: Line = p0 ^ p1;
    let plane = line ^ p2;
    assert!(!plane.is_zero());
    assert!(plane.weight().approx_eq(&PlaneDirection::new(0, 0, 1)));
}

#[test]
fn test_colinear_line_and_point_do_not_join_in_a_plane() {
    let p0 = Point4::new(0, 0, 0, 1);
    let p1 = Point4::new(1, 0, 0, 1);
    let p2 = Point4::new(2, 0, 0, 1);
    let line: Line = p0 ^ p1;
    let plane = line ^ p2;
    assert!(plane.is_zero());
}

#[test]
fn line_expands_to_a_perpendicular_plane() {
    let left = Plane::left();
    let plane: Plane = Line::z_axis() ^ !left.weight();
    assert_eq!(plane, -Plane::up());
}

#[test]
fn perpendicular_line_expands_as_zero() {
    let left = Plane::left();
    let plane = Line::x_axis() ^ !left.weight();
    assert!(plane.is_zero());
}

#[test]
fn point_expands_from_plane_in_a_perpendicular_line() {
    let left = Plane::left();
    let point = Point4::new(1, 0, 0, 1);
    let mut line: Line = point ^ !left.weight();
    assert!(line.unitize());
    assert_eq!(line.weight().length_squared(), 1);
    assert_eq!(line, -Line::x_axis());
}

#[test]
fn point_expands_from_line_in_a_perpendicular_plane() {
    let forward = Line::z_axis();
    let plane: Plane = Point3::new(1, 0, 0) ^ !forward.weight();
    assert_eq!(plane, Plane::forward());
}

#[test]
fn test_project_plane_onto_point() {
    let left = Plane::left();
    let point = Point3::new(1, 0, 0);
    let line = point ^ !left.weight();

    let mut plane: Plane = point ^ !line.weight();
    assert!(plane.unitize());
    assert_eq!(plane.weight().length_squared(), 1);
    // The direction of the resulting plane is opposite to the input plane's.
    assert_eq!(plane, Plane::new(-1, 0, 0, 1));
}

#[test]
fn test_project_point_onto_plane() {
    let plane = Plane::new(1, 0, 0, 0);
    let point = Point3::new(3, 0, 0);
    let line = point ^ !plane.weight();
    let projected_point: Point3 = Point3::try_from(plane & line).unwrap();

    assert_eq!(projected_point, Point3::new(0, 0, 0));
}

#[test]
fn line_axes() {
    assert_eq!(-Line::z_axis(), Plane::left() & Plane::up());
    assert_eq!(-Line::y_axis(), Plane::forward() & Plane::left());
    assert_eq!(-Line::x_axis(), Plane::up() & Plane::forward());
}
