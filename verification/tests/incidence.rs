use pga::{
    perpendicular_plane, project_plane_onto_point, project_point_onto_plane, Line, Magnitude,
    Plane, Point3, Point4,
};

/// A join or a meet, where it is not zero.
fn proper<T: Magnitude>(entity: T) -> Option<T> {
    if entity.is_zero() {
        None
    } else {
        Some(entity)
    }
}

#[test]
fn incidence_two_points_join_in_a_line() {
    let p0 = Point3::new(0, 0, 0);
    let p1 = Point3::new(1, 0, 0);
    let line1: Option<Line> = proper(p0 ^ p1);
    assert!(line1.is_some());
}

#[test]
fn incidence_identical_points_do_not_join_in_a_line() {
    let p1 = Point3::new(1, 0, 0);
    let degenerate_line1: Option<Line> = proper(p1 ^ p1);
    assert!(degenerate_line1.is_none());
}

#[test]
fn incidence_three_points_join_in_a_plane() {
    let p0 = Point3::new(0, 0, 0);
    let p1 = Point3::new(1, 0, 0);
    let p2 = Point3::new(0, 1, 0);
    let plane1: Option<Plane> = proper(p0 ^ p1 ^ p2);
    assert!(plane1.is_some());
}

#[test]
fn incidence_colinear_points_do_not_join_in_a_plane() {
    let p0 = Point3::new(0, 0, 0);
    let p1 = Point3::new(1, 0, 0);
    let p2 = Point3::new(2, 0, 0);
    let plane1: Option<Plane> = proper(p0 ^ p1 ^ p2);
    assert!(plane1.is_none());
}

#[test]
fn incidence_two_planes_meet_in_a_line() {
    let line: Option<Line> = proper(Plane::left() & Plane::up());
    assert!(line.is_some());
}

#[test]
fn incidence_three_planes_meet_in_a_point() {
    let origin: Option<Point4> = proper(Plane::left() & Plane::up() & Plane::forward());
    assert!(origin.is_some());
    assert_eq!(origin.map(Point3::try_from), Some(Ok(Point3::new(0, 0, 0))));
}

#[test]
fn incidence_line_and_plane_meet_in_a_point() {
    let p0 = Point3::new(0, 0, 0);
    let p1 = Point3::new(1, 0, 0);
    let line: Line = proper(p0 ^ p1).unwrap();
    // A plane that does not pass through the origin: x = 0.5, that is 2x - 1 = 0.
    let plane = Plane::new(2, 0, 0, -1);
    let point = plane & line;
    assert!(!point.is_zero());
    assert_eq!(point, Point4::new(-1, 0, 0, -2));
    // The intersection is at (0.5, 0, 0).
    assert_eq!(point.x as f64 / point.w as f64, 0.5);
    assert_eq!(point.y as f64 / point.w as f64, 0.0);
    assert_eq!(point.z as f64 / point.w as f64, 0.0);
}

#[test]
fn incidence_line_and_point_join_in_a_plane() {
    let p0 = Point3::new(0, 0, 0);
    let p1 = Point3::new(1, 0, 0);
    let p2 = Point3::new(0, 1, 0);
    let line: Line = proper(p0 ^ p1).unwrap();
    let plane = proper(line ^ p2);
    assert!(plane.is_some());
}

#[test]
fn incidence_colinear_line_and_point_do_not_join_in_a_plane() {
    let p0 = Point3::new(0, 0, 0);
    let p1 = Point3::new(1, 0, 0);
    let p2 = Point3::new(2, 0, 0);
    let line: Line = proper(p0 ^ p1).unwrap();
    let plane = proper(line ^ p2);
    assert!(plane.is_none());
}

#[test]
fn plane_rejects_perpendicular_line_as_zero() {
    let left = Plane::left();
    let plane = perpendicular_plane(Line::x_axis(), left).and_then(proper);
    assert!(plane.is_none());
}

#[test]
fn project_reject_project_plane_onto_point() {
    let left = Plane::left();
    let point = Point4::finite(1, 0, 0);

    let plane: Plane = project_plane_onto_point(left, point).unwrap();
    // The direction of the resulting plane is opposite to the input plane's.
    assert_eq!(plane, Plane::new(-1, 0, 0, 1));
}

#[test]
fn project_reject_project_point_onto_plane() {
    let plane = Plane::new(1, 0, 0, 0);
    let point = Point4::finite(3, 0, 0);
    let projected_point = project_point_onto_plane(point, plane).unwrap();

    assert_eq!(Point3::try_from(projected_point), Ok(Point3::new(0, 0, 0)));
}
