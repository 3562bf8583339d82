use pga::{
    perpendicular_line, perpendicular_plane, perpendicular_plane_through_point,
    project_line_onto_plane, project_plane_onto_point, project_point_onto_plane, ApproxEq,
    BulkWeight, Direction, Dual, Horizon, Line, LineDirection, LineMoment, Magnitude, Origin,
    Plane, PlaneDirection, Point3, Point4,
};

/// The value of the plane equation at a point.
fn incidence(plane: Plane, p: Point4) -> i64 {
    plane.x * p.x + plane.y * p.y + plane.z * p.z + plane.w * p.w
}

#[test]
fn join_of_points_is_antisymmetric() {
    let a = Point4::new(2, -3, 5, 1);
    let b = Point4::new(-7, 11, 13, 2);
    assert_eq!(a ^ b, Line::new(-11, 17, 3, -94, -61, 1));
    assert_eq!(a ^ b, -(b ^ a));
    assert!((a ^ b).approx_eq(&-(b ^ a)));
}

#[test]
fn join_of_line_and_point_is_antisymmetric() {
    let moment = LineMoment::new(4, -1, 6);
    let p = Point4::new(3, 5, -2, 7);
    let around = Line::from(moment);
    assert_eq!(p ^ moment, Plane::new(-28, 7, -42, -5));
    assert_eq!(p ^ moment, -(around ^ p));
}

#[test]
fn meet_of_planes_is_antisymmetric() {
    let a = Plane::new(1, 2, 3, 4);
    let b = Plane::new(-5, 6, 7, -8);
    assert_eq!(a & b, Line::new(4, 22, -16, 12, -40, -52));
    assert_eq!(a & b, -(b & a));
}

#[test]
fn meet_of_plane_and_line_is_antisymmetric() {
    let plane = Plane::new(1, 2, 3, 4);
    let line = Line::new(1, 0, -1, 2, 5, 2);
    assert_eq!(plane & line, Point4::new(15, -4, -5, 2));
    assert_eq!(line & plane, -(plane & line));
}

#[test]
fn identical_points_join_in_the_zero_line() {
    let a = Point4::new(2, -3, 5, 4);
    assert!((a ^ a).is_zero());
    let doubled = Point4::new(4, -6, 10, 8);
    assert!((a ^ doubled).is_zero());
    let d = Direction::new(1, 2, 3);
    assert!((Point4::from(d) ^ d).is_zero());
}

#[test]
fn collinear_points_join_in_the_zero_plane() {
    let a = Point3::new(1, 2, 3);
    let b = Point3::new(4, 6, 8);
    // The point a + 3 (b - a), and the midpoint of a and b with weight two.
    let c = Point3::new(10, 14, 18);
    let midpoint = Point4::new(5, 8, 11, 2);
    assert!((a ^ b ^ c).is_zero());
    assert!(((a ^ b) ^ midpoint).is_zero());
    let off = Point3::new(10, 14, 19);
    assert!(!(a ^ b ^ off).is_zero());
}

#[test]
fn parallel_planes_meet_at_infinity() {
    let a = Plane::new(1, 2, 3, 4);
    let same = Plane::new(3, 6, 9, 12);
    assert!((a & a).is_zero());
    assert!((a & same).is_zero());
    let shifted = Plane::new(2, 4, 6, 5);
    let line = a & shifted;
    assert!(!line.is_valid());
    assert!(!line.is_zero());
    assert_eq!(line, Line::new(0, 0, 0, -3, -6, -9));
}

#[test]
fn parallel_line_meets_plane_in_a_direction() {
    let plane = Plane::new(0, 0, 1, -5);
    let line = Point3::new(0, 0, 1) ^ Point3::new(1, 1, 1);
    let p = plane & line;
    assert!(!p.is_valid());
    assert_eq!(p, Point4::new(-4, -4, 0, 0));
    // A line that lies in the plane has no single point in common with it.
    let inside = Point3::new(0, 0, 5) ^ Point3::new(1, 1, 5);
    assert!((plane & inside).is_zero());
}

#[test]
fn dual_applied_twice() {
    let d = Direction::new(1, -2, 3);
    assert_eq!(d.dual(), PlaneDirection::new(1, -2, 3));
    assert_eq!(d.dual().dual(), -d);
    assert_eq!(!!d, -d);
    let n = PlaneDirection::new(4, 5, -6);
    assert_eq!(!n, Direction::new(-4, -5, 6));
    assert_eq!(!!n, -n);
    let v = LineDirection::new(1, -2, 3);
    assert_eq!(!v, LineMoment::new(-1, 2, -3));
    assert_eq!(!!v, v);
    let m = LineMoment::new(7, 8, 9);
    assert_eq!(!m, LineDirection::new(-7, -8, -9));
    assert_eq!(!!m, m);
    let o = Origin::new(5);
    assert_eq!(!o, Horizon::new(5));
    assert_eq!(!!o, -o);
    let h = Horizon::new(5);
    assert_eq!(!h, Origin::new(-5));
    assert_eq!(!!h, -h);
}

#[test]
fn dual_of_whole_entities() {
    let p = Point4::new(1, 2, 3, 4);
    assert_eq!(p.dual(), Plane::new(1, 2, 3, 4));
    assert_eq!(p.dual().dual(), -p);
    let plane = Plane::new(1, 2, 3, 4);
    assert_eq!(plane.dual(), Point4::new(-1, -2, -3, -4));
    let line = Line::new(1, 2, 3, 4, 5, 6);
    assert_eq!(line.dual(), Line::new(-4, -5, -6, -1, -2, -3));
    assert_eq!(line.dual().dual(), line);
    assert_eq!(line.checked_dual(), Some(line.dual()));
}

#[test]
fn meet_is_the_dual_of_the_join_of_the_duals() {
    let a = Plane::new(1, 2, 3, 4);
    let b = Plane::new(-5, 6, 7, -8);
    let line = Line::new(1, 0, -1, 2, 5, 2);
    assert_eq!(a & b, (a.dual() ^ b.dual()).dual());
    assert_eq!(line & a, (line.dual() ^ a.dual()).dual());
    assert_eq!(a & line, -(line.dual() ^ a.dual()).dual());
}

#[test]
fn planes_through_points_meet_in_their_common_point() {
    let p = [
        Point3::new(1, 1, 0),
        Point3::new(1, 0, 2),
        Point3::new(1, 2, 0),
        Point3::new(0, 2, 1),
        Point3::new(0, 2, 3),
        Point3::new(3, 2, 0),
        Point3::new(0, 1, 1),
        Point3::new(0, 3, 1),
        Point3::new(3, 0, 1),
    ];
    let plane0 = p[0] ^ p[1] ^ p[2];
    let plane1 = p[3] ^ p[4] ^ p[5];
    let plane2 = p[6] ^ p[7] ^ p[8];
    // The planes x = 1, y = 2 and z = 1.
    assert_eq!(plane0, Plane::new(-2, 0, 0, 2));
    assert_eq!(plane1, Plane::new(0, 6, 0, -12));
    assert_eq!(plane2, Plane::new(0, 0, -6, 6));
    for i in 0..3 {
        assert_eq!(incidence(plane0, Point4::from(p[i])), 0);
        assert_eq!(incidence(plane1, Point4::from(p[3 + i])), 0);
        assert_eq!(incidence(plane2, Point4::from(p[6 + i])), 0);
    }
    let common = plane0 & plane1 & plane2;
    assert_eq!(common, Point4::new(-72, -144, -72, -72));
    assert_eq!(incidence(plane0, common), 0);
    assert_eq!(incidence(plane1, common), 0);
    assert_eq!(incidence(plane2, common), 0);
    assert_eq!(Point3::try_from(common), Ok(Point3::new(1, 2, 1)));
}

#[test]
fn projection_of_a_point_onto_a_plane() {
    let plane = Plane::new(1, 0, 0, 0);
    let point = Point4::finite(3, 0, 0);
    assert_eq!(perpendicular_line(point, plane), Some(Line::new(-1, 0, 0, 0, 0, 0)));
    let foot = project_point_onto_plane(point, plane).unwrap();
    assert_eq!(foot, Point4::new(0, 0, 0, 1));
    assert_eq!(Point3::try_from(foot), Ok(Point3::new(0, 0, 0)));

    let plane = Plane::new(-1, 1, 1, 1);
    let point = Point4::finite(1, 2, 3);
    assert_eq!(perpendicular_line(point, plane), Some(Line::new(1, -1, -1, 1, 4, -3)));
    let foot = project_point_onto_plane(point, plane).unwrap();
    assert_eq!(foot, Point4::new(8, 1, 4, 3));
    assert_eq!(incidence(plane, foot), 0);
    // A point of the plane projects onto itself, scaled by the squared
    // length of the normal.
    assert_eq!(project_point_onto_plane(foot, plane), Some(Point4::new(24, 3, 12, 9)));
}

#[test]
fn projection_of_a_plane_onto_a_point() {
    let plane = Plane::new(1, 0, 0, 1);
    let point = Point4::finite(1, 0, 0);
    let through = project_plane_onto_point(plane, point).unwrap();
    assert_eq!(through, Plane::new(-1, 0, 0, 1));
    assert_eq!(incidence(through, point), 0);

    let plane = Plane::new(-1, 1, 1, 1);
    let point = Point4::finite(1, 2, 3);
    let through = project_plane_onto_point(plane, point).unwrap();
    assert_eq!(through, Plane::new(1, -1, -1, 4));
    assert_eq!(incidence(through, point), 0);
}

#[test]
fn projection_of_a_line_onto_a_plane() {
    let line = Point3::new(0, 1, 0) ^ Point3::new(0, 0, 1);
    let plane = Plane::new(1, 0, 1, 1);
    let across = perpendicular_plane(line, plane).unwrap();
    assert_eq!(across, Plane::new(1, -1, -1, 1));
    let shadow = project_line_onto_plane(line, plane).unwrap();
    assert_eq!(shadow, Line::new(-1, -2, 1, 0, 1, 2));
    assert_eq!(shadow, plane & across);
    // The shadow lies in the plane.
    assert!((plane & shadow).is_zero());
}

#[test]
fn perpendicular_plane_through_a_point() {
    let plane = perpendicular_plane_through_point(Point4::finite(1, 0, 0), Line::z_axis());
    assert_eq!(plane, Some(Plane::forward()));
    let plane = perpendicular_plane_through_point(Point4::finite(1, 2, 3), Line::z_axis());
    assert_eq!(plane, Some(Plane::new(0, 0, 1, -3)));
}

#[test]
fn base_planes_meet_in_the_axes() {
    assert_eq!(Plane::left() & Plane::up(), -Line::z_axis());
    assert_eq!(Plane::up() & Plane::forward(), -Line::x_axis());
    assert_eq!(Plane::forward() & Plane::left(), -Line::y_axis());
    assert_eq!(Plane::up() & Plane::left(), Line::z_axis());
}

#[test]
fn bulk_and_weight() {
    let p = Point4::new(1, 2, 3, 4);
    assert_eq!(p.bulk(), Direction::new(1, 2, 3));
    assert_eq!(p.weight(), Origin::new(4));
    let line = Line::new(1, 2, 3, 4, 5, 6);
    assert_eq!(line.bulk(), LineMoment::new(4, 5, 6));
    assert_eq!(line.weight(), LineDirection::new(1, 2, 3));
    let plane = Plane::new(1, 2, 3, 4);
    assert_eq!(plane.bulk(), Horizon::new(4));
    assert_eq!(plane.weight(), PlaneDirection::new(1, 2, 3));
}

#[test]
fn meet_of_plane_and_line_lies_on_both() {
    let plane = Plane::new(1, 2, 3, 4);
    let line = Point3::new(1, 0, 0) ^ Point3::new(0, 1, 1);
    assert_eq!(line, Line::new(-1, 1, 1, 0, -1, 1));
    assert_eq!(line.vx * line.mx + line.vy * line.my + line.vz * line.mz, 0);
    let p = plane & line;
    assert_eq!(p, Point4::new(-9, 5, 5, -4));
    assert_eq!(incidence(plane, p), 0);
    assert!((line ^ p).is_zero());
}

#[test]
fn distinct_finite_points_join_in_a_proper_line() {
    let a = Point3::new(3, 1, 4);
    let b = Point3::new(1, 5, 9);
    let line = a ^ b;
    assert_eq!(line.weight(), LineDirection::new(-2, 4, 5));
    assert!(line.is_valid());
    assert!(!(a ^ a).is_valid());
}

#[test]
fn unitizing_twice_is_unitizing_once() {
    let plane = Plane::new(0, -3, 0, 6);
    let unit = plane.unitized().unwrap();
    assert_eq!(unit, Plane::new(0, -1, 0, 2));
    assert_eq!(unit.unitized(), Some(unit));
    assert_eq!(unit.weight().length_squared(), 1);

    let line = Line::new(0, 0, 4, 8, -12, 0);
    let unit = line.unitized().unwrap();
    assert_eq!(unit, Line::new(0, 0, 1, 2, -3, 0));
    assert_eq!(unit.unitized(), Some(unit));

    let direction = Direction::new(-7, 0, 0);
    let unit = direction.unitized().unwrap();
    assert_eq!(unit, Direction::new(-1, 0, 0));
    assert_eq!(unit.unitized(), Some(unit));

    let mut plane = Plane::new(5, 0, 0, -10);
    assert!(plane.unitize());
    assert_eq!(plane, Plane::new(1, 0, 0, -2));
    assert!(plane.unitize());
    assert_eq!(plane, Plane::new(1, 0, 0, -2));
}
