use pga::{
    checked_antiwedge_line_plane, checked_antiwedge_plane_line, checked_antiwedge_planes,
    checked_wedge_line_point, checked_wedge_point_line, checked_wedge_points, neg,
    perpendicular_line, project_point_onto_plane, ApproxEq, BulkWeight, CartesianError,
    Direction, Dual, GeometricEntity, Horizon, Line, LineDirection, LineMoment, Magnitude,
    Origin, Plane, PlaneDirection, Point3, Point4, PointOrDirection,
};

#[test]
fn constructors_store_their_arguments() {
    assert_eq!(Point4::new(1, 2, 3, 4), Point4 { x: 1, y: 2, z: 3, w: 4 });
    assert_eq!(Point4::finite(1, 2, 3), Point4 { x: 1, y: 2, z: 3, w: 1 });
    assert_eq!(Point4::infinite(1, 2, 3), Point4 { x: 1, y: 2, z: 3, w: 0 });
    assert_eq!(Point3::new(1, 2, 3), Point3 { x: 1, y: 2, z: 3 });
    assert_eq!(Direction::new(1, 2, 3), Direction { x: 1, y: 2, z: 3 });
    assert_eq!(Line::new(1, 2, 3, 4, 5, 6), Line { vx: 1, vy: 2, vz: 3, mx: 4, my: 5, mz: 6 });
    assert_eq!(Line::through_origin(1, 2, 3), Line::new(1, 2, 3, 0, 0, 0));
    assert_eq!(Plane::new(1, 2, 3, 4), Plane { x: 1, y: 2, z: 3, w: 4 });
    assert_eq!(Plane::from_normal_distance([1, 2, 3], 4), Plane::new(1, 2, 3, 4));
    assert_eq!(Origin::new(7), Origin { w: 7 });
    assert_eq!(Horizon::new(7), Horizon { w: 7 });
    assert_eq!(Point4::default(), Point4::new(0, 0, 0, 0));
    assert_eq!(Line::default(), Line::zero());
}

#[test]
fn plane_from_normal_and_point() {
    // The normal is divided by its length before the horizon is computed.
    let plane = Plane::from_normal_point([2, 0, 0], [3, 5, 7]).unwrap();
    assert_eq!(plane, Plane::new(1, 0, 0, -3));
    assert_eq!(plane.x * 3 + plane.y * 5 + plane.z * 7 + plane.w, 0);
    assert_eq!(plane.weight().length_squared(), 1);
    assert_eq!(Plane::from_normal_point([1, 0, 0], [3, 5, 7]), Some(Plane::new(1, 0, 0, -3)));
    assert_eq!(Plane::from_normal_point([0, -4, 0], [3, 5, 7]), Some(Plane::new(0, -1, 0, 5)));
    assert_eq!(Plane::from_normal_point([0, 0, 9], [3, 5, -7]), Some(Plane::new(0, 0, 1, 7)));
    assert_eq!(
        Plane::from_normal_point([i64::MIN, 0, 0], [3, 5, 7]),
        Some(Plane::new(-1, 0, 0, 3))
    );
}

#[test]
fn plane_from_normal_and_point_without_whole_unit_normal() {
    // No direction.
    assert_eq!(Plane::from_normal_point([0, 0, 0], [3, 5, 7]), None);
    // Length 5, which does not divide 3 and 4.
    assert_eq!(Plane::from_normal_point([3, 4, 0], [3, 5, 7]), None);
    // Length that is not whole.
    assert_eq!(Plane::from_normal_point([1, 1, 0], [3, 5, 7]), None);
    assert_eq!(Plane::from_normal_point([1, 2, 3], [4, 5, 6]), None);
    assert_eq!(Plane::from_normal_point([i64::MAX, i64::MAX, i64::MAX], [1, 1, 1]), None);
    // A horizon coordinate that cannot be stored.
    assert_eq!(Plane::from_normal_point([1, 0, 0], [i64::MIN, 0, 0]), None);
    assert_eq!(
        Plane::from_normal_point([-1, 0, 0], [i64::MIN, 0, 0]),
        Some(Plane::new(-1, 0, 0, i64::MIN))
    );
}

#[test]
fn conversions_between_entities_and_arrays() {
    assert_eq!(Direction::from([1, 2, 3]), Direction::new(1, 2, 3));
    assert_eq!(LineDirection::from([1, 2, 3]), LineDirection::new(1, 2, 3));
    assert_eq!(LineMoment::from([1, 2, 3]), LineMoment::new(1, 2, 3));
    assert_eq!(<[i64; 3]>::from(Direction::new(1, 2, 3)), [1, 2, 3]);
    assert_eq!(<[i64; 3]>::from(PlaneDirection::new(1, 2, 3)), [1, 2, 3]);
    assert_eq!(<[i64; 3]>::from(LineDirection::new(1, 2, 3)), [1, 2, 3]);
    assert_eq!(<[i64; 3]>::from(LineMoment::new(1, 2, 3)), [1, 2, 3]);
    assert_eq!(<[i64; 3]>::from(Point3::new(1, 2, 3)), [1, 2, 3]);
    assert_eq!(<[i64; 4]>::from(Plane::new(1, 2, 3, 4)), [1, 2, 3, 4]);
    assert_eq!(Line::from(LineDirection::new(1, 2, 3)), Line::new(1, 2, 3, 0, 0, 0));
    assert_eq!(Line::from(LineMoment::new(1, 2, 3)), Line::new(0, 0, 0, 1, 2, 3));
    assert_eq!(Point4::from(Point3::new(1, 2, 3)), Point4::new(1, 2, 3, 1));
    assert_eq!(Point4::from(Direction::new(1, 2, 3)), Point4::new(1, 2, 3, 0));
    assert_eq!(Point4::from(Origin::new(5)), Point4::new(0, 0, 0, 5));
    assert_eq!(Plane::from(PlaneDirection::new(1, 2, 3)), Plane::new(1, 2, 3, 0));
    assert_eq!(Plane::from(Horizon::new(5)), Plane::new(0, 0, 0, 5));
}

#[test]
fn cartesian_coordinates_of_a_point() {
    assert_eq!(Point3::try_from(Point4::new(6, -9, 12, 3)), Ok(Point3::new(2, -3, 4)));
    assert_eq!(Point3::try_from(Point4::new(6, -9, 12, -3)), Ok(Point3::new(-2, 3, -4)));
    assert_eq!(Point3::try_from(Point4::new(0, 0, 0, -1)), Ok(Point3::new(0, 0, 0)));
    assert_eq!(Point3::try_from(Point4::new(1, 2, 3, 0)), Err(CartesianError::AtInfinity));
    assert_eq!(Point3::try_from(Point4::new(0, 0, 0, 0)), Err(CartesianError::AtInfinity));
    assert_eq!(Point3::try_from(Point4::new(1, 0, 0, 2)), Err(CartesianError::NotIntegral));
    assert_eq!(Point3::try_from(Point4::new(4, 4, 5, -2)), Err(CartesianError::NotIntegral));
    assert_eq!(
        Point3::try_from(Point4::new(i64::MIN, 0, 0, -1)),
        Err(CartesianError::OutOfRange)
    );
    assert_eq!(
        Point3::try_from(Point4::new(i64::MIN, 0, 0, 1)),
        Ok(Point3::new(i64::MIN, 0, 0))
    );
    assert_eq!(
        Point3::try_from(Point4::new(i64::MIN, i64::MIN, 0, i64::MIN)),
        Ok(Point3::new(1, 1, 0))
    );
}

#[test]
fn point_or_direction() {
    assert_eq!(
        PointOrDirection::try_from(Point4::new(1, 2, 3, 0)),
        Ok(PointOrDirection::Direction(Direction::new(1, 2, 3)))
    );
    assert_eq!(
        PointOrDirection::try_from(Point4::new(2, 4, 6, 2)),
        Ok(PointOrDirection::Point(Point3::new(1, 2, 3)))
    );
    assert_eq!(
        PointOrDirection::try_from(Point4::new(1, 4, 6, 2)),
        Err(CartesianError::NotIntegral)
    );
    assert_eq!(
        PointOrDirection::try_from(Point4::new(0, i64::MIN, 0, -1)),
        Err(CartesianError::OutOfRange)
    );
}

#[test]
fn coordinates_by_position() {
    let mut line = Line::new(1, 2, 3, 4, 5, 6);
    assert_eq!(Line::blade_count(), 6);
    assert_eq!(line.coordinate(0), 1);
    assert_eq!(line.coordinate(5), 6);
    line.set_coordinate(3, -4);
    assert_eq!(line, Line::new(1, 2, 3, -4, 5, 6));
    let mut p = Point4::new(1, 2, 3, 4);
    assert_eq!(Point4::blade_count(), 4);
    p.set_coordinate(3, 9);
    assert_eq!(p, Point4::new(1, 2, 3, 9));
    assert_eq!(p.coordinate(3), 9);
    assert_eq!(Origin::blade_count(), 1);
    assert_eq!(Origin::new(8).coordinate(0), 8);
    assert_eq!(Plane::zero(), Plane::new(0, 0, 0, 0));
}

#[test]
fn weight_of_a_point3_is_fixed() {
    let mut p = Point3::new(5, 6, 7);
    assert_eq!(Point3::blade_count(), 4);
    assert_eq!(p.coordinate(0), 1);
    assert_eq!(p.coordinate(1), 5);
    assert_eq!(p.coordinate(3), 7);
    p.set_coordinate(0, 9);
    assert_eq!(p, Point3::new(5, 6, 7));
    assert_eq!(p.coordinate(0), 1);
    p.set_coordinate(2, -6);
    assert_eq!(p, Point3::new(5, -6, 7));
    assert_eq!(neg(p), Point3::new(-5, 6, -7));
    assert_eq!(neg(neg(p)), p);
    assert_eq!(-p, Point3::new(-5, 6, -7));
    assert_eq!(Point3::zero(), Point3::new(0, 0, 0));
    assert!(!Point3::zero().is_zero());
    assert_eq!(Point3::zero().length_squared(), 1);
}

#[test]
fn negation_changes_every_sign() {
    assert_eq!(neg(Line::new(1, -2, 3, -4, 5, 0)), Line::new(-1, 2, -3, 4, -5, 0));
    assert_eq!(neg(neg(Line::new(1, -2, 3, -4, 5, 0))), Line::new(1, -2, 3, -4, 5, 0));
    assert_eq!(-Point4::new(1, 2, 3, 4), Point4::new(-1, -2, -3, -4));
    assert_eq!(-Plane::new(1, 2, 3, 4), Plane::new(-1, -2, -3, -4));
    assert_eq!(-Direction::new(1, 2, 3), Direction::new(-1, -2, -3));
    assert_eq!(-Horizon::new(i64::MAX), Horizon::new(-i64::MAX));
    assert_eq!(-(-LineMoment::new(1, 2, 3)), LineMoment::new(1, 2, 3));
}

#[test]
fn length_squared_is_the_sum_of_squares() {
    assert_eq!(Line::new(1, 2, 3, 4, 5, 6).length_squared(), 91);
    assert_eq!(Point4::new(1, -2, 3, -4).length_squared(), 30);
    assert_eq!(Point3::new(1, 2, 3).length_squared(), 15);
    assert_eq!(Direction::new(3, 4, 12).length_squared(), 169);
    assert_eq!(Horizon::new(-9).length_squared(), 81);
    assert_eq!(Plane::new(0, 0, 0, 0).length_squared(), 0);
    assert_eq!(
        Direction::new(i64::MIN, i64::MIN, i64::MIN).length_squared(),
        3 * (1u128 << 126)
    );
}

#[test]
fn zero_and_valid() {
    assert!(Line::new(0, 0, 0, 0, 0, 0).is_zero());
    assert!(!Line::new(0, 0, 0, 0, 0, 1).is_zero());
    assert!(!Line::new(0, 0, 0, 0, 0, 1).is_valid());
    assert!(Line::new(0, 1, 0, 0, 0, 0).is_valid());
    assert!(Point4::new(0, 0, 0, 1).is_valid());
    assert!(!Point4::new(1, 2, 3, 0).is_valid());
    assert!(!Point4::new(1, 2, 3, 0).is_zero());
    assert!(Plane::new(0, 0, 1, 0).is_valid());
    assert!(!Plane::new(0, 0, 0, 1).is_valid());
    assert!(Direction::new(0, 0, 1).is_valid());
    assert!(!Direction::new(0, 0, 0).is_valid());
    assert!(LineDirection::new(1, 0, 0).is_valid());
    assert!(!LineDirection::new(0, 0, 0).is_valid());
    assert!(LineMoment::new(0, 1, 0).is_valid());
    assert!(!LineMoment::new(0, 0, 0).is_valid());
    assert!(PlaneDirection::new(0, -1, 0).is_valid());
    assert!(!PlaneDirection::new(0, 0, 0).is_valid());
    assert!(Origin::new(-1).is_valid());
    assert!(!Origin::new(0).is_valid());
    assert!(Horizon::new(2).is_valid());
    assert!(!Horizon::new(0).is_valid());
}

#[test]
fn equality_within_a_tolerance() {
    let a = Line::new(1, 2, 3, 4, 5, 6);
    let b = Line::new(1, 2, 5, 4, 3, 6);
    assert!(a.approx_eq(&a));
    assert!(!a.approx_eq(&b));
    assert!(!a.approx_eq_eps(&b, 1));
    assert!(a.approx_eq_eps(&b, 2));
    assert!(b.approx_eq_eps(&a, 2));
    assert!(5i64.approx_eq(&5));
    assert!(!5i64.approx_eq(&6));
    assert!(5i64.approx_eq_eps(&7, 2));
    assert!(!5i64.approx_eq_eps(&8, 2));
    assert!(!i64::MIN.approx_eq_eps(&i64::MAX, u64::MAX - 1));
    assert!(i64::MIN.approx_eq_eps(&i64::MAX, u64::MAX));
    assert!(Point3::new(1, 2, 3).approx_eq_eps(&Point3::new(2, 1, 4), 1));
}

#[test]
fn checked_join_reports_what_cannot_be_stored() {
    let far = Point4::new(i64::MAX, 0, 0, 1);
    let scaled = Point4::new(0, 0, 0, 2);
    assert_eq!(checked_wedge_points(scaled, far), None);
    assert_eq!(
        checked_wedge_points(far, Point4::new(0, 0, 0, 1)),
        Some(Line::new(-i64::MAX, 0, 0, 0, 0, 0))
    );
    assert_eq!(
        checked_wedge_points(Point4::new(i64::MIN, 0, 0, 1), Point4::new(0, 0, 0, -1)),
        Some(Line::new(i64::MIN, 0, 0, 0, 0, 0))
    );
    assert_eq!(
        checked_wedge_points(Point4::new(i64::MIN, 0, 0, 1), Point4::new(0, 0, 0, 1)),
        None
    );
    let corner = Point4::new(i64::MIN, i64::MIN, i64::MIN, i64::MIN);
    assert_eq!(checked_wedge_points(corner, corner), Some(Line::zero()));
    let line = Line::new(0, 0, 0, i64::MIN, 0, 0);
    assert_eq!(checked_wedge_line_point(line, Point4::new(1, 0, 0, 0)), None);
    assert_eq!(
        checked_wedge_point_line(Point4::new(1, 0, 0, 0), line),
        Some(Plane::new(0, 0, 0, i64::MIN))
    );
    assert_eq!(
        checked_wedge_line_point(line, Point4::new(-1, 0, 0, 0)),
        Some(Plane::new(0, 0, 0, i64::MIN))
    );
    assert_eq!(checked_wedge_point_line(Point4::new(-1, 0, 0, 0), line), None);
    let wide = Line::new(i64::MIN, i64::MIN, i64::MIN, i64::MIN, i64::MIN, i64::MIN);
    assert_eq!(checked_wedge_line_point(wide, corner), None);
    assert_eq!(checked_wedge_point_line(corner, wide), None);
}

#[test]
fn checked_meet_reports_what_cannot_be_stored() {
    let a = Plane::new(i64::MAX, 0, 0, 0);
    let b = Plane::new(0, 2, 0, 0);
    assert_eq!(checked_antiwedge_planes(a, b), None);
    assert_eq!(
        checked_antiwedge_planes(a, Plane::new(0, 1, 0, 0)),
        Some(Line::new(0, 0, -i64::MAX, 0, 0, 0))
    );
    let all = Plane::new(i64::MIN, i64::MIN, i64::MIN, i64::MIN);
    assert_eq!(checked_antiwedge_planes(all, all), Some(Line::zero()));
    let line = Line::new(i64::MIN, 0, 0, 0, 0, 0);
    assert_eq!(checked_antiwedge_plane_line(Plane::new(1, 0, 0, 0), line), None);
    assert_eq!(
        checked_antiwedge_line_plane(line, Plane::new(1, 0, 0, 0)),
        Some(Point4::new(0, 0, 0, i64::MIN))
    );
    assert_eq!(
        checked_antiwedge_plane_line(Plane::new(-1, 0, 0, 0), line),
        Some(Point4::new(0, 0, 0, i64::MIN))
    );
    let wide = Line::new(i64::MIN, i64::MIN, i64::MIN, i64::MIN, i64::MIN, i64::MIN);
    assert_eq!(checked_antiwedge_plane_line(all, wide), None);
    assert_eq!(checked_antiwedge_line_plane(wide, all), None);
}

#[test]
fn checked_dual_reports_what_cannot_be_stored() {
    assert_eq!(PlaneDirection::new(i64::MIN, 0, 0).checked_dual(), None);
    assert_eq!(
        PlaneDirection::new(i64::MAX, 0, 1).checked_dual(),
        Some(Direction::new(-i64::MAX, 0, -1))
    );
    assert_eq!(
        Direction::new(i64::MIN, 0, 0).checked_dual(),
        Some(PlaneDirection::new(i64::MIN, 0, 0))
    );
    assert_eq!(Horizon::new(i64::MIN).checked_dual(), None);
    assert_eq!(Origin::new(i64::MIN).checked_dual(), Some(Horizon::new(i64::MIN)));
    assert_eq!(Line::new(0, 0, 0, 0, i64::MIN, 0).checked_dual(), None);
    assert_eq!(Plane::new(0, 0, 0, i64::MIN).checked_dual(), None);
    assert_eq!(Point4::new(0, 0, 0, i64::MIN).checked_dual(), Some(Plane::new(0, 0, 0, i64::MIN)));
}

#[test]
fn projections_report_what_cannot_be_stored() {
    let steep = Plane::new(i64::MIN, 0, 0, 0);
    assert_eq!(perpendicular_line(Point4::finite(0, 0, 0), steep), None);
    let far = Plane::new(i64::MAX, 0, 0, 0);
    assert_eq!(
        perpendicular_line(Point4::finite(0, 0, 0), far),
        Some(Line::new(-i64::MAX, 0, 0, 0, 0, 0))
    );
    assert_eq!(project_point_onto_plane(Point4::finite(0, 0, 0), far), None);
}

#[test]
fn entities_without_a_whole_unit_representative() {
    // No weight.
    assert_eq!(Plane::new(0, 0, 0, 5).unitized(), None);
    assert_eq!(Line::new(0, 0, 0, 1, 2, 3).unitized(), None);
    assert_eq!(Direction::new(0, 0, 0).unitized(), None);
    // A weight whose length is not whole, or does not divide it.
    assert_eq!(Plane::new(1, 1, 0, 0).unitized(), None);
    assert_eq!(Plane::new(3, 4, 0, 5).unitized(), None);
    assert_eq!(Direction::new(2, 3, 6).unitized(), None);
    // A length that does not divide the bulk.
    assert_eq!(Plane::new(2, 0, 0, 3).unitized(), None);
    assert_eq!(Line::new(0, 2, 0, 4, 6, 7).unitized(), None);
    // In place, such an entity is left as it is.
    let mut plane = Plane::new(2, 0, 0, 3);
    assert!(!plane.unitize());
    assert_eq!(plane, Plane::new(2, 0, 0, 3));
    let mut line = Line::new(1, 1, 0, 0, 0, 0);
    assert!(!line.unitize());
    assert_eq!(line, Line::new(1, 1, 0, 0, 0, 0));
    let mut direction = Direction::new(0, 0, 0);
    assert!(!direction.unitize());
    assert_eq!(direction, Direction::new(0, 0, 0));
}

#[test]
fn unit_representatives_at_the_ends_of_the_range() {
    assert_eq!(
        Plane::new(i64::MIN, 0, 0, i64::MIN).unitized(),
        Some(Plane::new(-1, 0, 0, -1))
    );
    assert_eq!(Plane::new(0, 0, -1, i64::MIN).unitized(), Some(Plane::new(0, 0, -1, i64::MIN)));
    assert_eq!(Plane::new(0, 0, 1, i64::MIN).unitized(), Some(Plane::new(0, 0, 1, i64::MIN)));
    assert_eq!(Plane::new(i64::MAX, 0, 0, 0).unitized(), Some(Plane::new(1, 0, 0, 0)));
    assert_eq!(Plane::new(i64::MIN, 0, 0, i64::MAX).unitized(), None);
    assert_eq!(
        Line::new(0, i64::MIN, 0, i64::MIN, 0, 0).unitized(),
        Some(Line::new(0, -1, 0, -1, 0, 0))
    );
    assert_eq!(Direction::new(0, 0, i64::MIN).unitized(), Some(Direction::new(0, 0, -1)));
}
