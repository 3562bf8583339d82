//! Perpendiculars and projections, composed from join, meet and dual.
//!
//! Nothing here is normalized: a result is the raw homogeneous entity, whose
//! scale depends on the operands. Each function returns `None` where a step of
//! its composition, or the result, has a coordinate that cannot be stored.
use crate::antiwedge::{checked_antiwedge_plane_line, checked_antiwedge_planes};
use crate::dual::{BulkWeight, Dual};
use crate::model::{LineModel, PlaneModel, PointModel};
use crate::types::{Line, Plane, Point4};
use crate::wedge::{checked_wedge_line_point, checked_wedge_point_line, checked_wedge_points};
use vstd::prelude::*;

verus! {

/// Whether the line through `point` at right angles to `plane` can be
/// computed: the dual of the plane's direction and the line can be stored.
pub open spec fn perpendicular_line_defined(point: PointModel, plane: PlaneModel) -> bool {
    &&& plane.weight().dual().representable()
    &&& plane.perpendicular_line(point).representable()
}

/// Whether the plane through `line` at right angles to `plane` can be
/// computed.
pub open spec fn perpendicular_plane_defined(line: LineModel, plane: PlaneModel) -> bool {
    &&& plane.weight().dual().representable()
    &&& plane.perpendicular_plane(line).representable()
}

/// Whether the plane through `point` at right angles to `line` can be
/// computed.
pub open spec fn perpendicular_plane_through_point_defined(
    point: PointModel,
    line: LineModel,
) -> bool {
    &&& line.weight().dual().representable()
    &&& line.perpendicular_plane(point).representable()
}

/// Whether the projection of `point` onto `plane` can be computed.
pub open spec fn project_point_defined(point: PointModel, plane: PlaneModel) -> bool {
    &&& perpendicular_line_defined(point, plane)
    &&& plane.project_point(point).representable()
}

/// Whether the projection of `plane` onto `point` can be computed.
pub open spec fn project_plane_defined(plane: PlaneModel, point: PointModel) -> bool {
    &&& perpendicular_line_defined(point, plane)
    &&& perpendicular_plane_through_point_defined(point, plane.perpendicular_line(point))
}

/// Whether the projection of `line` onto `plane` can be computed.
pub open spec fn project_line_defined(line: LineModel, plane: PlaneModel) -> bool {
    &&& perpendicular_plane_defined(line, plane)
    &&& plane.project_line(line).representable()
}

/// The line through `point` at right angles to `plane`: the point joined with
/// the dual of the plane's direction.
pub fn perpendicular_line(point: Point4, plane: Plane) -> (r: Option<Line>)
    ensures
        r.is_some() <==> perpendicular_line_defined(point@, plane@),
        r matches Some(line) ==> line@ == plane@.perpendicular_line(point@),
{
    match plane.weight().checked_dual() {
        Some(across) => checked_wedge_points(point, Point4::from(across)),
        None => None,
    }
}

/// The plane through `line` at right angles to `plane`: the line joined with
/// the dual of the plane's direction.
pub fn perpendicular_plane(line: Line, plane: Plane) -> (r: Option<Plane>)
    ensures
        r.is_some() <==> perpendicular_plane_defined(line@, plane@),
        r matches Some(p) ==> p@ == plane@.perpendicular_plane(line@),
{
    match plane.weight().checked_dual() {
        Some(across) => checked_wedge_line_point(line, Point4::from(across)),
        None => None,
    }
}

/// The plane through `point` at right angles to `line`: the point joined with
/// the dual of the line's direction.
pub fn perpendicular_plane_through_point(point: Point4, line: Line) -> (r: Option<Plane>)
    ensures
        r.is_some() <==> perpendicular_plane_through_point_defined(point@, line@),
        r matches Some(p) ==> p@ == line@.perpendicular_plane(point@),
{
    match line.weight().checked_dual() {
        Some(around) => checked_wedge_point_line(point, Line::from(around)),
        None => None,
    }
}

/// The projection of `point` onto `plane`: the plane met with the
/// perpendicular through the point.
pub fn project_point_onto_plane(point: Point4, plane: Plane) -> (r: Option<Point4>)
    ensures
        r.is_some() <==> project_point_defined(point@, plane@),
        r matches Some(p) ==> p@ == plane@.project_point(point@),
{
    match perpendicular_line(point, plane) {
        Some(line) => checked_antiwedge_plane_line(plane, line),
        None => None,
    }
}

/// The projection of `plane` onto `point`: the plane through the point at
/// right angles to the perpendicular from the point to `plane`. It is
/// parallel to `plane`, with the opposite orientation.
pub fn project_plane_onto_point(plane: Plane, point: Point4) -> (r: Option<Plane>)
    ensures
        r.is_some() <==> project_plane_defined(plane@, point@),
        r matches Some(p) ==> p@ == plane@.project_onto_point(point@),
{
    match perpendicular_line(point, plane) {
        Some(line) => perpendicular_plane_through_point(point, line),
        None => None,
    }
}

/// The projection of `line` onto `plane`: the plane met with the plane
/// through the line at right angles to it.
pub fn project_line_onto_plane(line: Line, plane: Plane) -> (r: Option<Line>)
    ensures
        r.is_some() <==> project_line_defined(line@, plane@),
        r matches Some(l) ==> l@ == plane@.project_line(line@),
{
    match perpendicular_plane(line, plane) {
        Some(across) => checked_antiwedge_planes(plane, across),
        None => None,
    }
}

} // verus!
