//! The meet: the largest entity that lies in both operands.
//!
//! Two planes meet in a line and a plane and a line in a point. The meet is
//! antisymmetric like the join, of which it is the dual. Where the operands
//! have no proper intersection the result has zero weight: two parallel planes
//! meet in a line at infinity, and a plane and a line parallel to it in a
//! direction.
use crate::arith::{narrow, narrow_difference, narrow_sum, product};
use crate::types::{Line, Plane, Point4};
use core::ops::BitAnd;
use vstd::prelude::*;
use vstd::std_specs::ops::BitAndSpecImpl;

verus! {

/// The line in which `a` and `b` intersect, or `None` where a coordinate of it
/// cannot be stored.
pub fn checked_antiwedge_planes(a: Plane, b: Plane) -> (r: Option<Line>)
    ensures
        r.is_some() <==> a@.meet(b@).representable(),
        r matches Some(line) ==> line@ == a@.meet(b@),
{
    let vx: Option<i64> = narrow(product(b.y, a.z) - product(b.z, a.y));
    let vy: Option<i64> = narrow(product(b.z, a.x) - product(b.x, a.z));
    let vz: Option<i64> = narrow(product(b.x, a.y) - product(b.y, a.x));
    let mx: Option<i64> = narrow(product(a.x, b.w) - product(b.x, a.w));
    let my: Option<i64> = narrow(product(a.y, b.w) - product(b.y, a.w));
    let mz: Option<i64> = narrow(product(a.z, b.w) - product(b.z, a.w));
    match (vx, vy, vz, mx, my, mz) {
        (Some(vx), Some(vy), Some(vz), Some(mx), Some(my), Some(mz)) => Some(
            Line { vx, vy, vz, mx, my, mz },
        ),
        _ => None,
    }
}

/// The point in which `line` crosses `plane`, or `None` where a coordinate of
/// it cannot be stored.
pub fn checked_antiwedge_plane_line(plane: Plane, line: Line) -> (r: Option<Point4>)
    ensures
        r.is_some() <==> plane@.meet_line(line@).representable(),
        r matches Some(p) ==> p@ == plane@.meet_line(line@),
{
    let x: Option<i64> = narrow_sum(
        product(line.my, plane.z) - product(line.mz, plane.y),
        product(line.vx, plane.w),
    );
    let y: Option<i64> = narrow_sum(
        product(line.mz, plane.x) - product(line.mx, plane.z),
        product(line.vy, plane.w),
    );
    let z: Option<i64> = narrow_sum(
        product(line.mx, plane.y) - product(line.my, plane.x),
        product(line.vz, plane.w),
    );
    let w: Option<i64> = narrow_difference(
        -product(line.vx, plane.x) - product(line.vy, plane.y),
        product(line.vz, plane.z),
    );
    match (x, y, z, w) {
        (Some(x), Some(y), Some(z), Some(w)) => Some(Point4 { x, y, z, w }),
        _ => None,
    }
}

/// The point in which `line` crosses `plane`, negated, or `None` where a
/// coordinate of it cannot be stored.
pub fn checked_antiwedge_line_plane(line: Line, plane: Plane) -> (r: Option<Point4>)
    ensures
        r.is_some() <==> line@.meet_plane(plane@).representable(),
        r matches Some(p) ==> p@ == line@.meet_plane(plane@),
{
    let x: Option<i64> = narrow_difference(
        product(line.mz, plane.y) - product(line.my, plane.z),
        product(line.vx, plane.w),
    );
    let y: Option<i64> = narrow_difference(
        product(line.mx, plane.z) - product(line.mz, plane.x),
        product(line.vy, plane.w),
    );
    let z: Option<i64> = narrow_difference(
        product(line.my, plane.x) - product(line.mx, plane.y),
        product(line.vz, plane.w),
    );
    let w: Option<i64> = narrow_difference(
        product(line.vx, plane.x),
        -product(line.vy, plane.y) - product(line.vz, plane.z),
    );
    match (x, y, z, w) {
        (Some(x), Some(y), Some(z), Some(w)) => Some(Point4 { x, y, z, w }),
        _ => None,
    }
}

/// The line in which two planes intersect.
impl BitAnd<Plane> for Plane {
    type Output = Line;

    fn bitand(self, rhs: Plane) -> (r: Line)
        ensures
            r@ == self@.meet(rhs@),
    {
        checked_antiwedge_planes(self, rhs).unwrap()
    }
}

impl BitAndSpecImpl<Plane> for Plane {
    open spec fn obeys_bitand_spec() -> bool {
        true
    }

    /// The operands must have a result that can be stored.
    open spec fn bitand_req(self, rhs: Plane) -> bool {
        self@.meet(rhs@).representable()
    }

    open spec fn bitand_spec(self, rhs: Plane) -> Line {
        Line::from_model(self@.meet(rhs@))
    }
}

/// The point in which a line crosses a plane.
impl BitAnd<Line> for Plane {
    type Output = Point4;

    fn bitand(self, rhs: Line) -> (r: Point4)
        ensures
            r@ == self@.meet_line(rhs@),
    {
        checked_antiwedge_plane_line(self, rhs).unwrap()
    }
}

impl BitAndSpecImpl<Line> for Plane {
    open spec fn obeys_bitand_spec() -> bool {
        true
    }

    /// The operands must have a result that can be stored.
    open spec fn bitand_req(self, rhs: Line) -> bool {
        self@.meet_line(rhs@).representable()
    }

    open spec fn bitand_spec(self, rhs: Line) -> Point4 {
        Point4::from_model(self@.meet_line(rhs@))
    }
}

/// The point in which a line crosses a plane, negated.
impl BitAnd<Plane> for Line {
    type Output = Point4;

    fn bitand(self, rhs: Plane) -> (r: Point4)
        ensures
            r@ == self@.meet_plane(rhs@),
    {
        checked_antiwedge_line_plane(self, rhs).unwrap()
    }
}

impl BitAndSpecImpl<Plane> for Line {
    open spec fn obeys_bitand_spec() -> bool {
        true
    }

    /// The operands must have a result that can be stored.
    open spec fn bitand_req(self, rhs: Plane) -> bool {
        self@.meet_plane(rhs@).representable()
    }

    open spec fn bitand_spec(self, rhs: Plane) -> Point4 {
        Point4::from_model(self@.meet_plane(rhs@))
    }
}

} // verus!
