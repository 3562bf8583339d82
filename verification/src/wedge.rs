//! The join: the smallest entity through both operands.
//!
//! Two points join in a line and a line and a point in a plane. The join is
//! antisymmetric, and it is zero where the operands already touch: a point
//! joined with itself, a line with a point on it.
use crate::arith::{narrow, narrow_difference, narrow_sum, product};
use crate::types::{Direction, Line, LineMoment, Plane, Point3, Point4};
use core::ops::BitXor;
use vstd::prelude::*;
use vstd::std_specs::ops::BitXorSpecImpl;

verus! {

/// The line from `a` to `b`, or `None` where a coordinate of it cannot be stored.
pub fn checked_wedge_points(a: Point4, b: Point4) -> (r: Option<Line>)
    ensures
        r.is_some() <==> a@.join(b@).representable(),
        r matches Some(line) ==> line@ == a@.join(b@),
{
    let vx: Option<i64> = narrow(product(b.x, a.w) - product(a.x, b.w));
    let vy: Option<i64> = narrow(product(b.y, a.w) - product(a.y, b.w));
    let vz: Option<i64> = narrow(product(b.z, a.w) - product(a.z, b.w));
    let mx: Option<i64> = narrow(product(a.y, b.z) - product(a.z, b.y));
    let my: Option<i64> = narrow(product(a.z, b.x) - product(a.x, b.z));
    let mz: Option<i64> = narrow(product(a.x, b.y) - product(a.y, b.x));
    match (vx, vy, vz, mx, my, mz) {
        (Some(vx), Some(vy), Some(vz), Some(mx), Some(my), Some(mz)) => Some(
            Line { vx, vy, vz, mx, my, mz },
        ),
        _ => None,
    }
}

/// The plane through `line` and `p`, or `None` where a coordinate of it cannot
/// be stored.
pub fn checked_wedge_line_point(line: Line, p: Point4) -> (r: Option<Plane>)
    ensures
        r.is_some() <==> line@.join_point(p@).representable(),
        r matches Some(plane) ==> plane@ == line@.join_point(p@),
{
    let x: Option<i64> = narrow_sum(
        product(line.vy, p.z) - product(line.vz, p.y),
        product(line.mx, p.w),
    );
    let y: Option<i64> = narrow_sum(
        product(line.vz, p.x) - product(line.vx, p.z),
        product(line.my, p.w),
    );
    let z: Option<i64> = narrow_sum(
        product(line.vx, p.y) - product(line.vy, p.x),
        product(line.mz, p.w),
    );
    let w: Option<i64> = narrow_difference(
        -product(line.mx, p.x) - product(line.my, p.y),
        product(line.mz, p.z),
    );
    match (x, y, z, w) {
        (Some(x), Some(y), Some(z), Some(w)) => Some(Plane { x, y, z, w }),
        _ => None,
    }
}

/// The plane through `p` and `line`, or `None` where a coordinate of it cannot
/// be stored. It is the negative of the plane through `line` and `p`.
pub fn checked_wedge_point_line(p: Point4, line: Line) -> (r: Option<Plane>)
    ensures
        r.is_some() <==> p@.join_line(line@).representable(),
        r matches Some(plane) ==> plane@ == p@.join_line(line@),
{
    let x: Option<i64> = narrow_difference(
        product(line.vz, p.y) - product(line.vy, p.z),
        product(line.mx, p.w),
    );
    let y: Option<i64> = narrow_difference(
        product(line.vx, p.z) - product(line.vz, p.x),
        product(line.my, p.w),
    );
    let z: Option<i64> = narrow_difference(
        product(line.vy, p.x) - product(line.vx, p.y),
        product(line.mz, p.w),
    );
    let w: Option<i64> = narrow_difference(
        product(line.mx, p.x),
        -product(line.my, p.y) - product(line.mz, p.z),
    );
    match (x, y, z, w) {
        (Some(x), Some(y), Some(z), Some(w)) => Some(Plane { x, y, z, w }),
        _ => None,
    }
}

/// The line from one point to another.
impl BitXor<Point4> for Point4 {
    type Output = Line;

    fn bitxor(self, rhs: Point4) -> (r: Line)
        ensures
            r@ == self@.join(rhs@),
    {
        checked_wedge_points(self, rhs).unwrap()
    }
}

impl BitXorSpecImpl<Point4> for Point4 {
    open spec fn obeys_bitxor_spec() -> bool {
        true
    }

    /// The operands must have a result that can be stored.
    open spec fn bitxor_req(self, rhs: Point4) -> bool {
        self@.join(rhs@).representable()
    }

    open spec fn bitxor_spec(self, rhs: Point4) -> Line {
        Line::from_model(self@.join(rhs@))
    }
}

/// The line from one finite point to another.
impl BitXor<Point3> for Point3 {
    type Output = Line;

    fn bitxor(self, rhs: Point3) -> (r: Line)
        ensures
            r@ == self@.join(rhs@),
    {
        checked_wedge_points(Point4::from(self), Point4::from(rhs)).unwrap()
    }
}

impl BitXorSpecImpl<Point3> for Point3 {
    open spec fn obeys_bitxor_spec() -> bool {
        true
    }

    /// The operands must have a result that can be stored.
    open spec fn bitxor_req(self, rhs: Point3) -> bool {
        self@.join(rhs@).representable()
    }

    open spec fn bitxor_spec(self, rhs: Point3) -> Line {
        Line::from_model(self@.join(rhs@))
    }
}

/// The line through a point in a direction.
impl BitXor<Direction> for Point4 {
    type Output = Line;

    fn bitxor(self, rhs: Direction) -> (r: Line)
        ensures
            r@ == self@.join(rhs@),
    {
        checked_wedge_points(self, Point4::from(rhs)).unwrap()
    }
}

impl BitXorSpecImpl<Direction> for Point4 {
    open spec fn obeys_bitxor_spec() -> bool {
        true
    }

    /// The operands must have a result that can be stored.
    open spec fn bitxor_req(self, rhs: Direction) -> bool {
        self@.join(rhs@).representable()
    }

    open spec fn bitxor_spec(self, rhs: Direction) -> Line {
        Line::from_model(self@.join(rhs@))
    }
}

/// The line through a finite point in a direction.
impl BitXor<Direction> for Point3 {
    type Output = Line;

    fn bitxor(self, rhs: Direction) -> (r: Line)
        ensures
            r@ == self@.join(rhs@),
    {
        checked_wedge_points(Point4::from(self), Point4::from(rhs)).unwrap()
    }
}

impl BitXorSpecImpl<Direction> for Point3 {
    open spec fn obeys_bitxor_spec() -> bool {
        true
    }

    /// The operands must have a result that can be stored.
    open spec fn bitxor_req(self, rhs: Direction) -> bool {
        self@.join(rhs@).representable()
    }

    open spec fn bitxor_spec(self, rhs: Direction) -> Line {
        Line::from_model(self@.join(rhs@))
    }
}

/// The line through a finite point against a direction.
impl BitXor<Point3> for Direction {
    type Output = Line;

    fn bitxor(self, rhs: Point3) -> (r: Line)
        ensures
            r@ == self@.join(rhs@),
    {
        checked_wedge_points(Point4::from(self), Point4::from(rhs)).unwrap()
    }
}

impl BitXorSpecImpl<Point3> for Direction {
    open spec fn obeys_bitxor_spec() -> bool {
        true
    }

    /// The operands must have a result that can be stored.
    open spec fn bitxor_req(self, rhs: Point3) -> bool {
        self@.join(rhs@).representable()
    }

    open spec fn bitxor_spec(self, rhs: Point3) -> Line {
        Line::from_model(self@.join(rhs@))
    }
}

/// The plane through a line and a point.
impl BitXor<Point4> for Line {
    type Output = Plane;

    fn bitxor(self, rhs: Point4) -> (r: Plane)
        ensures
            r@ == self@.join_point(rhs@),
    {
        checked_wedge_line_point(self, rhs).unwrap()
    }
}

impl BitXorSpecImpl<Point4> for Line {
    open spec fn obeys_bitxor_spec() -> bool {
        true
    }

    /// The operands must have a result that can be stored.
    open spec fn bitxor_req(self, rhs: Point4) -> bool {
        self@.join_point(rhs@).representable()
    }

    open spec fn bitxor_spec(self, rhs: Point4) -> Plane {
        Plane::from_model(self@.join_point(rhs@))
    }
}

/// The plane through a line and a finite point.
impl BitXor<Point3> for Line {
    type Output = Plane;

    fn bitxor(self, rhs: Point3) -> (r: Plane)
        ensures
            r@ == self@.join_point(rhs@),
    {
        checked_wedge_line_point(self, Point4::from(rhs)).unwrap()
    }
}

impl BitXorSpecImpl<Point3> for Line {
    open spec fn obeys_bitxor_spec() -> bool {
        true
    }

    /// The operands must have a result that can be stored.
    open spec fn bitxor_req(self, rhs: Point3) -> bool {
        self@.join_point(rhs@).representable()
    }

    open spec fn bitxor_spec(self, rhs: Point3) -> Plane {
        Plane::from_model(self@.join_point(rhs@))
    }
}

/// The plane through a line that holds a direction.
impl BitXor<Direction> for Line {
    type Output = Plane;

    fn bitxor(self, rhs: Direction) -> (r: Plane)
        ensures
            r@ == self@.join_point(rhs@),
    {
        checked_wedge_line_point(self, Point4::from(rhs)).unwrap()
    }
}

impl BitXorSpecImpl<Direction> for Line {
    open spec fn obeys_bitxor_spec() -> bool {
        true
    }

    /// The operands must have a result that can be stored.
    open spec fn bitxor_req(self, rhs: Direction) -> bool {
        self@.join_point(rhs@).representable()
    }

    open spec fn bitxor_spec(self, rhs: Direction) -> Plane {
        Plane::from_model(self@.join_point(rhs@))
    }
}

/// The plane through a point and a line at infinity.
impl BitXor<LineMoment> for Point4 {
    type Output = Plane;

    fn bitxor(self, rhs: LineMoment) -> (r: Plane)
        ensures
            r@ == self@.join_line(rhs@),
    {
        checked_wedge_point_line(self, Line::from(rhs)).unwrap()
    }
}

impl BitXorSpecImpl<LineMoment> for Point4 {
    open spec fn obeys_bitxor_spec() -> bool {
        true
    }

    /// The operands must have a result that can be stored.
    open spec fn bitxor_req(self, rhs: LineMoment) -> bool {
        self@.join_line(rhs@).representable()
    }

    open spec fn bitxor_spec(self, rhs: LineMoment) -> Plane {
        Plane::from_model(self@.join_line(rhs@))
    }
}

/// The plane through a finite point and a line at infinity.
impl BitXor<LineMoment> for Point3 {
    type Output = Plane;

    fn bitxor(self, rhs: LineMoment) -> (r: Plane)
        ensures
            r@ == self@.join_line(rhs@),
    {
        checked_wedge_point_line(Point4::from(self), Line::from(rhs)).unwrap()
    }
}

impl BitXorSpecImpl<LineMoment> for Point3 {
    open spec fn obeys_bitxor_spec() -> bool {
        true
    }

    /// The operands must have a result that can be stored.
    open spec fn bitxor_req(self, rhs: LineMoment) -> bool {
        self@.join_line(rhs@).representable()
    }

    open spec fn bitxor_spec(self, rhs: LineMoment) -> Plane {
        Plane::from_model(self@.join_line(rhs@))
    }
}

} // verus!
