//! Bulk, weight and duality.
//!
//! Every entity is the sum of its weight, which vanishes for an entity at
//! infinity, and its bulk, which vanishes for an entity through the origin.
//! The dual exchanges the two: it sends a direction to the plane direction
//! with the same coordinates and back with the opposite sign, the origin to
//! the horizon likewise, and the direction and the moment of a line to each
//! other, both with the opposite sign.
use crate::arith::negate;
use crate::types::{
    Direction, Horizon, Line, LineDirection, LineMoment, Origin, Plane, PlaneDirection, Point4,
};
use core::ops::Not;
use vstd::prelude::*;
use vstd::std_specs::ops::NotSpecImpl;

verus! {

/// An entity that splits into a bulk and a weight.
pub trait BulkWeight: Sized {
    type Bulk;

    type Weight;

    /// The part that vanishes for an entity through the origin.
    spec fn bulk_part(&self) -> Self::Bulk;

    /// The part that vanishes for an entity at infinity.
    spec fn weight_part(&self) -> Self::Weight;

    /// The bulk, as an entity of its own.
    fn bulk(&self) -> (r: Self::Bulk)
        ensures
            r == self.bulk_part(),
    ;

    /// The weight, as an entity of its own.
    fn weight(&self) -> (r: Self::Weight)
        ensures
            r == self.weight_part(),
    ;
}

/// An entity with an orthogonal complement.
pub trait Dual: Sized {
    type DualType;

    /// Whether the coordinates of the dual can be stored.
    spec fn has_dual(&self) -> bool;

    /// The dual, where it can be stored.
    spec fn dual_entity(&self) -> Self::DualType;

    /// The dual. Its coordinates must be such as can be stored: where the
    /// dual changes signs, none of them may be `i64::MIN`.
    fn dual(&self) -> (r: Self::DualType)
        requires
            self.has_dual(),
        ensures
            r == self.dual_entity(),
    ;

    /// The dual, or `None` where a coordinate of it cannot be stored.
    fn checked_dual(&self) -> (r: Option<Self::DualType>)
        ensures
            r.is_some() <==> self.has_dual(),
            r matches Some(d) ==> d == self.dual_entity(),
    ;
}

impl BulkWeight for Point4 {
    type Bulk = Direction;

    type Weight = Origin;

    open spec fn bulk_part(&self) -> Direction {
        Direction { x: self.x, y: self.y, z: self.z }
    }

    open spec fn weight_part(&self) -> Origin {
        Origin { w: self.w }
    }

    fn bulk(&self) -> (r: Direction)
        ensures
            r@ == self@.bulk(),
    {
        Direction { x: self.x, y: self.y, z: self.z }
    }

    fn weight(&self) -> (r: Origin)
        ensures
            r@ == self@.weight(),
    {
        Origin { w: self.w }
    }
}

impl BulkWeight for Line {
    type Bulk = LineMoment;

    type Weight = LineDirection;

    open spec fn bulk_part(&self) -> LineMoment {
        LineMoment { x: self.mx, y: self.my, z: self.mz }
    }

    open spec fn weight_part(&self) -> LineDirection {
        LineDirection { x: self.vx, y: self.vy, z: self.vz }
    }

    fn bulk(&self) -> (r: LineMoment)
        ensures
            r@ == self@.bulk(),
    {
        LineMoment { x: self.mx, y: self.my, z: self.mz }
    }

    fn weight(&self) -> (r: LineDirection)
        ensures
            r@ == self@.weight(),
    {
        LineDirection { x: self.vx, y: self.vy, z: self.vz }
    }
}

impl BulkWeight for Plane {
    type Bulk = Horizon;

    type Weight = PlaneDirection;

    open spec fn bulk_part(&self) -> Horizon {
        Horizon { w: self.w }
    }

    open spec fn weight_part(&self) -> PlaneDirection {
        PlaneDirection { x: self.x, y: self.y, z: self.z }
    }

    fn bulk(&self) -> (r: Horizon)
        ensures
            r@ == self@.bulk(),
    {
        Horizon { w: self.w }
    }

    fn weight(&self) -> (r: PlaneDirection)
        ensures
            r@ == self@.weight(),
    {
        PlaneDirection { x: self.x, y: self.y, z: self.z }
    }
}

/// The plane direction with the same coordinates.
impl Dual for Direction {
    type DualType = PlaneDirection;

    open spec fn has_dual(&self) -> bool {
        self@.dual().representable()
    }

    open spec fn dual_entity(&self) -> PlaneDirection {
        PlaneDirection::from_model(self@.dual())
    }

    fn dual(&self) -> (r: PlaneDirection)
        ensures
            r@ == self@.dual(),
    {
        PlaneDirection { x: self.x, y: self.y, z: self.z }
    }

    fn checked_dual(&self) -> (r: Option<PlaneDirection>)
        ensures
            r matches Some(d) ==> d@ == self@.dual(),
    {
        Some(PlaneDirection { x: self.x, y: self.y, z: self.z })
    }
}

/// The direction with the opposite coordinates.
impl Dual for PlaneDirection {
    type DualType = Direction;

    open spec fn has_dual(&self) -> bool {
        self@.dual().representable()
    }

    open spec fn dual_entity(&self) -> Direction {
        Direction::from_model(self@.dual())
    }

    fn dual(&self) -> (r: Direction)
        ensures
            r@ == self@.dual(),
    {
        Direction { x: -self.x, y: -self.y, z: -self.z }
    }

    fn checked_dual(&self) -> (r: Option<Direction>)
        ensures
            r matches Some(d) ==> d@ == self@.dual(),
    {
        match (negate(self.x), negate(self.y), negate(self.z)) {
            (Some(x), Some(y), Some(z)) => Some(Direction { x, y, z }),
            _ => None,
        }
    }
}

/// The moment with the opposite coordinates.
impl Dual for LineDirection {
    type DualType = LineMoment;

    open spec fn has_dual(&self) -> bool {
        self@.dual().representable()
    }

    open spec fn dual_entity(&self) -> LineMoment {
        LineMoment::from_model(self@.dual())
    }

    fn dual(&self) -> (r: LineMoment)
        ensures
            r@ == self@.dual(),
    {
        LineMoment { x: -self.x, y: -self.y, z: -self.z }
    }

    fn checked_dual(&self) -> (r: Option<LineMoment>)
        ensures
            r matches Some(d) ==> d@ == self@.dual(),
    {
        match (negate(self.x), negate(self.y), negate(self.z)) {
            (Some(x), Some(y), Some(z)) => Some(LineMoment { x, y, z }),
            _ => None,
        }
    }
}

/// The line direction with the opposite coordinates.
impl Dual for LineMoment {
    type DualType = LineDirection;

    open spec fn has_dual(&self) -> bool {
        self@.dual().representable()
    }

    open spec fn dual_entity(&self) -> LineDirection {
        LineDirection::from_model(self@.dual())
    }

    fn dual(&self) -> (r: LineDirection)
        ensures
            r@ == self@.dual(),
    {
        LineDirection { x: -self.x, y: -self.y, z: -self.z }
    }

    fn checked_dual(&self) -> (r: Option<LineDirection>)
        ensures
            r matches Some(d) ==> d@ == self@.dual(),
    {
        match (negate(self.x), negate(self.y), negate(self.z)) {
            (Some(x), Some(y), Some(z)) => Some(LineDirection { x, y, z }),
            _ => None,
        }
    }
}

/// The horizon with the same coordinate.
impl Dual for Origin {
    type DualType = Horizon;

    open spec fn has_dual(&self) -> bool {
        self@.dual().representable()
    }

    open spec fn dual_entity(&self) -> Horizon {
        Horizon::from_model(self@.dual())
    }

    fn dual(&self) -> (r: Horizon)
        ensures
            r@ == self@.dual(),
    {
        Horizon { w: self.w }
    }

    fn checked_dual(&self) -> (r: Option<Horizon>)
        ensures
            r matches Some(d) ==> d@ == self@.dual(),
    {
        Some(Horizon { w: self.w })
    }
}

/// The origin with the opposite coordinate.
impl Dual for Horizon {
    type DualType = Origin;

    open spec fn has_dual(&self) -> bool {
        self@.dual().representable()
    }

    open spec fn dual_entity(&self) -> Origin {
        Origin::from_model(self@.dual())
    }

    fn dual(&self) -> (r: Origin)
        ensures
            r@ == self@.dual(),
    {
        Origin { w: -self.w }
    }

    fn checked_dual(&self) -> (r: Option<Origin>)
        ensures
            r matches Some(d) ==> d@ == self@.dual(),
    {
        match negate(self.w) {
            Some(w) => Some(Origin { w }),
            _ => None,
        }
    }
}

/// The plane with the same coordinates.
impl Dual for Point4 {
    type DualType = Plane;

    open spec fn has_dual(&self) -> bool {
        self@.dual().representable()
    }

    open spec fn dual_entity(&self) -> Plane {
        Plane::from_model(self@.dual())
    }

    fn dual(&self) -> (r: Plane)
        ensures
            r@ == self@.dual(),
    {
        Plane { x: self.x, y: self.y, z: self.z, w: self.w }
    }

    fn checked_dual(&self) -> (r: Option<Plane>)
        ensures
            r matches Some(d) ==> d@ == self@.dual(),
    {
        Some(Plane { x: self.x, y: self.y, z: self.z, w: self.w })
    }
}

/// The point with the opposite coordinates.
impl Dual for Plane {
    type DualType = Point4;

    open spec fn has_dual(&self) -> bool {
        self@.dual().representable()
    }

    open spec fn dual_entity(&self) -> Point4 {
        Point4::from_model(self@.dual())
    }

    fn dual(&self) -> (r: Point4)
        ensures
            r@ == self@.dual(),
    {
        Point4 { x: -self.x, y: -self.y, z: -self.z, w: -self.w }
    }

    fn checked_dual(&self) -> (r: Option<Point4>)
        ensures
            r matches Some(d) ==> d@ == self@.dual(),
    {
        match (negate(self.x), negate(self.y), negate(self.z), negate(self.w)) {
            (Some(x), Some(y), Some(z), Some(w)) => Some(Point4 { x, y, z, w }),
            _ => None,
        }
    }
}

/// The line whose direction and moment are the opposite moment and direction.
impl Dual for Line {
    type DualType = Line;

    open spec fn has_dual(&self) -> bool {
        self@.dual().representable()
    }

    open spec fn dual_entity(&self) -> Line {
        Line::from_model(self@.dual())
    }

    fn dual(&self) -> (r: Line)
        ensures
            r@ == self@.dual(),
    {
        Line {
            vx: -self.mx,
            vy: -self.my,
            vz: -self.mz,
            mx: -self.vx,
            my: -self.vy,
            mz: -self.vz,
        }
    }

    fn checked_dual(&self) -> (r: Option<Line>)
        ensures
            r matches Some(d) ==> d@ == self@.dual(),
    {
        let direction = (negate(self.mx), negate(self.my), negate(self.mz));
        let moment = (negate(self.vx), negate(self.vy), negate(self.vz));
        match (direction, moment) {
            ((Some(vx), Some(vy), Some(vz)), (Some(mx), Some(my), Some(mz))) => Some(
                Line { vx, vy, vz, mx, my, mz },
            ),
            _ => None,
        }
    }
}

impl Not for Direction {
    type Output = PlaneDirection;

    fn not(self) -> (r: PlaneDirection)
        ensures
            r@ == self@.dual(),
    {
        self.dual()
    }
}

impl NotSpecImpl for Direction {
    open spec fn obeys_not_spec() -> bool {
        true
    }

    open spec fn not_req(self) -> bool {
        self.has_dual()
    }

    open spec fn not_spec(self) -> PlaneDirection {
        self.dual_entity()
    }
}

impl Not for PlaneDirection {
    type Output = Direction;

    fn not(self) -> (r: Direction)
        ensures
            r@ == self@.dual(),
    {
        self.dual()
    }
}

impl NotSpecImpl for PlaneDirection {
    open spec fn obeys_not_spec() -> bool {
        true
    }

    open spec fn not_req(self) -> bool {
        self.has_dual()
    }

    open spec fn not_spec(self) -> Direction {
        self.dual_entity()
    }
}

impl Not for LineDirection {
    type Output = LineMoment;

    fn not(self) -> (r: LineMoment)
        ensures
            r@ == self@.dual(),
    {
        self.dual()
    }
}

impl NotSpecImpl for LineDirection {
    open spec fn obeys_not_spec() -> bool {
        true
    }

    open spec fn not_req(self) -> bool {
        self.has_dual()
    }

    open spec fn not_spec(self) -> LineMoment {
        self.dual_entity()
    }
}

impl Not for LineMoment {
    type Output = LineDirection;

    fn not(self) -> (r: LineDirection)
        ensures
            r@ == self@.dual(),
    {
        self.dual()
    }
}

impl NotSpecImpl for LineMoment {
    open spec fn obeys_not_spec() -> bool {
        true
    }

    open spec fn not_req(self) -> bool {
        self.has_dual()
    }

    open spec fn not_spec(self) -> LineDirection {
        self.dual_entity()
    }
}

impl Not for Origin {
    type Output = Horizon;

    fn not(self) -> (r: Horizon)
        ensures
            r@ == self@.dual(),
    {
        self.dual()
    }
}

impl NotSpecImpl for Origin {
    open spec fn obeys_not_spec() -> bool {
        true
    }

    open spec fn not_req(self) -> bool {
        self.has_dual()
    }

    open spec fn not_spec(self) -> Horizon {
        self.dual_entity()
    }
}

impl Not for Horizon {
    type Output = Origin;

    fn not(self) -> (r: Origin)
        ensures
            r@ == self@.dual(),
    {
        self.dual()
    }
}

impl NotSpecImpl for Horizon {
    open spec fn obeys_not_spec() -> bool {
        true
    }

    open spec fn not_req(self) -> bool {
        self.has_dual()
    }

    open spec fn not_spec(self) -> Origin {
        self.dual_entity()
    }
}

} // verus!
