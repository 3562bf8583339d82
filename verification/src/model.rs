//! The mathematical model of the algebra.
//!
//! Every entity is a homogeneous coordinate tuple over the integers. A point
//! carries a direction (its bulk) and an origin coordinate (its weight); a line
//! carries a direction (weight) and a moment (bulk); a plane carries a
//! direction, its normal (weight), and a horizon coordinate (bulk). The join
//! raises the grade, the meet lowers it, and the dual exchanges bulk and
//! weight. All of it is exact: no operation of the model rounds or overflows.
use crate::arith::{fits, quotient};
use vstd::prelude::*;

verus! {

/// Three integer coordinates.
pub struct Vector {
    pub x: int,
    pub y: int,
    pub z: int,
}

impl Vector {
    /// The vector with the given stored coordinates.
    pub open spec fn of(x: i64, y: i64, z: i64) -> Vector {
        Vector { x: x as int, y: y as int, z: z as int }
    }

    pub open spec fn zero() -> Vector {
        Vector { x: 0, y: 0, z: 0 }
    }

    pub open spec fn is_zero(self) -> bool {
        self.x == 0 && self.y == 0 && self.z == 0
    }

    pub open spec fn negated(self) -> Vector {
        Vector { x: -self.x, y: -self.y, z: -self.z }
    }

    pub open spec fn scaled(self, k: int) -> Vector {
        Vector { x: self.x * k, y: self.y * k, z: self.z * k }
    }

    pub open spec fn plus(self, o: Vector) -> Vector {
        Vector { x: self.x + o.x, y: self.y + o.y, z: self.z + o.z }
    }

    pub open spec fn minus(self, o: Vector) -> Vector {
        Vector { x: self.x - o.x, y: self.y - o.y, z: self.z - o.z }
    }

    /// The right-handed cross product.
    pub open spec fn cross(self, o: Vector) -> Vector {
        Vector {
            x: self.y * o.z - self.z * o.y,
            y: self.z * o.x - self.x * o.z,
            z: self.x * o.y - self.y * o.x,
        }
    }

    pub open spec fn dot(self, o: Vector) -> int {
        self.x * o.x + self.y * o.y + self.z * o.z
    }

    pub open spec fn length_squared(self) -> int {
        self.dot(self)
    }

    /// Whether every coordinate can be stored.
    pub open spec fn representable(self) -> bool {
        fits(self.x) && fits(self.y) && fits(self.z)
    }

    /// Whether no coordinate exceeds `m` in magnitude.
    pub open spec fn within(self, m: int) -> bool {
        -m <= self.x <= m && -m <= self.y <= m && -m <= self.z <= m
    }

    /// Every coordinate divided by `s`, rounded towards zero.
    pub open spec fn divided(self, s: int) -> Vector {
        Vector { x: quotient(self.x, s), y: quotient(self.y, s), z: quotient(self.z, s) }
    }
}

/// A point in homogeneous coordinates: finite when `origin` is not zero, a
/// pure direction (an ideal point) when it is.
pub struct PointModel {
    pub direction: Vector,
    pub origin: int,
}

/// A line as a direction and a moment about the origin.
pub struct LineModel {
    pub direction: Vector,
    pub moment: Vector,
}

/// The plane of all points `x` with `direction . x + horizon = 0`.
pub struct PlaneModel {
    pub direction: Vector,
    pub horizon: int,
}

impl PointModel {
    pub open spec fn zero() -> PointModel {
        PointModel { direction: Vector::zero(), origin: 0 }
    }

    pub open spec fn is_zero(self) -> bool {
        self.direction.is_zero() && self.origin == 0
    }

    pub open spec fn negated(self) -> PointModel {
        PointModel { direction: self.direction.negated(), origin: -self.origin }
    }

    pub open spec fn scaled(self, k: int) -> PointModel {
        PointModel { direction: self.direction.scaled(k), origin: self.origin * k }
    }

    pub open spec fn plus(self, o: PointModel) -> PointModel {
        PointModel { direction: self.direction.plus(o.direction), origin: self.origin + o.origin }
    }

    /// The part that vanishes for a point at the origin.
    pub open spec fn bulk(self) -> PointModel {
        PointModel { direction: self.direction, origin: 0 }
    }

    /// The part that vanishes for a point at infinity.
    pub open spec fn weight(self) -> PointModel {
        PointModel { direction: Vector::zero(), origin: self.origin }
    }

    pub open spec fn length_squared(self) -> int {
        self.direction.length_squared() + self.origin * self.origin
    }

    pub open spec fn representable(self) -> bool {
        self.direction.representable() && fits(self.origin)
    }

    /// Whether no coordinate exceeds `m` in magnitude.
    pub open spec fn within(self, m: int) -> bool {
        self.direction.within(m) && -m <= self.origin <= m
    }

    /// The plane with the same coordinates.
    pub open spec fn dual(self) -> PlaneModel {
        PlaneModel { direction: self.direction, horizon: self.origin }
    }

    /// The line through `self` and `o`, directed from `self` to `o`.
    pub open spec fn join(self, o: PointModel) -> LineModel {
        LineModel {
            direction: o.direction.scaled(self.origin).minus(self.direction.scaled(o.origin)),
            moment: self.direction.cross(o.direction),
        }
    }

    /// The plane through `self` and the line `l`: the negative of `l.join_point(self)`.
    pub open spec fn join_line(self, l: LineModel) -> PlaneModel {
        l.join_point(self).negated()
    }
}

impl LineModel {
    pub open spec fn zero() -> LineModel {
        LineModel { direction: Vector::zero(), moment: Vector::zero() }
    }

    pub open spec fn is_zero(self) -> bool {
        self.direction.is_zero() && self.moment.is_zero()
    }

    pub open spec fn negated(self) -> LineModel {
        LineModel { direction: self.direction.negated(), moment: self.moment.negated() }
    }

    pub open spec fn scaled(self, k: int) -> LineModel {
        LineModel { direction: self.direction.scaled(k), moment: self.moment.scaled(k) }
    }

    pub open spec fn plus(self, o: LineModel) -> LineModel {
        LineModel {
            direction: self.direction.plus(o.direction),
            moment: self.moment.plus(o.moment),
        }
    }

    /// The part that vanishes for a line through the origin.
    pub open spec fn bulk(self) -> LineModel {
        LineModel { direction: Vector::zero(), moment: self.moment }
    }

    /// The part that vanishes for a line at infinity.
    pub open spec fn weight(self) -> LineModel {
        LineModel { direction: self.direction, moment: Vector::zero() }
    }

    pub open spec fn length_squared(self) -> int {
        self.direction.length_squared() + self.moment.length_squared()
    }

    pub open spec fn representable(self) -> bool {
        self.direction.representable() && self.moment.representable()
    }

    /// Whether no coordinate exceeds `m` in magnitude.
    pub open spec fn within(self, m: int) -> bool {
        self.direction.within(m) && self.moment.within(m)
    }

    /// Every coordinate divided by `s`, rounded towards zero.
    pub open spec fn divided(self, s: int) -> LineModel {
        LineModel { direction: self.direction.divided(s), moment: self.moment.divided(s) }
    }

    /// Direction and moment change places, both negated.
    pub open spec fn dual(self) -> LineModel {
        LineModel { direction: self.moment.negated(), moment: self.direction.negated() }
    }

    /// The plane through `self` and the point `p`.
    pub open spec fn join_point(self, p: PointModel) -> PlaneModel {
        PlaneModel {
            direction: self.direction.cross(p.direction).plus(self.moment.scaled(p.origin)),
            horizon: -self.moment.dot(p.direction),
        }
    }

    /// The point where `self` crosses the plane `p`: the negative of `p.meet_line(self)`.
    pub open spec fn meet_plane(self, p: PlaneModel) -> PointModel {
        p.meet_line(self).negated()
    }
}

impl PlaneModel {
    pub open spec fn zero() -> PlaneModel {
        PlaneModel { direction: Vector::zero(), horizon: 0 }
    }

    pub open spec fn is_zero(self) -> bool {
        self.direction.is_zero() && self.horizon == 0
    }

    pub open spec fn negated(self) -> PlaneModel {
        PlaneModel { direction: self.direction.negated(), horizon: -self.horizon }
    }

    pub open spec fn scaled(self, k: int) -> PlaneModel {
        PlaneModel { direction: self.direction.scaled(k), horizon: self.horizon * k }
    }

    pub open spec fn plus(self, o: PlaneModel) -> PlaneModel {
        PlaneModel {
            direction: self.direction.plus(o.direction),
            horizon: self.horizon + o.horizon,
        }
    }

    /// The part that vanishes for a plane through the origin.
    pub open spec fn bulk(self) -> PlaneModel {
        PlaneModel { direction: Vector::zero(), horizon: self.horizon }
    }

    /// The part that vanishes for the plane at infinity.
    pub open spec fn weight(self) -> PlaneModel {
        PlaneModel { direction: self.direction, horizon: 0 }
    }

    pub open spec fn length_squared(self) -> int {
        self.direction.length_squared() + self.horizon * self.horizon
    }

    pub open spec fn representable(self) -> bool {
        self.direction.representable() && fits(self.horizon)
    }

    /// Whether no coordinate exceeds `m` in magnitude.
    pub open spec fn within(self, m: int) -> bool {
        self.direction.within(m) && -m <= self.horizon <= m
    }

    /// Every coordinate divided by `s`, rounded towards zero.
    pub open spec fn divided(self, s: int) -> PlaneModel {
        PlaneModel { direction: self.direction.divided(s), horizon: quotient(self.horizon, s) }
    }

    /// The point with the negated coordinates.
    pub open spec fn dual(self) -> PointModel {
        PointModel { direction: self.direction.negated(), origin: -self.horizon }
    }

    /// The plane equation evaluated at `p`: zero exactly when `p` lies on the plane.
    pub open spec fn incidence(self, p: PointModel) -> int {
        self.direction.dot(p.direction) + self.horizon * p.origin
    }

    /// The line in which `self` and `o` intersect.
    pub open spec fn meet(self, o: PlaneModel) -> LineModel {
        LineModel {
            direction: o.direction.cross(self.direction),
            moment: self.direction.scaled(o.horizon).minus(o.direction.scaled(self.horizon)),
        }
    }

    /// The point in which the line `l` crosses `self`.
    pub open spec fn meet_line(self, l: LineModel) -> PointModel {
        PointModel {
            direction: l.moment.cross(self.direction).plus(l.direction.scaled(self.horizon)),
            origin: -l.direction.dot(self.direction),
        }
    }

    /// The line through `p` at right angles to `self`.
    pub open spec fn perpendicular_line(self, p: PointModel) -> LineModel {
        p.join(self.weight().dual())
    }

    /// The plane through `l` at right angles to `self`.
    pub open spec fn perpendicular_plane(self, l: LineModel) -> PlaneModel {
        l.join_point(self.weight().dual())
    }

    /// The foot of the perpendicular from `p` on `self`.
    pub open spec fn project_point(self, p: PointModel) -> PointModel {
        self.meet_line(self.perpendicular_line(p))
    }

    /// The line in `self` that lies under `l`.
    pub open spec fn project_line(self, l: LineModel) -> LineModel {
        self.meet(self.perpendicular_plane(l))
    }

    /// The plane through `p` that is parallel to `self`.
    pub open spec fn project_onto_point(self, p: PointModel) -> PlaneModel {
        self.perpendicular_line(p).perpendicular_plane(p)
    }
}

impl LineModel {
    /// The plane through `p` at right angles to `self`.
    pub open spec fn perpendicular_plane(self, p: PointModel) -> PlaneModel {
        p.join_line(self.weight().dual())
    }
}

} // verus!
