//! The entities of the algebra as plain values.
//!
//! An entity stores only the coordinates of its grade, each an `i64`. Its view
//! is the model of the entity that it is, or is a part of: a `Direction` is a
//! point whose origin coordinate is zero, a `LineMoment` a line without a
//! direction, a `Horizon` a plane without a normal, and so on.
use crate::model::{LineModel, PlaneModel, PointModel, Vector};
use vstd::prelude::*;

verus! {

/// A point in homogeneous coordinates: `(x, y, z)` is its bulk, `w` its weight.
/// It is a finite point where `w` is not zero, and a direction where it is.
#[derive(Clone, Copy, Debug, PartialEq, Eq, Structural, Default)]
pub struct Point4 {
    pub x: i64,
    pub y: i64,
    pub z: i64,
    pub w: i64,
}

/// A finite point with weight one, given by its Cartesian coordinates.
#[derive(Clone, Copy, Debug, PartialEq, Eq, Structural, Default)]
pub struct Point3 {
    pub x: i64,
    pub y: i64,
    pub z: i64,
}

/// A free vector: the bulk of a point, or a point at infinity.
#[derive(Clone, Copy, Debug, PartialEq, Eq, Structural, Default)]
pub struct Direction {
    pub x: i64,
    pub y: i64,
    pub z: i64,
}

/// The weight of a point.
#[derive(Clone, Copy, Debug, PartialEq, Eq, Structural, Default)]
pub struct Origin {
    pub w: i64,
}

/// A line: `(vx, vy, vz)` is its direction, the weight, and `(mx, my, mz)` its
/// moment about the origin, the bulk.
#[derive(Clone, Copy, Debug, PartialEq, Eq, Structural, Default)]
pub struct Line {
    pub vx: i64,
    pub vy: i64,
    pub vz: i64,
    pub mx: i64,
    pub my: i64,
    pub mz: i64,
}

/// The weight of a line: a line through the origin.
#[derive(Clone, Copy, Debug, PartialEq, Eq, Structural, Default)]
pub struct LineDirection {
    pub x: i64,
    pub y: i64,
    pub z: i64,
}

/// The bulk of a line: a line at infinity.
#[derive(Clone, Copy, Debug, PartialEq, Eq, Structural, Default)]
pub struct LineMoment {
    pub x: i64,
    pub y: i64,
    pub z: i64,
}

/// The plane `x * X + y * Y + z * Z + w = 0`: `(x, y, z)` is its normal, the
/// weight, and `w` its horizon coordinate, the bulk.
#[derive(Clone, Copy, Debug, PartialEq, Eq, Structural, Default)]
pub struct Plane {
    pub x: i64,
    pub y: i64,
    pub z: i64,
    pub w: i64,
}

/// The weight of a plane: its normal, a plane through the origin.
#[derive(Clone, Copy, Debug, PartialEq, Eq, Structural, Default)]
pub struct PlaneDirection {
    pub x: i64,
    pub y: i64,
    pub z: i64,
}

/// The bulk of a plane: a multiple of the plane at infinity.
#[derive(Clone, Copy, Debug, PartialEq, Eq, Structural, Default)]
pub struct Horizon {
    pub w: i64,
}

/// What a homogeneous point turns out to be: a finite point or a direction.
#[derive(Clone, Copy, Debug, PartialEq, Eq, Structural)]
pub enum PointOrDirection {
    Point(Point3),
    Direction(Direction),
}

impl View for Point4 {
    type V = PointModel;

    open spec fn view(&self) -> PointModel {
        PointModel { direction: Vector::of(self.x, self.y, self.z), origin: self.w as int }
    }
}

impl View for Point3 {
    type V = PointModel;

    open spec fn view(&self) -> PointModel {
        PointModel { direction: Vector::of(self.x, self.y, self.z), origin: 1 }
    }
}

impl View for Direction {
    type V = PointModel;

    open spec fn view(&self) -> PointModel {
        PointModel { direction: Vector::of(self.x, self.y, self.z), origin: 0 }
    }
}

impl View for Origin {
    type V = PointModel;

    open spec fn view(&self) -> PointModel {
        PointModel { direction: Vector::zero(), origin: self.w as int }
    }
}

impl View for Line {
    type V = LineModel;

    open spec fn view(&self) -> LineModel {
        LineModel {
            direction: Vector::of(self.vx, self.vy, self.vz),
            moment: Vector::of(self.mx, self.my, self.mz),
        }
    }
}

impl View for LineDirection {
    type V = LineModel;

    open spec fn view(&self) -> LineModel {
        LineModel { direction: Vector::of(self.x, self.y, self.z), moment: Vector::zero() }
    }
}

impl View for LineMoment {
    type V = LineModel;

    open spec fn view(&self) -> LineModel {
        LineModel { direction: Vector::zero(), moment: Vector::of(self.x, self.y, self.z) }
    }
}

impl View for Plane {
    type V = PlaneModel;

    open spec fn view(&self) -> PlaneModel {
        PlaneModel { direction: Vector::of(self.x, self.y, self.z), horizon: self.w as int }
    }
}

impl View for PlaneDirection {
    type V = PlaneModel;

    open spec fn view(&self) -> PlaneModel {
        PlaneModel { direction: Vector::of(self.x, self.y, self.z), horizon: 0 }
    }
}

impl View for Horizon {
    type V = PlaneModel;

    open spec fn view(&self) -> PlaneModel {
        PlaneModel { direction: Vector::zero(), horizon: self.w as int }
    }
}

impl Point4 {
    /// The point with the bulk `(x, y, z)` and the weight `w`.
    pub fn new(x: i64, y: i64, z: i64, w: i64) -> (r: Point4)
        ensures
            r.x == x,
            r.y == y,
            r.z == z,
            r.w == w,
    {
        Point4 { x, y, z, w }
    }

    /// The value whose stored coordinates are those of `m`.
    pub open spec fn from_model(m: PointModel) -> Point4 {
        Point4 {
            x: m.direction.x as i64,
            y: m.direction.y as i64,
            z: m.direction.z as i64,
            w: m.origin as i64,
        }
    }
}

impl Point3 {
    /// The finite point with the Cartesian coordinates `(x, y, z)`, of weight one.
    pub fn new(x: i64, y: i64, z: i64) -> (r: Point3)
        ensures
            r.x == x,
            r.y == y,
            r.z == z,
    {
        Point3 { x, y, z }
    }

    /// The value whose stored coordinates are those of `m`.
    pub open spec fn from_model(m: PointModel) -> Point3 {
        Point3 { x: m.direction.x as i64, y: m.direction.y as i64, z: m.direction.z as i64 }
    }
}

impl Direction {
    /// The free vector `(x, y, z)`.
    pub fn new(x: i64, y: i64, z: i64) -> (r: Direction)
        ensures
            r.x == x,
            r.y == y,
            r.z == z,
    {
        Direction { x, y, z }
    }

    /// The value whose stored coordinates are those of `m`.
    pub open spec fn from_model(m: PointModel) -> Direction {
        Direction { x: m.direction.x as i64, y: m.direction.y as i64, z: m.direction.z as i64 }
    }
}

impl Origin {
    /// The weight `w` of a point.
    pub fn new(w: i64) -> (r: Origin)
        ensures
            r.w == w,
    {
        Origin { w }
    }

    /// The value whose stored coordinates are those of `m`.
    pub open spec fn from_model(m: PointModel) -> Origin {
        Origin { w: m.origin as i64 }
    }
}

impl Line {
    /// The line with the direction `(vx, vy, vz)` and the moment `(mx, my, mz)`.
    pub fn new(vx: i64, vy: i64, vz: i64, mx: i64, my: i64, mz: i64) -> (r: Line)
        ensures
            r.vx == vx,
            r.vy == vy,
            r.vz == vz,
            r.mx == mx,
            r.my == my,
            r.mz == mz,
    {
        Line { vx, vy, vz, mx, my, mz }
    }

    /// The value whose stored coordinates are those of `m`.
    pub open spec fn from_model(m: LineModel) -> Line {
        Line {
            vx: m.direction.x as i64,
            vy: m.direction.y as i64,
            vz: m.direction.z as i64,
            mx: m.moment.x as i64,
            my: m.moment.y as i64,
            mz: m.moment.z as i64,
        }
    }
}

impl LineDirection {
    /// The direction `(x, y, z)` of a line.
    pub fn new(x: i64, y: i64, z: i64) -> (r: LineDirection)
        ensures
            r.x == x,
            r.y == y,
            r.z == z,
    {
        LineDirection { x, y, z }
    }

    /// The value whose stored coordinates are those of `m`.
    pub open spec fn from_model(m: LineModel) -> LineDirection {
        LineDirection {
            x: m.direction.x as i64,
            y: m.direction.y as i64,
            z: m.direction.z as i64,
        }
    }
}

impl LineMoment {
    /// The moment `(x, y, z)` of a line.
    pub fn new(x: i64, y: i64, z: i64) -> (r: LineMoment)
        ensures
            r.x == x,
            r.y == y,
            r.z == z,
    {
        LineMoment { x, y, z }
    }

    /// The value whose stored coordinates are those of `m`.
    pub open spec fn from_model(m: LineModel) -> LineMoment {
        LineMoment { x: m.moment.x as i64, y: m.moment.y as i64, z: m.moment.z as i64 }
    }
}

impl Plane {
    /// The plane with the normal `(x, y, z)` and the horizon coordinate `w`.
    pub fn new(x: i64, y: i64, z: i64, w: i64) -> (r: Plane)
        ensures
            r.x == x,
            r.y == y,
            r.z == z,
            r.w == w,
    {
        Plane { x, y, z, w }
    }

    /// The value whose stored coordinates are those of `m`.
    pub open spec fn from_model(m: PlaneModel) -> Plane {
        Plane {
            x: m.direction.x as i64,
            y: m.direction.y as i64,
            z: m.direction.z as i64,
            w: m.horizon as i64,
        }
    }
}

impl PlaneDirection {
    /// The normal `(x, y, z)` of a plane.
    pub fn new(x: i64, y: i64, z: i64) -> (r: PlaneDirection)
        ensures
            r.x == x,
            r.y == y,
            r.z == z,
    {
        PlaneDirection { x, y, z }
    }

    /// The value whose stored coordinates are those of `m`.
    pub open spec fn from_model(m: PlaneModel) -> PlaneDirection {
        PlaneDirection {
            x: m.direction.x as i64,
            y: m.direction.y as i64,
            z: m.direction.z as i64,
        }
    }
}

impl Horizon {
    /// The horizon coordinate `w` of a plane.
    pub fn new(w: i64) -> (r: Horizon)
        ensures
            r.w == w,
    {
        Horizon { w }
    }

    /// The value whose stored coordinates are those of `m`.
    pub open spec fn from_model(m: PlaneModel) -> Horizon {
        Horizon { w: m.horizon as i64 }
    }
}

} // verus!
