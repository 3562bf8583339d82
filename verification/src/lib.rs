//! An exact kernel for projective geometric algebra in three dimensions.
//!
//! Points, lines and planes are homogeneous coordinate tuples over the
//! integers: a point `(x, y, z, w)` lies at `(x / w, y / w, z / w)`, so that
//! every point with rational coordinates, and every line and plane through
//! such points, has an exact representative. The join (`^`) raises the grade:
//! two points give a line, a line and a point a plane. The meet (`&`) lowers
//! it: two planes give a line, a plane and a line a point. The dual (`!`)
//! exchanges the weight and the bulk of an entity. Where operands have no
//! proper join or meet the result is an entity without weight or the zero
//! entity, never a failure.
//!
//! Every operation states its result in the integer model of `model`, and
//! `theorems` proves what holds of the model for all operands. Results are
//! not normalized: their scale is part of the algebra, and `unit` gives the
//! unit representative of an entity where that is whole. An operator requires
//! that its result can be stored in `i64` coordinates, which `bounds` derives
//! from the size of the operands; the `checked_` functions take any operands
//! and return `None` where it cannot.
pub mod algebra;
pub mod antiwedge;
pub mod arith;
pub mod bounds;
pub mod construct;
pub mod convert;
pub mod coordinates;
pub mod dual;
pub mod entity;
pub mod model;
pub mod negation;
pub mod project;
pub mod theorems;
pub mod types;
pub mod unit;
pub mod validity;
pub mod wedge;

pub use crate::antiwedge::{
    checked_antiwedge_line_plane, checked_antiwedge_plane_line, checked_antiwedge_planes,
};
pub use crate::convert::CartesianError;
pub use crate::dual::{BulkWeight, Dual};
pub use crate::entity::{neg, ApproxEq, GeometricEntity, Magnitude, DEFAULT_EPSILON};
pub use crate::project::{
    perpendicular_line, perpendicular_plane, perpendicular_plane_through_point,
    project_line_onto_plane, project_plane_onto_point, project_point_onto_plane,
};
pub use crate::types::{
    Direction, Horizon, Line, LineDirection, LineMoment, Origin, Plane, PlaneDirection, Point3,
    Point4, PointOrDirection,
};
pub use crate::wedge::{
    checked_wedge_line_point, checked_wedge_point_line, checked_wedge_points,
};
