//! Which entities are proper.
//!
//! An entity is valid when its weight is not zero: a point when it is finite,
//! a line or a plane when it has a direction. A part of an entity is valid
//! when it is not zero. An entity that is not valid stands for something at
//! infinity or, where it is zero, for nothing: the join and the meet return
//! such entities where the operands have no proper join or meet.
use crate::types::{
    Direction, Horizon, Line, LineDirection, LineMoment, Origin, Plane, PlaneDirection, Point4,
};
use vstd::prelude::*;

verus! {

impl Direction {
    /// Whether the direction is not zero.
    pub fn is_valid(&self) -> (r: bool)
        ensures
            r == !self@.is_zero(),
    {
        self.x != 0 || self.y != 0 || self.z != 0
    }
}

impl LineDirection {
    /// Whether the direction is not zero.
    pub fn is_valid(&self) -> (r: bool)
        ensures
            r == !self@.is_zero(),
    {
        self.x != 0 || self.y != 0 || self.z != 0
    }
}

impl LineMoment {
    /// Whether the moment is not zero.
    pub fn is_valid(&self) -> (r: bool)
        ensures
            r == !self@.is_zero(),
    {
        self.x != 0 || self.y != 0 || self.z != 0
    }
}

impl PlaneDirection {
    /// Whether the normal is not zero.
    pub fn is_valid(&self) -> (r: bool)
        ensures
            r == !self@.is_zero(),
    {
        self.x != 0 || self.y != 0 || self.z != 0
    }
}

impl Origin {
    /// Whether the weight is not zero.
    pub fn is_valid(&self) -> (r: bool)
        ensures
            r == !self@.is_zero(),
    {
        self.w != 0
    }
}

impl Horizon {
    /// Whether the coordinate is not zero.
    pub fn is_valid(&self) -> (r: bool)
        ensures
            r == !self@.is_zero(),
    {
        self.w != 0
    }
}

impl Point4 {
    /// Whether the point is finite: its weight is not zero.
    pub fn is_valid(&self) -> (r: bool)
        ensures
            r == !self@.weight().is_zero(),
    {
        self.w != 0
    }
}

impl Line {
    /// Whether the line is a proper line: its direction is not zero.
    pub fn is_valid(&self) -> (r: bool)
        ensures
            r == !self@.weight().is_zero(),
    {
        self.vx != 0 || self.vy != 0 || self.vz != 0
    }
}

impl Plane {
    /// Whether the plane is a proper plane: its normal is not zero.
    pub fn is_valid(&self) -> (r: bool)
        ensures
            r == !self@.weight().is_zero(),
    {
        self.x != 0 || self.y != 0 || self.z != 0
    }
}

} // verus!
