//! Negation, coordinate by coordinate.
use crate::entity::{neg, negated_coordinate, GeometricEntity};
use crate::model::PointModel;
use crate::types::{
    Direction, Horizon, Line, LineDirection, LineMoment, Origin, Plane, PlaneDirection, Point3,
    Point4,
};
use core::ops::Neg;
use vstd::prelude::*;
use vstd::std_specs::ops::NegSpecImpl;

verus! {

/// The same entity with the opposite orientation.
impl Neg for Point4 {
    type Output = Point4;

    fn neg(self) -> (r: Point4)
        ensures
            r@ == self@.negated(),
    {
        let r = neg(self);
        proof {
            assert(r.coordinates()[0] == negated_coordinate(self, 0));
            assert(r.coordinates()[1] == negated_coordinate(self, 1));
            assert(r.coordinates()[2] == negated_coordinate(self, 2));
            assert(r.coordinates()[3] == negated_coordinate(self, 3));
        }
        r
    }
}

impl NegSpecImpl for Point4 {
    open spec fn obeys_neg_spec() -> bool {
        true
    }

    /// No coordinate may be `i64::MIN`, which has no negative.
    open spec fn neg_req(self) -> bool {
        self@.negated().representable()
    }

    open spec fn neg_spec(self) -> Point4 {
        Point4::from_model(self@.negated())
    }
}

/// The mirror image in the origin: the coordinates change sign, the weight
/// stays one.
impl Neg for Point3 {
    type Output = Point3;

    fn neg(self) -> (r: Point3)
        ensures
            r@ == (PointModel { direction: self@.direction.negated(), origin: 1 }),
    {
        let r = neg(self);
        proof {
            assert(r.coordinates()[0] == negated_coordinate(self, 0));
            assert(r.coordinates()[1] == negated_coordinate(self, 1));
            assert(r.coordinates()[2] == negated_coordinate(self, 2));
            assert(r.coordinates()[3] == negated_coordinate(self, 3));
        }
        r
    }
}

impl NegSpecImpl for Point3 {
    open spec fn obeys_neg_spec() -> bool {
        true
    }

    /// No coordinate may be `i64::MIN`, which has no negative.
    open spec fn neg_req(self) -> bool {
        (PointModel { direction: self@.direction.negated(), origin: 1 }).representable()
    }

    open spec fn neg_spec(self) -> Point3 {
        Point3::from_model((PointModel { direction: self@.direction.negated(), origin: 1 }))
    }
}

/// The same entity with the opposite orientation.
impl Neg for Direction {
    type Output = Direction;

    fn neg(self) -> (r: Direction)
        ensures
            r@ == self@.negated(),
    {
        let r = neg(self);
        proof {
            assert(r.coordinates()[0] == negated_coordinate(self, 0));
            assert(r.coordinates()[1] == negated_coordinate(self, 1));
            assert(r.coordinates()[2] == negated_coordinate(self, 2));
        }
        r
    }
}

impl NegSpecImpl for Direction {
    open spec fn obeys_neg_spec() -> bool {
        true
    }

    /// No coordinate may be `i64::MIN`, which has no negative.
    open spec fn neg_req(self) -> bool {
        self@.negated().representable()
    }

    open spec fn neg_spec(self) -> Direction {
        Direction::from_model(self@.negated())
    }
}

/// The same entity with the opposite orientation.
impl Neg for Origin {
    type Output = Origin;

    fn neg(self) -> (r: Origin)
        ensures
            r@ == self@.negated(),
    {
        let r = neg(self);
        proof {
            assert(r.coordinates()[0] == negated_coordinate(self, 0));
        }
        r
    }
}

impl NegSpecImpl for Origin {
    open spec fn obeys_neg_spec() -> bool {
        true
    }

    /// No coordinate may be `i64::MIN`, which has no negative.
    open spec fn neg_req(self) -> bool {
        self@.negated().representable()
    }

    open spec fn neg_spec(self) -> Origin {
        Origin::from_model(self@.negated())
    }
}

/// The same entity with the opposite orientation.
impl Neg for Line {
    type Output = Line;

    fn neg(self) -> (r: Line)
        ensures
            r@ == self@.negated(),
    {
        let r = neg(self);
        proof {
            assert(r.coordinates()[0] == negated_coordinate(self, 0));
            assert(r.coordinates()[1] == negated_coordinate(self, 1));
            assert(r.coordinates()[2] == negated_coordinate(self, 2));
            assert(r.coordinates()[3] == negated_coordinate(self, 3));
            assert(r.coordinates()[4] == negated_coordinate(self, 4));
            assert(r.coordinates()[5] == negated_coordinate(self, 5));
        }
        r
    }
}

impl NegSpecImpl for Line {
    open spec fn obeys_neg_spec() -> bool {
        true
    }

    /// No coordinate may be `i64::MIN`, which has no negative.
    open spec fn neg_req(self) -> bool {
        self@.negated().representable()
    }

    open spec fn neg_spec(self) -> Line {
        Line::from_model(self@.negated())
    }
}

/// The same entity with the opposite orientation.
impl Neg for LineDirection {
    type Output = LineDirection;

    fn neg(self) -> (r: LineDirection)
        ensures
            r@ == self@.negated(),
    {
        let r = neg(self);
        proof {
            assert(r.coordinates()[0] == negated_coordinate(self, 0));
            assert(r.coordinates()[1] == negated_coordinate(self, 1));
            assert(r.coordinates()[2] == negated_coordinate(self, 2));
        }
        r
    }
}

impl NegSpecImpl for LineDirection {
    open spec fn obeys_neg_spec() -> bool {
        true
    }

    /// No coordinate may be `i64::MIN`, which has no negative.
    open spec fn neg_req(self) -> bool {
        self@.negated().representable()
    }

    open spec fn neg_spec(self) -> LineDirection {
        LineDirection::from_model(self@.negated())
    }
}

/// The same entity with the opposite orientation.
impl Neg for LineMoment {
    type Output = LineMoment;

    fn neg(self) -> (r: LineMoment)
        ensures
            r@ == self@.negated(),
    {
        let r = neg(self);
        proof {
            assert(r.coordinates()[0] == negated_coordinate(self, 0));
            assert(r.coordinates()[1] == negated_coordinate(self, 1));
            assert(r.coordinates()[2] == negated_coordinate(self, 2));
        }
        r
    }
}

impl NegSpecImpl for LineMoment {
    open spec fn obeys_neg_spec() -> bool {
        true
    }

    /// No coordinate may be `i64::MIN`, which has no negative.
    open spec fn neg_req(self) -> bool {
        self@.negated().representable()
    }

    open spec fn neg_spec(self) -> LineMoment {
        LineMoment::from_model(self@.negated())
    }
}

/// The same entity with the opposite orientation.
impl Neg for Plane {
    type Output = Plane;

    fn neg(self) -> (r: Plane)
        ensures
            r@ == self@.negated(),
    {
        let r = neg(self);
        proof {
            assert(r.coordinates()[0] == negated_coordinate(self, 0));
            assert(r.coordinates()[1] == negated_coordinate(self, 1));
            assert(r.coordinates()[2] == negated_coordinate(self, 2));
            assert(r.coordinates()[3] == negated_coordinate(self, 3));
        }
        r
    }
}

impl NegSpecImpl for Plane {
    open spec fn obeys_neg_spec() -> bool {
        true
    }

    /// No coordinate may be `i64::MIN`, which has no negative.
    open spec fn neg_req(self) -> bool {
        self@.negated().representable()
    }

    open spec fn neg_spec(self) -> Plane {
        Plane::from_model(self@.negated())
    }
}

/// The same entity with the opposite orientation.
impl Neg for PlaneDirection {
    type Output = PlaneDirection;

    fn neg(self) -> (r: PlaneDirection)
        ensures
            r@ == self@.negated(),
    {
        let r = neg(self);
        proof {
            assert(r.coordinates()[0] == negated_coordinate(self, 0));
            assert(r.coordinates()[1] == negated_coordinate(self, 1));
            assert(r.coordinates()[2] == negated_coordinate(self, 2));
        }
        r
    }
}

impl NegSpecImpl for PlaneDirection {
    open spec fn obeys_neg_spec() -> bool {
        true
    }

    /// No coordinate may be `i64::MIN`, which has no negative.
    open spec fn neg_req(self) -> bool {
        self@.negated().representable()
    }

    open spec fn neg_spec(self) -> PlaneDirection {
        PlaneDirection::from_model(self@.negated())
    }
}

/// The same entity with the opposite orientation.
impl Neg for Horizon {
    type Output = Horizon;

    fn neg(self) -> (r: Horizon)
        ensures
            r@ == self@.negated(),
    {
        let r = neg(self);
        proof {
            assert(r.coordinates()[0] == negated_coordinate(self, 0));
        }
        r
    }
}

impl NegSpecImpl for Horizon {
    open spec fn obeys_neg_spec() -> bool {
        true
    }

    /// No coordinate may be `i64::MIN`, which has no negative.
    open spec fn neg_req(self) -> bool {
        self@.negated().representable()
    }

    open spec fn neg_spec(self) -> Horizon {
        Horizon::from_model(self@.negated())
    }
}

} // verus!
