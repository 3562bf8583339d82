//! Conversions between entities, and to and from plain coordinate arrays.
use crate::algebra::lemma_times_one;
use crate::arith::{divides, exact_quotient, fits, lemma_quotient_exact, narrow, quotient};
use crate::types::{
    Direction, Horizon, Line, LineDirection, LineMoment, Origin, Plane, PlaneDirection, Point3,
    Point4, PointOrDirection,
};
use vstd::prelude::*;
use vstd::std_specs::convert::{FromSpecImpl, TryFromSpecImpl};

verus! {

/// The same point in homogeneous coordinates, with weight one.
impl From<Point3> for Point4 {
    fn from(v: Point3) -> (r: Point4)
        ensures
            r@ == v@,
    {
        Point4 { x: v.x, y: v.y, z: v.z, w: 1 }
    }
}

impl FromSpecImpl<Point3> for Point4 {
    open spec fn obeys_from_spec() -> bool {
        true
    }

    open spec fn from_spec(v: Point3) -> Point4 {
        Point4 { x: v.x, y: v.y, z: v.z, w: 1 }
    }
}

/// The point at infinity in the given direction.
impl From<Direction> for Point4 {
    fn from(v: Direction) -> (r: Point4)
        ensures
            r@ == v@,
    {
        Point4 { x: v.x, y: v.y, z: v.z, w: 0 }
    }
}

impl FromSpecImpl<Direction> for Point4 {
    open spec fn obeys_from_spec() -> bool {
        true
    }

    open spec fn from_spec(v: Direction) -> Point4 {
        Point4 { x: v.x, y: v.y, z: v.z, w: 0 }
    }
}

/// The multiple of the origin with the given weight.
impl From<Origin> for Point4 {
    fn from(v: Origin) -> (r: Point4)
        ensures
            r@ == v@,
    {
        Point4 { x: 0, y: 0, z: 0, w: v.w }
    }
}

impl FromSpecImpl<Origin> for Point4 {
    open spec fn obeys_from_spec() -> bool {
        true
    }

    open spec fn from_spec(v: Origin) -> Point4 {
        Point4 { x: 0, y: 0, z: 0, w: v.w }
    }
}

/// The line through the origin with the given direction.
impl From<LineDirection> for Line {
    fn from(v: LineDirection) -> (r: Line)
        ensures
            r@ == v@,
    {
        Line { vx: v.x, vy: v.y, vz: v.z, mx: 0, my: 0, mz: 0 }
    }
}

impl FromSpecImpl<LineDirection> for Line {
    open spec fn obeys_from_spec() -> bool {
        true
    }

    open spec fn from_spec(v: LineDirection) -> Line {
        Line { vx: v.x, vy: v.y, vz: v.z, mx: 0, my: 0, mz: 0 }
    }
}

/// The line at infinity with the given moment.
impl From<LineMoment> for Line {
    fn from(v: LineMoment) -> (r: Line)
        ensures
            r@ == v@,
    {
        Line { vx: 0, vy: 0, vz: 0, mx: v.x, my: v.y, mz: v.z }
    }
}

impl FromSpecImpl<LineMoment> for Line {
    open spec fn obeys_from_spec() -> bool {
        true
    }

    open spec fn from_spec(v: LineMoment) -> Line {
        Line { vx: 0, vy: 0, vz: 0, mx: v.x, my: v.y, mz: v.z }
    }
}

/// The plane through the origin with the given normal.
impl From<PlaneDirection> for Plane {
    fn from(v: PlaneDirection) -> (r: Plane)
        ensures
            r@ == v@,
    {
        Plane { x: v.x, y: v.y, z: v.z, w: 0 }
    }
}

impl FromSpecImpl<PlaneDirection> for Plane {
    open spec fn obeys_from_spec() -> bool {
        true
    }

    open spec fn from_spec(v: PlaneDirection) -> Plane {
        Plane { x: v.x, y: v.y, z: v.z, w: 0 }
    }
}

/// The multiple of the plane at infinity with the given coordinate.
impl From<Horizon> for Plane {
    fn from(v: Horizon) -> (r: Plane)
        ensures
            r@ == v@,
    {
        Plane { x: 0, y: 0, z: 0, w: v.w }
    }
}

impl FromSpecImpl<Horizon> for Plane {
    open spec fn obeys_from_spec() -> bool {
        true
    }

    open spec fn from_spec(v: Horizon) -> Plane {
        Plane { x: 0, y: 0, z: 0, w: v.w }
    }
}

/// The coordinates in the order `x`, `y`, `z`.
impl From<[i64; 3]> for Direction {
    fn from(v: [i64; 3]) -> (r: Direction)
        ensures
            r.x == v[0],
            r.y == v[1],
            r.z == v[2],
    {
        Direction { x: v[0], y: v[1], z: v[2] }
    }
}

impl FromSpecImpl<[i64; 3]> for Direction {
    open spec fn obeys_from_spec() -> bool {
        true
    }

    open spec fn from_spec(v: [i64; 3]) -> Direction {
        Direction { x: v[0], y: v[1], z: v[2] }
    }
}

/// The coordinates in the order `x`, `y`, `z`.
impl From<[i64; 3]> for LineDirection {
    fn from(v: [i64; 3]) -> (r: LineDirection)
        ensures
            r.x == v[0],
            r.y == v[1],
            r.z == v[2],
    {
        LineDirection { x: v[0], y: v[1], z: v[2] }
    }
}

impl FromSpecImpl<[i64; 3]> for LineDirection {
    open spec fn obeys_from_spec() -> bool {
        true
    }

    open spec fn from_spec(v: [i64; 3]) -> LineDirection {
        LineDirection { x: v[0], y: v[1], z: v[2] }
    }
}

/// The coordinates in the order `x`, `y`, `z`.
impl From<[i64; 3]> for LineMoment {
    fn from(v: [i64; 3]) -> (r: LineMoment)
        ensures
            r.x == v[0],
            r.y == v[1],
            r.z == v[2],
    {
        LineMoment { x: v[0], y: v[1], z: v[2] }
    }
}

impl FromSpecImpl<[i64; 3]> for LineMoment {
    open spec fn obeys_from_spec() -> bool {
        true
    }

    open spec fn from_spec(v: [i64; 3]) -> LineMoment {
        LineMoment { x: v[0], y: v[1], z: v[2] }
    }
}

/// The coordinates in the order `x`, `y`, `z`.
impl From<PlaneDirection> for [i64; 3] {
    fn from(v: PlaneDirection) -> (r: [i64; 3])
        ensures
            r[0] == v.x,
            r[1] == v.y,
            r[2] == v.z,
    {
        [v.x, v.y, v.z]
    }
}

impl FromSpecImpl<PlaneDirection> for [i64; 3] {
    open spec fn obeys_from_spec() -> bool {
        true
    }

    open spec fn from_spec(v: PlaneDirection) -> [i64; 3] {
        [v.x, v.y, v.z]
    }
}

/// The coordinates in the order `x`, `y`, `z`.
impl From<LineDirection> for [i64; 3] {
    fn from(v: LineDirection) -> (r: [i64; 3])
        ensures
            r[0] == v.x,
            r[1] == v.y,
            r[2] == v.z,
    {
        [v.x, v.y, v.z]
    }
}

impl FromSpecImpl<LineDirection> for [i64; 3] {
    open spec fn obeys_from_spec() -> bool {
        true
    }

    open spec fn from_spec(v: LineDirection) -> [i64; 3] {
        [v.x, v.y, v.z]
    }
}

/// The coordinates in the order `x`, `y`, `z`.
impl From<Direction> for [i64; 3] {
    fn from(v: Direction) -> (r: [i64; 3])
        ensures
            r[0] == v.x,
            r[1] == v.y,
            r[2] == v.z,
    {
        [v.x, v.y, v.z]
    }
}

impl FromSpecImpl<Direction> for [i64; 3] {
    open spec fn obeys_from_spec() -> bool {
        true
    }

    open spec fn from_spec(v: Direction) -> [i64; 3] {
        [v.x, v.y, v.z]
    }
}

/// The coordinates in the order `x`, `y`, `z`.
impl From<Point3> for [i64; 3] {
    fn from(v: Point3) -> (r: [i64; 3])
        ensures
            r[0] == v.x,
            r[1] == v.y,
            r[2] == v.z,
    {
        [v.x, v.y, v.z]
    }
}

impl FromSpecImpl<Point3> for [i64; 3] {
    open spec fn obeys_from_spec() -> bool {
        true
    }

    open spec fn from_spec(v: Point3) -> [i64; 3] {
        [v.x, v.y, v.z]
    }
}

/// The coordinates in the order `x`, `y`, `z`.
impl From<LineMoment> for [i64; 3] {
    fn from(v: LineMoment) -> (r: [i64; 3])
        ensures
            r[0] == v.x,
            r[1] == v.y,
            r[2] == v.z,
    {
        [v.x, v.y, v.z]
    }
}

impl FromSpecImpl<LineMoment> for [i64; 3] {
    open spec fn obeys_from_spec() -> bool {
        true
    }

    open spec fn from_spec(v: LineMoment) -> [i64; 3] {
        [v.x, v.y, v.z]
    }
}

/// The coordinates in the order `x`, `y`, `z`, `w`.
impl From<Plane> for [i64; 4] {
    fn from(v: Plane) -> (r: [i64; 4])
        ensures
            r[0] == v.x,
            r[1] == v.y,
            r[2] == v.z,
            r[3] == v.w,
    {
        [v.x, v.y, v.z, v.w]
    }
}

impl FromSpecImpl<Plane> for [i64; 4] {
    open spec fn obeys_from_spec() -> bool {
        true
    }

    open spec fn from_spec(v: Plane) -> [i64; 4] {
        [v.x, v.y, v.z, v.w]
    }
}

/// Why a homogeneous point has no Cartesian coordinates.
#[derive(Clone, Copy, Debug, PartialEq, Eq, Structural)]
pub enum CartesianError {
    /// The weight is zero: the point is a direction.
    AtInfinity,
    /// The weight does not divide every coordinate: the point lies between
    /// the points with integer coordinates.
    NotIntegral,
    /// A quotient cannot be stored.
    OutOfRange,
}

/// The Cartesian coordinates of a homogeneous point: its coordinates divided
/// by its weight, where the division is exact.
pub open spec fn cartesian(p: Point4) -> Result<Point3, CartesianError> {
    if p.w == 0 {
        Err(CartesianError::AtInfinity)
    } else if !(divides(p.w as int, p.x as int) && divides(p.w as int, p.y as int) && divides(
        p.w as int,
        p.z as int,
    )) {
        Err(CartesianError::NotIntegral)
    } else if !(fits(quotient(p.x as int, p.w as int)) && fits(quotient(p.y as int, p.w as int))
        && fits(quotient(p.z as int, p.w as int))) {
        Err(CartesianError::OutOfRange)
    } else {
        Ok(
            Point3 {
                x: quotient(p.x as int, p.w as int) as i64,
                y: quotient(p.y as int, p.w as int) as i64,
                z: quotient(p.z as int, p.w as int) as i64,
            },
        )
    }
}

/// The Cartesian coordinates of `p` are those of the one point of weight one
/// of which `p` is a multiple: where `cartesian` succeeds, its result times
/// the weight of `p` is `p`, and where a point `q` times a weight other than
/// zero is `p`, the result is `q`. So a point of weight one is its own
/// Cartesian form, and taking Cartesian coordinates twice changes nothing.
pub proof fn lemma_cartesian(p: Point4, q: Point3)
    ensures
        cartesian(p) == Ok::<Point3, CartesianError>(q) ==> q@.scaled(p.w as int) == p@,
        p.w != 0 && q@.scaled(p.w as int) == p@ ==> cartesian(p) == Ok::<Point3, CartesianError>(
            q,
        ),
        cartesian(Point4 { x: q.x, y: q.y, z: q.z, w: 1 }) == Ok::<Point3, CartesianError>(q),
{
    if p.w != 0 {
        lemma_quotient_exact(p.x as int, p.w as int, q.x as int);
        lemma_quotient_exact(p.y as int, p.w as int, q.y as int);
        lemma_quotient_exact(p.z as int, p.w as int, q.z as int);
    }
    lemma_times_one(p.w as int, q@.origin);
    lemma_quotient_exact(q.x as int, 1, q.x as int);
    lemma_quotient_exact(q.y as int, 1, q.y as int);
    lemma_quotient_exact(q.z as int, 1, q.z as int);
}

/// The same point with weight one, where it has integer coordinates.
impl TryFrom<Point4> for Point3 {
    type Error = CartesianError;

    fn try_from(p: Point4) -> (r: Result<Point3, CartesianError>)
        ensures
            r == cartesian(p),
            r matches Ok(q) ==> q@.scaled(p.w as int) == p@,
    {
        if p.w == 0 {
            return Err(CartesianError::AtInfinity);
        }
        match (exact_quotient(p.x, p.w), exact_quotient(p.y, p.w), exact_quotient(p.z, p.w)) {
            (Some(x), Some(y), Some(z)) => match (narrow(x), narrow(y), narrow(z)) {
                (Some(x), Some(y), Some(z)) => Ok(Point3 { x, y, z }),
                _ => Err(CartesianError::OutOfRange),
            },
            _ => Err(CartesianError::NotIntegral),
        }
    }
}

impl TryFromSpecImpl<Point4> for Point3 {
    open spec fn obeys_try_from_spec() -> bool {
        true
    }

    open spec fn try_from_spec(p: Point4) -> Result<Point3, CartesianError> {
        cartesian(p)
    }
}

/// What a homogeneous point is: the direction that is its bulk where its
/// weight is zero, and else the finite point with its Cartesian coordinates.
pub open spec fn point_or_direction(p: Point4) -> Result<PointOrDirection, CartesianError> {
    if p.w == 0 {
        Ok(PointOrDirection::Direction(Direction { x: p.x, y: p.y, z: p.z }))
    } else {
        match cartesian(p) {
            Ok(q) => Ok(PointOrDirection::Point(q)),
            Err(e) => Err(e),
        }
    }
}

impl TryFrom<Point4> for PointOrDirection {
    type Error = CartesianError;

    fn try_from(p: Point4) -> (r: Result<PointOrDirection, CartesianError>)
        ensures
            r == point_or_direction(p),
    {
        if p.w == 0 {
            Ok(PointOrDirection::Direction(Direction { x: p.x, y: p.y, z: p.z }))
        } else {
            match Point3::try_from(p) {
                Ok(q) => Ok(PointOrDirection::Point(q)),
                Err(e) => Err(e),
            }
        }
    }
}

impl TryFromSpecImpl<Point4> for PointOrDirection {
    open spec fn obeys_try_from_spec() -> bool {
        true
    }

    open spec fn try_from_spec(p: Point4) -> Result<PointOrDirection, CartesianError> {
        point_or_direction(p)
    }
}

} // verus!
