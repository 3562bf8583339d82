//! Named constructors and the fixed entities of the coordinate frame.
//!
//! The frame is right-handed with `y` up: `left`, `up` and `forward` are the
//! planes through the origin whose normals are the `x`, `y` and `z` axes.
use crate::algebra::{lemma_product_signs, lemma_small_factor};
use crate::arith::{divides, fits, magnitude_of, negate, quotient};
use crate::model::{PlaneModel, PointModel, Vector};
use crate::types::{Line, Plane, Point4};
use crate::unit::{lemma_quotient_along_axis, lemma_unit_scale, lies_along_axis, unit_scale};
use vstd::prelude::*;

verus! {

/// The vector with the coordinates `a[0]`, `a[1]`, `a[2]`.
pub open spec fn vector_of(a: [i64; 3]) -> Vector {
    Vector { x: a[0] as int, y: a[1] as int, z: a[2] as int }
}

impl Point4 {
    /// The point at infinity in the direction `(x, y, z)`: its weight is zero.
    pub fn infinite(x: i64, y: i64, z: i64) -> (r: Point4)
        ensures
            r.x == x,
            r.y == y,
            r.z == z,
            r.w == 0,
    {
        Point4 { x, y, z, w: 0 }
    }

    /// The finite point with the Cartesian coordinates `(x, y, z)`: its weight
    /// is one.
    pub fn finite(x: i64, y: i64, z: i64) -> (r: Point4)
        ensures
            r.x == x,
            r.y == y,
            r.z == z,
            r.w == 1,
    {
        Point4 { x, y, z, w: 1 }
    }
}

impl Line {
    /// The line through the origin in the direction `(x, y, z)`: its moment is
    /// zero.
    pub fn through_origin(x: i64, y: i64, z: i64) -> (r: Line)
        ensures
            r.vx == x,
            r.vy == y,
            r.vz == z,
            r.mx == 0,
            r.my == 0,
            r.mz == 0,
    {
        Line::new(x, y, z, 0, 0, 0)
    }

    /// The `x` axis.
    pub fn x_axis() -> (r: Line)
        ensures
            r == (Line { vx: 1, vy: 0, vz: 0, mx: 0, my: 0, mz: 0 }),
    {
        Line::new(1, 0, 0, 0, 0, 0)
    }

    /// The `y` axis.
    pub fn y_axis() -> (r: Line)
        ensures
            r == (Line { vx: 0, vy: 1, vz: 0, mx: 0, my: 0, mz: 0 }),
    {
        Line::new(0, 1, 0, 0, 0, 0)
    }

    /// The `z` axis.
    pub fn z_axis() -> (r: Line)
        ensures
            r == (Line { vx: 0, vy: 0, vz: 1, mx: 0, my: 0, mz: 0 }),
    {
        Line::new(0, 0, 1, 0, 0, 0)
    }
}

impl Plane {
    /// The plane `x = 0`.
    pub fn left() -> (r: Plane)
        ensures
            r == (Plane { x: 1, y: 0, z: 0, w: 0 }),
    {
        Plane::new(1, 0, 0, 0)
    }

    /// The plane `y = 0`.
    pub fn up() -> (r: Plane)
        ensures
            r == (Plane { x: 0, y: 1, z: 0, w: 0 }),
    {
        Plane::new(0, 1, 0, 0)
    }

    /// The plane `z = 0`.
    pub fn forward() -> (r: Plane)
        ensures
            r == (Plane { x: 0, y: 0, z: 1, w: 0 }),
    {
        Plane::new(0, 0, 1, 0)
    }

    /// The plane with the given normal and horizon coordinate.
    pub fn from_normal_distance(normal: [i64; 3], distance: i64) -> (r: Plane)
        ensures
            r@ == (PlaneModel { direction: vector_of(normal), horizon: distance as int }),
    {
        Plane::new(normal[0], normal[1], normal[2], distance)
    }

    /// The plane with unit normal along `normal` through the point with the
    /// Cartesian coordinates `point`: the normal divided by its length, and the
    /// horizon coordinate that puts the point on the plane. It is returned
    /// where it has whole coordinates that can be stored, and `None`
    /// elsewhere: for a normal of length zero, for a normal whose length is
    /// not whole or does not divide its coordinates, and for a horizon
    /// coordinate beyond the largest coordinate. A whole vector of length one
    /// lies along an axis, so only such normals give a plane.
    pub fn from_normal_point(normal: [i64; 3], point: [i64; 3]) -> (r: Option<Plane>)
        ensures
            r.is_some() <==> (exists|s: int|
                #[trigger] unit_scale(vector_of(normal), s) && divides(
                    s,
                    vector_of(normal).dot(vector_of(point)),
                ) && unit_plane(vector_of(normal), vector_of(point), s).representable()),
            forall|s: int|
                r.is_some() && #[trigger] unit_scale(vector_of(normal), s) ==> r.unwrap()@
                    == unit_plane(vector_of(normal), vector_of(point), s),
            r matches Some(plane) ==> plane@.direction.length_squared() == 1,
            r matches Some(plane) ==> plane@.incidence(
                (PointModel { direction: vector_of(point), origin: 1 }),
            ) == 0,
    {
        let ghost n = vector_of(normal);
        let ghost p = vector_of(point);
        let x: i64 = normal[0];
        let y: i64 = normal[1];
        let z: i64 = normal[2];
        proof {
            assert forall|s: int| #[trigger] unit_scale(n, s) implies lies_along_axis(n)
                && s == magnitude_of(n.x) + magnitude_of(n.y) + magnitude_of(n.z) by {
                lemma_unit_scale(n, s);
            }
            if lies_along_axis(n) {
                lemma_unit_plane(n, p);
            }
        }
        if x != 0 && y == 0 && z == 0 {
            match along_axis(x, point[0]) {
                Some((unit, w)) => Some(Plane { x: unit, y: 0, z: 0, w }),
                None => None,
            }
        } else if x == 0 && y != 0 && z == 0 {
            match along_axis(y, point[1]) {
                Some((unit, w)) => Some(Plane { x: 0, y: unit, z: 0, w }),
                None => None,
            }
        } else if x == 0 && y == 0 && z != 0 {
            match along_axis(z, point[2]) {
                Some((unit, w)) => Some(Plane { x: 0, y: 0, z: unit, w }),
                None => None,
            }
        } else {
            None
        }
    }
}

/// The plane through the point `p` whose normal is `n` divided by `s`.
pub open spec fn unit_plane(n: Vector, p: Vector, s: int) -> PlaneModel {
    PlaneModel {
        direction: Vector { x: quotient(n.x, s), y: quotient(n.y, s), z: quotient(n.z, s) },
        horizon: -quotient(n.dot(p), s),
    }
}

/// The unit coordinate and the horizon coordinate of the plane whose normal
/// has the one coordinate `c` other than zero, through a point whose
/// coordinate on that axis is `p`.
fn along_axis(c: i64, p: i64) -> (r: Option<(i64, i64)>)
    requires
        c != 0,
    ensures
        r.is_some() <==> fits(-quotient(c * p, magnitude_of(c as int))),
        r matches Some((unit, w)) ==> {
            &&& unit == quotient(c as int, magnitude_of(c as int))
            &&& w == -quotient(c * p, magnitude_of(c as int))
        },
{
    proof {
        lemma_quotient_along_axis(c as int, p as int);
    }
    if c > 0 {
        match negate(p) {
            Some(w) => Some((1, w)),
            None => None,
        }
    } else {
        Some((-1, p))
    }
}

/// The plane with unit normal along an axis, in coordinates: its normal is
/// the unit vector of that axis with the sign of the given normal, and its
/// horizon coordinate the point's coordinate on that axis with the opposite
/// sign. It has a normal of length one and contains the point.
pub proof fn lemma_unit_plane(n: Vector, p: Vector)
    requires
        lies_along_axis(n),
    ensures
        ({
            let s = magnitude_of(n.x) + magnitude_of(n.y) + magnitude_of(n.z);
            let plane = unit_plane(n, p, s);
            &&& unit_scale(n, s)
            &&& divides(s, n.dot(p))
            &&& plane.direction.length_squared() == 1
            &&& plane.incidence(PointModel { direction: p, origin: 1 }) == 0
            &&& n.x != 0 ==> plane.direction == (Vector {
                x: quotient(n.x, magnitude_of(n.x)),
                y: 0,
                z: 0,
            }) && plane.horizon == -quotient(n.x * p.x, magnitude_of(n.x))
            &&& n.y != 0 ==> plane.direction == (Vector {
                x: 0,
                y: quotient(n.y, magnitude_of(n.y)),
                z: 0,
            }) && plane.horizon == -quotient(n.y * p.y, magnitude_of(n.y))
            &&& n.z != 0 ==> plane.direction == (Vector {
                x: 0,
                y: 0,
                z: quotient(n.z, magnitude_of(n.z)),
            }) && plane.horizon == -quotient(n.z * p.z, magnitude_of(n.z))
        }),
{
    let s = magnitude_of(n.x) + magnitude_of(n.y) + magnitude_of(n.z);
    let plane = unit_plane(n, p, s);
    lemma_small_factor(n.x, p.x);
    lemma_small_factor(n.y, p.y);
    lemma_small_factor(n.z, p.z);
    lemma_small_factor(n.x, n.x);
    lemma_small_factor(n.y, n.y);
    lemma_small_factor(n.z, n.z);
    lemma_small_factor(plane.direction.x, plane.direction.x);
    lemma_small_factor(plane.direction.y, plane.direction.y);
    lemma_small_factor(plane.direction.z, plane.direction.z);
    lemma_small_factor(plane.direction.x, p.x);
    lemma_small_factor(plane.direction.y, p.y);
    lemma_small_factor(plane.direction.z, p.z);
    lemma_small_factor(1, plane.horizon);
    lemma_product_signs(s, s);
    if n.x != 0 {
        lemma_quotient_along_axis(n.x, p.x);
    } else if n.y != 0 {
        lemma_quotient_along_axis(n.y, p.y);
    } else {
        lemma_quotient_along_axis(n.z, p.z);
    }
}

} // verus!
