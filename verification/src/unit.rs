//! Unit representatives: an entity divided by the length of its weight.
//!
//! The length of a whole vector is seldom whole, and where it is it seldom
//! divides the coordinates: a whole vector of length one lies along an axis.
//! So an entity has a unit representative with whole coordinates exactly when
//! its weight lies along an axis and the magnitude of that one coordinate
//! divides all the others. `unitized` returns it, and `None` for every other
//! entity, the ones without weight included. Unitizing a second time changes
//! nothing.
use crate::algebra::{lemma_distribute, lemma_small_factor, lemma_square_is_small};
use crate::arith::{
    divides, exact_quotient, fits, lemma_quotient_exact, magnitude_of, narrow, quotient,
};
use crate::model::{LineModel, PlaneModel, Vector};
use crate::types::{Direction, Line, Plane};
use vstd::prelude::*;

verus! {

/// Whether `s` is the length of `n` and divides each of its coordinates, so
/// that `n` divided by `s` is a whole vector of length one.
pub open spec fn unit_scale(n: Vector, s: int) -> bool {
    &&& s > 0
    &&& s * s == n.length_squared()
    &&& divides(s, n.x)
    &&& divides(s, n.y)
    &&& divides(s, n.z)
}

/// Whether exactly one coordinate of `n` is not zero.
pub open spec fn lies_along_axis(n: Vector) -> bool {
    ||| n.x != 0 && n.y == 0 && n.z == 0
    ||| n.x == 0 && n.y != 0 && n.z == 0
    ||| n.x == 0 && n.y == 0 && n.z != 0
}

/// Whether `s` is the length of the direction of `q` and divides every
/// coordinate of `q`.
pub open spec fn plane_unit_scale(q: PlaneModel, s: int) -> bool {
    unit_scale(q.direction, s) && divides(s, q.horizon)
}

/// Whether `s` is the length of the direction of `l` and divides every
/// coordinate of `l`.
pub open spec fn line_unit_scale(l: LineModel, s: int) -> bool {
    &&& unit_scale(l.direction, s)
    &&& divides(s, l.moment.x)
    &&& divides(s, l.moment.y)
    &&& divides(s, l.moment.z)
}

/// The length of a vector along an axis: the magnitude of its one coordinate.
pub open spec fn axis_length(n: Vector) -> int {
    magnitude_of(n.x) + magnitude_of(n.y) + magnitude_of(n.z)
}

/// A number divided by its magnitude is its sign, and its product with
/// another number divided by its magnitude is the other number with that
/// sign.
pub proof fn lemma_quotient_along_axis(c: int, p: int)
    requires
        c != 0,
    ensures
        divides(magnitude_of(c), c),
        divides(magnitude_of(c), c * p),
        divides(magnitude_of(c), 0),
        quotient(0, magnitude_of(c)) == 0,
        quotient(c, magnitude_of(c)) == (if c > 0 {
            1int
        } else {
            -1int
        }),
        quotient(c * p, magnitude_of(c)) == (if c > 0 {
            p
        } else {
            -p
        }),
{
    let s = magnitude_of(c);
    let sign = if c > 0 {
        1int
    } else {
        -1int
    };
    let q = if c > 0 {
        p
    } else {
        -p
    };
    lemma_small_factor(sign, s);
    assert(q * s == c * p) by (nonlinear_arith)
        requires
            c != 0,
            s == (if c < 0 {
                -c
            } else {
                c
            }),
            q == (if c > 0 {
                p
            } else {
                -p
            }),
    ;
    assert(0 * s == 0);
    lemma_quotient_exact(c, s, sign);
    lemma_quotient_exact(c * p, s, q);
    lemma_quotient_exact(0, s, 0);
}

/// Only a vector along an axis has a whole length that divides its
/// coordinates, and that length is the magnitude of its one coordinate.
pub proof fn lemma_unit_scale(n: Vector, s: int)
    requires
        unit_scale(n, s),
    ensures
        lies_along_axis(n),
        s == magnitude_of(n.x) + magnitude_of(n.y) + magnitude_of(n.z),
{
    let a = quotient(n.x, s);
    let b = quotient(n.y, s);
    let c = quotient(n.z, s);
    lemma_quotient_exact(n.x, s, 0);
    lemma_quotient_exact(n.y, s, 0);
    lemma_quotient_exact(n.z, s, 0);
    let k = s * s;
    assert(n.x * n.x == (a * a) * k) by (nonlinear_arith)
        requires
            a * s == n.x,
            k == s * s,
    ;
    assert(n.y * n.y == (b * b) * k) by (nonlinear_arith)
        requires
            b * s == n.y,
            k == s * s,
    ;
    assert(n.z * n.z == (c * c) * k) by (nonlinear_arith)
        requires
            c * s == n.z,
            k == s * s,
    ;
    lemma_distribute(a * a, b * b, c * c, k);
    let t = a * a + b * b + c * c;
    assert(t == 1) by (nonlinear_arith)
        requires
            t * k == k,
            k == s * s,
            s > 0,
    ;
    lemma_square_is_small(a);
    lemma_square_is_small(b);
    lemma_square_is_small(c);
    lemma_small_factor(a, s);
    lemma_small_factor(b, s);
    lemma_small_factor(c, s);
}

/// A vector along an axis has the magnitude of its one coordinate for its
/// length, and divided by it is a vector of length one along the same axis.
pub proof fn lemma_axis_division(n: Vector)
    requires
        lies_along_axis(n),
    ensures
        unit_scale(n, axis_length(n)),
        unit_scale(n.divided(axis_length(n)), 1),
        n.divided(axis_length(n)).length_squared() == 1,
        n.divided(axis_length(n)).representable(),
{
    let s = axis_length(n);
    let u = n.divided(s);
    lemma_small_factor(n.x, n.x);
    lemma_small_factor(n.y, n.y);
    lemma_small_factor(n.z, n.z);
    lemma_small_factor(s, s);
    if n.x != 0 {
        lemma_quotient_along_axis(n.x, 0);
        lemma_square_magnitude(n.x);
    } else if n.y != 0 {
        lemma_quotient_along_axis(n.y, 0);
        lemma_square_magnitude(n.y);
    } else {
        lemma_quotient_along_axis(n.z, 0);
        lemma_square_magnitude(n.z);
    }
    lemma_small_factor(u.x, u.x);
    lemma_small_factor(u.y, u.y);
    lemma_small_factor(u.z, u.z);
    lemma_small_factor(1, 1);
    lemma_divides_by_one(u.x);
    lemma_divides_by_one(u.y);
    lemma_divides_by_one(u.z);
}

/// The square of a number is the square of its magnitude.
proof fn lemma_square_magnitude(c: int)
    ensures
        magnitude_of(c) * magnitude_of(c) == c * c,
{
    assert(magnitude_of(c) * magnitude_of(c) == c * c) by (nonlinear_arith)
        requires
            magnitude_of(c) == (if c < 0 {
                -c
            } else {
                c
            }),
    ;
}

/// One divides every number, and the quotient is the number.
pub proof fn lemma_divides_by_one(a: int)
    ensures
        divides(1, a),
        quotient(a, 1) == a,
{
    lemma_small_factor(1, a);
    lemma_quotient_exact(a, 1, a);
}

/// Unitizing twice is unitizing once: an entity divided by the length of its
/// weight has a weight of length one, and no other scale, and dividing by one
/// changes nothing.
pub proof fn lemma_unitize_idempotent(n: Vector, q: PlaneModel, l: LineModel, s: int, t: int)
    ensures
        unit_scale(n, s) && unit_scale(n.divided(s), t) ==> t == 1 && n.divided(s).divided(t)
            == n.divided(s),
        plane_unit_scale(q, s) && plane_unit_scale(q.divided(s), t) ==> t == 1 && q.divided(
            s,
        ).divided(t) == q.divided(s),
        line_unit_scale(l, s) && line_unit_scale(l.divided(s), t) ==> t == 1 && l.divided(
            s,
        ).divided(t) == l.divided(s),
        unit_scale(n, s) ==> unit_scale(n.divided(s), 1),
        plane_unit_scale(q, s) ==> plane_unit_scale(q.divided(s), 1),
        line_unit_scale(l, s) ==> line_unit_scale(l.divided(s), 1),
{
    lemma_unit_once(n, s, t);
    lemma_unit_once(q.direction, s, t);
    lemma_unit_once(l.direction, s, t);
    lemma_divides_by_one(quotient(q.horizon, s));
    lemma_divides_by_one(quotient(l.moment.x, s));
    lemma_divides_by_one(quotient(l.moment.y, s));
    lemma_divides_by_one(quotient(l.moment.z, s));
}

/// A vector divided by its length has the length one and no other.
proof fn lemma_unit_once(n: Vector, s: int, t: int)
    ensures
        unit_scale(n, s) ==> unit_scale(n.divided(s), 1),
        unit_scale(n, s) && unit_scale(n.divided(s), t) ==> t == 1 && n.divided(s).divided(t)
            == n.divided(s),
{
    if unit_scale(n, s) {
        lemma_unit_scale(n, s);
        lemma_axis_division(n);
        let u = n.divided(s);
        lemma_divides_by_one(u.x);
        lemma_divides_by_one(u.y);
        lemma_divides_by_one(u.z);
        if unit_scale(u, t) {
            lemma_square_is_small(t);
        }
    }
}

/// The one coordinate of a vector along an axis, and `None` for every other
/// vector.
fn axis_coordinate(x: i64, y: i64, z: i64) -> (r: Option<i64>)
    ensures
        r.is_some() <==> lies_along_axis(Vector::of(x, y, z)),
        r matches Some(c) ==> c != 0 && magnitude_of(c as int) == axis_length(Vector::of(x, y, z)),
{
    if x != 0 && y == 0 && z == 0 {
        Some(x)
    } else if x == 0 && y != 0 && z == 0 {
        Some(y)
    } else if x == 0 && y == 0 && z != 0 {
        Some(z)
    } else {
        None
    }
}

/// An exact quotient by a positive number lies between zero and the
/// dividend, so that it can be stored where the dividend can.
pub proof fn lemma_quotient_fits(a: int, s: int)
    requires
        s > 0,
        divides(s, a),
        fits(a),
    ensures
        fits(quotient(a, s)),
{
    let q = quotient(a, s);
    lemma_quotient_exact(a, s, 0);
    assert((a >= 0 ==> 0 <= q <= a) && (a <= 0 ==> a <= q <= 0)) by (nonlinear_arith)
        requires
            q * s == a,
            s > 0,
    ;
}

/// The quotient of `a` by the magnitude of `c`, where the magnitude divides
/// `a`.
fn divide_by_magnitude(a: i64, c: i64) -> (r: Option<i64>)
    requires
        c != 0,
    ensures
        r.is_some() <==> divides(magnitude_of(c as int), a as int),
        r matches Some(q) ==> q == quotient(a as int, magnitude_of(c as int)),
{
    match exact_quotient(a, c) {
        Some(q) => {
            let signed: i128 = if c > 0 {
                q
            } else {
                -q
            };
            proof {
                assert(signed * magnitude_of(c as int) == a) by (nonlinear_arith)
                    requires
                        q * c == a,
                        c != 0,
                        signed == (if c > 0 {
                            q as int
                        } else {
                            -q
                        }),
                        magnitude_of(c as int) == (if c < 0 {
                            -c
                        } else {
                            c as int
                        }),
                ;
                lemma_quotient_exact(a as int, magnitude_of(c as int), signed as int);
                lemma_quotient_fits(a as int, magnitude_of(c as int));
            }
            narrow(signed)
        },
        None => None,
    }
}

impl Direction {
    /// The direction of length one along `self`, where it has whole
    /// coordinates.
    pub fn unitized(&self) -> (r: Option<Direction>)
        ensures
            r.is_some() <==> (exists|s: int| #[trigger] unit_scale(self@.direction, s)),
            forall|s: int|
                r.is_some() && #[trigger] unit_scale(self@.direction, s) ==> r.unwrap()@.direction
                    == self@.direction.divided(s),
            r matches Some(u) ==> unit_scale(u@.direction, 1),
    {
        let ghost n = self@.direction;
        proof {
            assert forall|s: int| #[trigger] unit_scale(n, s) implies lies_along_axis(n) && s
                == axis_length(n) by {
                lemma_unit_scale(n, s);
            }
            if lies_along_axis(n) {
                lemma_axis_division(n);
            }
        }
        match axis_coordinate(self.x, self.y, self.z) {
            Some(c) => match (
                divide_by_magnitude(self.x, c),
                divide_by_magnitude(self.y, c),
                divide_by_magnitude(self.z, c),
            ) {
                (Some(x), Some(y), Some(z)) => Some(Direction { x, y, z }),
                _ => None,
            },
            None => None,
        }
    }

    /// Replaces the direction by the direction of length one along it, where
    /// that has whole coordinates, and says whether it did.
    pub fn unitize(&mut self) -> (done: bool)
        ensures
            done <==> (exists|s: int| #[trigger] unit_scale(old(self)@.direction, s)),
            forall|s: int|
                done && #[trigger] unit_scale(old(self)@.direction, s) ==> final(self)@.direction
                    == old(self)@.direction.divided(s),
            done ==> unit_scale(final(self)@.direction, 1),
            !done ==> *final(self) == *old(self),
    {
        match self.unitized() {
            Some(u) => {
                *self = u;
                true
            },
            None => false,
        }
    }
}

impl Plane {
    /// The same plane with a normal of length one, where it has whole
    /// coordinates.
    pub fn unitized(&self) -> (r: Option<Plane>)
        ensures
            r.is_some() <==> (exists|s: int| #[trigger] plane_unit_scale(self@, s)),
            forall|s: int|
                r.is_some() && #[trigger] plane_unit_scale(self@, s) ==> r.unwrap()@
                    == self@.divided(s),
            r matches Some(u) ==> plane_unit_scale(u@, 1),
    {
        let ghost n = self@.direction;
        proof {
            assert forall|s: int| #[trigger] plane_unit_scale(self@, s) implies lies_along_axis(n)
                && s == axis_length(n) by {
                lemma_unit_scale(n, s);
            }
            if lies_along_axis(n) {
                lemma_axis_division(n);
                lemma_divides_by_one(quotient(self@.horizon, axis_length(n)));
                if divides(axis_length(n), self@.horizon) {
                    assert(plane_unit_scale(self@, axis_length(n)));
                }
            }
        }
        match axis_coordinate(self.x, self.y, self.z) {
            Some(c) => match (
                divide_by_magnitude(self.x, c),
                divide_by_magnitude(self.y, c),
                divide_by_magnitude(self.z, c),
                divide_by_magnitude(self.w, c),
            ) {
                (Some(x), Some(y), Some(z), Some(w)) => Some(Plane { x, y, z, w }),
                _ => None,
            },
            None => None,
        }
    }

    /// Replaces the plane by its representative with a normal of length one,
    /// where that has whole coordinates, and says whether it did.
    pub fn unitize(&mut self) -> (done: bool)
        ensures
            done <==> (exists|s: int| #[trigger] plane_unit_scale(old(self)@, s)),
            forall|s: int|
                done && #[trigger] plane_unit_scale(old(self)@, s) ==> final(self)@ == old(
                    self,
                )@.divided(s),
            done ==> plane_unit_scale(final(self)@, 1),
            !done ==> *final(self) == *old(self),
    {
        match self.unitized() {
            Some(u) => {
                *self = u;
                true
            },
            None => false,
        }
    }
}

impl Line {
    /// The same line with a direction of length one, where it has whole
    /// coordinates.
    pub fn unitized(&self) -> (r: Option<Line>)
        ensures
            r.is_some() <==> (exists|s: int| #[trigger] line_unit_scale(self@, s)),
            forall|s: int|
                r.is_some() && #[trigger] line_unit_scale(self@, s) ==> r.unwrap()@
                    == self@.divided(s),
            r matches Some(u) ==> line_unit_scale(u@, 1),
    {
        let ghost n = self@.direction;
        proof {
            assert forall|s: int| #[trigger] line_unit_scale(self@, s) implies lies_along_axis(n)
                && s == axis_length(n) by {
                lemma_unit_scale(n, s);
            }
            if lies_along_axis(n) {
                lemma_axis_division(n);
                lemma_divides_by_one(quotient(self@.moment.x, axis_length(n)));
                lemma_divides_by_one(quotient(self@.moment.y, axis_length(n)));
                lemma_divides_by_one(quotient(self@.moment.z, axis_length(n)));
                if divides(axis_length(n), self@.moment.x) && divides(
                    axis_length(n),
                    self@.moment.y,
                ) && divides(axis_length(n), self@.moment.z) {
                    assert(line_unit_scale(self@, axis_length(n)));
                }
            }
        }
        match axis_coordinate(self.vx, self.vy, self.vz) {
            Some(c) => {
                let direction = (
                    divide_by_magnitude(self.vx, c),
                    divide_by_magnitude(self.vy, c),
                    divide_by_magnitude(self.vz, c),
                );
                let moment = (
                    divide_by_magnitude(self.mx, c),
                    divide_by_magnitude(self.my, c),
                    divide_by_magnitude(self.mz, c),
                );
                match (direction, moment) {
                    ((Some(vx), Some(vy), Some(vz)), (Some(mx), Some(my), Some(mz))) => Some(
                        Line { vx, vy, vz, mx, my, mz },
                    ),
                    _ => None,
                }
            },
            None => None,
        }
    }

    /// Replaces the line by its representative with a direction of length
    /// one, where that has whole coordinates, and says whether it did.
    pub fn unitize(&mut self) -> (done: bool)
        ensures
            done <==> (exists|s: int| #[trigger] line_unit_scale(old(self)@, s)),
            forall|s: int|
                done && #[trigger] line_unit_scale(old(self)@, s) ==> final(self)@ == old(
                    self,
                )@.divided(s),
            done ==> line_unit_scale(final(self)@, 1),
            !done ==> *final(self) == *old(self),
    {
        match self.unitized() {
            Some(u) => {
                *self = u;
                true
            },
            None => false,
        }
    }
}

} // verus!
