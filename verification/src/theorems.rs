//! What holds of join, meet and dual for all operands.
//!
//! The statements are about the model, in which the executable operations
//! state their results. They hold exactly, for every choice of integer
//! coordinates.
use crate::algebra::{
    lemma_cross_antisymmetric, lemma_cross_distributes, lemma_cross_of_cross, lemma_cross_parallel,
    lemma_cross_perpendicular, lemma_cross_scaled, lemma_cross_with_cross, lemma_dot_distributes,
    lemma_dot_scaled, lemma_dot_symmetric, lemma_expand_difference, lemma_product_signs,
    lemma_reorder, lemma_sum_times, lemma_times_one, lemma_times_zero, lemma_triple_product,
    lemma_zero_product, lemma_zero_vector,
};
use crate::model::{LineModel, PlaneModel, PointModel, Vector};
use vstd::prelude::*;

verus! {

/// The join of two points is antisymmetric: the line from `a` to `b` is the
/// negative of the line from `b` to `a`.
pub proof fn lemma_join_points_antisymmetric(a: PointModel, b: PointModel)
    ensures
        a.join(b) == b.join(a).negated(),
{
    lemma_cross_antisymmetric(a.direction, b.direction);
}

/// The join of a point and a line is antisymmetric.
pub proof fn lemma_join_point_line_antisymmetric(p: PointModel, l: LineModel)
    ensures
        p.join_line(l) == l.join_point(p).negated(),
        l.join_point(p) == p.join_line(l).negated(),
{
}

/// The meet of two planes is antisymmetric.
pub proof fn lemma_meet_planes_antisymmetric(a: PlaneModel, b: PlaneModel)
    ensures
        a.meet(b) == b.meet(a).negated(),
{
    lemma_cross_antisymmetric(b.direction, a.direction);
}

/// The meet of a plane and a line is antisymmetric.
pub proof fn lemma_meet_plane_line_antisymmetric(p: PlaneModel, l: LineModel)
    ensures
        l.meet_plane(p) == p.meet_line(l).negated(),
        p.meet_line(l) == l.meet_plane(p).negated(),
{
}

/// The dual applied twice is the identity on lines and the negation on
/// points and planes, and so on their parts: it negates a direction, an
/// origin, a plane direction and a horizon, and it returns a line direction
/// and a moment unchanged.
pub proof fn lemma_dual_involution(p: PointModel, l: LineModel, q: PlaneModel)
    ensures
        p.dual().dual() == p.negated(),
        l.dual().dual() == l,
        q.dual().dual() == q.negated(),
{
}

/// A point joined with itself, or with a multiple of itself, is the zero
/// line.
pub proof fn lemma_join_identical_points(a: PointModel, k: int)
    ensures
        a.join(a).is_zero(),
        a.join(a.scaled(k)).is_zero(),
        a.scaled(k).join(a).is_zero(),
{
    let d = a.direction;
    lemma_cross_parallel(d, k);
    lemma_reorder(d.x, k, a.origin);
    lemma_reorder(d.x, a.origin, k);
    lemma_reorder(d.y, k, a.origin);
    lemma_reorder(d.y, a.origin, k);
    lemma_reorder(d.z, k, a.origin);
    lemma_reorder(d.z, a.origin, k);
}

/// The plane through a line and a point is a linear function of the point.
pub proof fn lemma_join_point_linear(l: LineModel, p: PointModel, q: PointModel, s: int, t: int)
    ensures
        l.join_point(p.scaled(s)) == l.join_point(p).scaled(s),
        l.join_point(p.plus(q)) == l.join_point(p).plus(l.join_point(q)),
        l.join_point(p.scaled(s).plus(q.scaled(t))) == l.join_point(p).scaled(s).plus(
            l.join_point(q).scaled(t),
        ),
{
    lemma_join_point_scaled(l, p, s);
    lemma_join_point_scaled(l, q, t);
    lemma_join_point_added(l, p, q);
    lemma_join_point_added(l, p.scaled(s), q.scaled(t));
}

/// The plane through a line and a multiple of a point is the multiple of the
/// plane through the line and the point.
proof fn lemma_join_point_scaled(l: LineModel, p: PointModel, s: int)
    ensures
        l.join_point(p.scaled(s)) == l.join_point(p).scaled(s),
{
    let v = l.direction;
    let m = l.moment;
    let d = p.direction;
    let c = v.cross(d);
    lemma_cross_scaled(v, d, s);
    lemma_dot_scaled(m, d, s);
    lemma_product_signs(m.dot(d), s);
    lemma_reorder(m.x, p.origin, s);
    lemma_reorder(m.y, p.origin, s);
    lemma_reorder(m.z, p.origin, s);
    lemma_sum_times(c.x, m.x * p.origin, s);
    lemma_sum_times(c.y, m.y * p.origin, s);
    lemma_sum_times(c.z, m.z * p.origin, s);
}

/// The plane through a line and a sum of points is the sum of the planes
/// through the line and each point.
proof fn lemma_join_point_added(l: LineModel, p: PointModel, q: PointModel)
    ensures
        l.join_point(p.plus(q)) == l.join_point(p).plus(l.join_point(q)),
{
    let v = l.direction;
    let m = l.moment;
    lemma_cross_distributes(p.direction, q.direction, v);
    lemma_dot_distributes(p.direction, q.direction, m);
    lemma_sum_times(p.origin, q.origin, m.x);
    lemma_sum_times(p.origin, q.origin, m.y);
    lemma_sum_times(p.origin, q.origin, m.z);
}

/// The line through two points, joined with either of them, is the zero
/// plane.
pub proof fn lemma_join_line_with_its_points(a: PointModel, b: PointModel)
    ensures
        a.join(b).join_point(a).is_zero(),
        a.join(b).join_point(b).is_zero(),
{
    let l = a.join(b);
    let m = a.direction.cross(b.direction);
    let from_b = b.direction.scaled(a.origin);
    let from_a = a.direction.scaled(b.origin);
    lemma_cross_perpendicular(a.direction, b.direction);
    // The direction of the line, crossed with each point.
    lemma_cross_distributes(from_b, from_a, a.direction);
    lemma_cross_distributes(from_b, from_a, b.direction);
    lemma_cross_scaled(b.direction, a.direction, a.origin);
    lemma_cross_scaled(a.direction, b.direction, b.origin);
    lemma_cross_scaled(a.direction, a.direction, b.origin);
    lemma_cross_scaled(b.direction, b.direction, a.origin);
    lemma_cross_parallel(a.direction, 1);
    lemma_cross_parallel(b.direction, 1);
    lemma_cross_antisymmetric(b.direction, a.direction);
    lemma_product_signs(m.x, a.origin);
    lemma_product_signs(m.y, a.origin);
    lemma_product_signs(m.z, a.origin);
}

/// Three points on one line join in the zero plane: where a multiple of `c`
/// other than zero is a combination of `a` and `b`, the line through `a` and
/// `b` joined with `c` is zero.
pub proof fn lemma_join_collinear_points(
    a: PointModel,
    b: PointModel,
    c: PointModel,
    s: int,
    t: int,
    k: int,
)
    requires
        k != 0,
        c.scaled(k) == a.scaled(s).plus(b.scaled(t)),
    ensures
        a.join(b).join_point(c).is_zero(),
{
    let l = a.join(b);
    let plane = l.join_point(c);
    lemma_join_point_linear(l, a, b, s, t);
    lemma_join_point_linear(l, c, c, k, k);
    lemma_join_line_with_its_points(a, b);
    assert(plane.scaled(k).is_zero());
    lemma_zero_product(k, plane.direction.x);
    lemma_zero_product(k, plane.direction.y);
    lemma_zero_product(k, plane.direction.z);
    lemma_zero_product(k, plane.horizon);
}

/// Two parallel planes meet in a line without direction, a line at infinity,
/// and a plane meets a multiple of itself in the zero line.
pub proof fn lemma_meet_parallel_planes(a: PlaneModel, b: PlaneModel, k: int)
    requires
        b.direction == a.direction.scaled(k),
    ensures
        a.meet(b).direction.is_zero(),
        b.meet(a).direction.is_zero(),
        a.meet(a).is_zero(),
        a.meet(a.scaled(k)).is_zero(),
        a.scaled(k).meet(a).is_zero(),
{
    let n = a.direction;
    lemma_cross_parallel(n, k);
    lemma_reorder(n.x, k, a.horizon);
    lemma_reorder(n.x, a.horizon, k);
    lemma_reorder(n.y, k, a.horizon);
    lemma_reorder(n.y, a.horizon, k);
    lemma_reorder(n.z, k, a.horizon);
    lemma_reorder(n.z, a.horizon, k);
}

/// A line parallel to a plane meets it in a point without weight: a
/// direction, or the zero point.
pub proof fn lemma_meet_parallel_line(plane: PlaneModel, line: LineModel)
    requires
        line.direction.dot(plane.direction) == 0,
    ensures
        plane.meet_line(line).origin == 0,
        line.meet_plane(plane).origin == 0,
{
}

/// The point in which a plane meets the line through `a` and `b` is the
/// combination of `a` and `b` whose coefficients are what the plane equation
/// gives at the other point.
pub proof fn lemma_meet_plane_with_join(plane: PlaneModel, a: PointModel, b: PointModel)
    ensures
        plane.meet_line(a.join(b)) == b.scaled(plane.incidence(a)).plus(
            a.scaled(plane.incidence(b)).negated(),
        ),
{
    let n = plane.direction;
    let h = plane.horizon;
    let u = a.direction;
    let v = b.direction;
    let at_a = plane.incidence(a);
    let at_b = plane.incidence(b);
    lemma_cross_of_cross(u, v, n);
    lemma_dot_symmetric(u, n);
    lemma_dot_symmetric(v, n);
    lemma_expand_difference(v.x, a.origin, u.x, b.origin, h);
    lemma_expand_difference(v.y, a.origin, u.y, b.origin, h);
    lemma_expand_difference(v.z, a.origin, u.z, b.origin, h);
    lemma_sum_times(n.dot(u), h * a.origin, v.x);
    lemma_sum_times(n.dot(u), h * a.origin, v.y);
    lemma_sum_times(n.dot(u), h * a.origin, v.z);
    lemma_sum_times(n.dot(u), h * a.origin, b.origin);
    lemma_sum_times(n.dot(v), h * b.origin, u.x);
    lemma_sum_times(n.dot(v), h * b.origin, u.y);
    lemma_sum_times(n.dot(v), h * b.origin, u.z);
    lemma_sum_times(n.dot(v), h * b.origin, a.origin);
    lemma_reorder(v.x, a.origin, h);
    lemma_reorder(v.x, h, a.origin);
    lemma_reorder(v.y, a.origin, h);
    lemma_reorder(v.y, h, a.origin);
    lemma_reorder(v.z, a.origin, h);
    lemma_reorder(v.z, h, a.origin);
    lemma_reorder(u.x, b.origin, h);
    lemma_reorder(u.x, h, b.origin);
    lemma_reorder(u.y, b.origin, h);
    lemma_reorder(u.y, h, b.origin);
    lemma_reorder(u.z, b.origin, h);
    lemma_reorder(u.z, h, b.origin);
    lemma_reorder(b.origin, h, a.origin);
    lemma_reorder(a.origin, h, b.origin);
    // The weight of the point.
    lemma_dot_distributes(v.scaled(a.origin), u.scaled(b.origin), n);
    lemma_dot_scaled(v, n, a.origin);
    lemma_dot_scaled(u, n, b.origin);
    lemma_product_signs(n.dot(u), b.origin);
    lemma_product_signs(n.dot(v), a.origin);
}

/// A plane meets a line that lies in it in the zero point: where `a` and `b`
/// are on the plane, the plane and the line through them have no single
/// point in common.
pub proof fn lemma_meet_line_in_plane(plane: PlaneModel, a: PointModel, b: PointModel)
    requires
        plane.incidence(a) == 0,
        plane.incidence(b) == 0,
    ensures
        plane.meet_line(a.join(b)).is_zero(),
{
    lemma_meet_plane_with_join(plane, a, b);
}

/// The meet is the dual of the join of the duals, for each pair of operands.
pub proof fn lemma_meet_is_dual_of_join(a: PlaneModel, b: PlaneModel, l: LineModel)
    ensures
        a.meet(b) == a.dual().join(b.dual()).dual(),
        a.meet_line(l) == a.dual().join_line(l.dual()).dual(),
        l.meet_plane(a) == l.dual().join_point(a.dual()).dual(),
{
    let n = a.direction;
    let o = b.direction;
    let v = l.direction;
    let m = l.moment;
    lemma_product_signs(n.x, o.y);
    lemma_product_signs(n.x, o.z);
    lemma_product_signs(n.y, o.x);
    lemma_product_signs(n.y, o.z);
    lemma_product_signs(n.z, o.x);
    lemma_product_signs(n.z, o.y);
    lemma_product_signs(n.x, b.horizon);
    lemma_product_signs(n.y, b.horizon);
    lemma_product_signs(n.z, b.horizon);
    lemma_product_signs(o.x, a.horizon);
    lemma_product_signs(o.y, a.horizon);
    lemma_product_signs(o.z, a.horizon);
    lemma_product_signs(m.x, n.y);
    lemma_product_signs(m.x, n.z);
    lemma_product_signs(m.y, n.x);
    lemma_product_signs(m.y, n.z);
    lemma_product_signs(m.z, n.x);
    lemma_product_signs(m.z, n.y);
    lemma_product_signs(v.x, a.horizon);
    lemma_product_signs(v.y, a.horizon);
    lemma_product_signs(v.z, a.horizon);
    lemma_product_signs(v.x, n.x);
    lemma_product_signs(v.y, n.y);
    lemma_product_signs(v.z, n.z);
}

/// The plane through a line and a point contains the point, whatever the
/// line.
pub proof fn lemma_join_contains_point(l: LineModel, p: PointModel)
    ensures
        l.join_point(p).incidence(p) == 0,
        p.join_line(l).incidence(p) == 0,
{
    let v = l.direction;
    let m = l.moment;
    let d = p.direction;
    let plane = l.join_point(p);
    lemma_dot_distributes(v.cross(d), m.scaled(p.origin), d);
    lemma_cross_perpendicular(v, d);
    lemma_dot_scaled(m, d, p.origin);
    lemma_product_signs(m.dot(d), p.origin);
    lemma_incidence_negated(plane, p);
}

/// The plane equation of the opposite plane has the opposite value.
pub proof fn lemma_incidence_negated(plane: PlaneModel, p: PointModel)
    ensures
        plane.negated().incidence(p) == -plane.incidence(p),
        plane.incidence(p.negated()) == -plane.incidence(p),
{
    let n = plane.direction;
    let d = p.direction;
    lemma_product_signs(n.x, d.x);
    lemma_product_signs(n.y, d.y);
    lemma_product_signs(n.z, d.z);
    lemma_product_signs(plane.horizon, p.origin);
}

/// For a fixed line, the plane through one point evaluated at another
/// changes sign when the two points change places.
pub proof fn lemma_join_incidence_antisymmetric(l: LineModel, p: PointModel, q: PointModel)
    ensures
        l.join_point(p).incidence(q) == -l.join_point(q).incidence(p),
{
    let v = l.direction;
    let m = l.moment;
    lemma_triple_product(v, p.direction, q.direction);
    lemma_dot_distributes(v.cross(p.direction), m.scaled(p.origin), q.direction);
    lemma_dot_distributes(v.cross(q.direction), m.scaled(q.origin), p.direction);
    lemma_dot_scaled(m, q.direction, p.origin);
    lemma_dot_scaled(m, p.direction, q.origin);
    lemma_product_signs(m.dot(p.direction), q.origin);
    lemma_product_signs(m.dot(q.direction), p.origin);
}

/// The plane through three points contains each of them.
pub proof fn lemma_join_contains_points(a: PointModel, b: PointModel, c: PointModel)
    ensures
        a.join(b).join_point(c).incidence(a) == 0,
        a.join(b).join_point(c).incidence(b) == 0,
        a.join(b).join_point(c).incidence(c) == 0,
{
    let l = a.join(b);
    lemma_join_contains_point(l, c);
    lemma_join_incidence_antisymmetric(l, c, a);
    lemma_join_incidence_antisymmetric(l, c, b);
    lemma_join_line_with_its_points(a, b);
    lemma_zero_plane(l.join_point(a), c);
    lemma_zero_plane(l.join_point(b), c);
}

/// The zero plane has the value zero at every point.
proof fn lemma_zero_plane(plane: PlaneModel, p: PointModel)
    requires
        plane.is_zero(),
    ensures
        plane.incidence(p) == 0,
{
}

/// The point in which a line meets a plane lies on the plane, whatever the
/// line.
pub proof fn lemma_meet_lies_on_plane(plane: PlaneModel, l: LineModel)
    ensures
        plane.incidence(plane.meet_line(l)) == 0,
        plane.incidence(l.meet_plane(plane)) == 0,
{
    let n = plane.direction;
    let v = l.direction;
    let m = l.moment;
    lemma_dot_distributes(m.cross(n), v.scaled(plane.horizon), n);
    lemma_cross_perpendicular(m, n);
    lemma_dot_scaled(n, v, plane.horizon);
    lemma_dot_symmetric(n, v);
    lemma_product_signs(plane.horizon, v.dot(n));
    lemma_incidence_negated(plane, plane.meet_line(l));
}

/// The line in which two planes meet, met with either of them, is the zero
/// point.
pub proof fn lemma_meet_plane_with_its_line(a: PlaneModel, b: PlaneModel)
    ensures
        a.meet_line(a.meet(b)).is_zero(),
        b.meet_line(a.meet(b)).is_zero(),
{
    let n = a.direction;
    let o = b.direction;
    let from_a = n.scaled(b.horizon);
    let from_b = o.scaled(a.horizon);
    let across = o.cross(n);
    lemma_cross_perpendicular(o, n);
    lemma_cross_distributes(from_a, from_b, n);
    lemma_cross_distributes(from_a, from_b, o);
    lemma_cross_scaled(n, n, b.horizon);
    lemma_cross_scaled(o, n, a.horizon);
    lemma_cross_scaled(n, o, b.horizon);
    lemma_cross_scaled(o, o, a.horizon);
    lemma_cross_parallel(n, 1);
    lemma_cross_parallel(o, 1);
    lemma_cross_antisymmetric(n, o);
    lemma_product_signs(across.x, b.horizon);
    lemma_product_signs(across.y, b.horizon);
    lemma_product_signs(across.z, b.horizon);
}

/// For a fixed line, one plane evaluated at the point in which the line
/// meets another changes sign when the two planes change places.
pub proof fn lemma_meet_incidence_antisymmetric(l: LineModel, a: PlaneModel, b: PlaneModel)
    ensures
        a.incidence(b.meet_line(l)) == -b.incidence(a.meet_line(l)),
{
    let v = l.direction;
    let m = l.moment;
    let n = a.direction;
    let o = b.direction;
    lemma_triple_product(m, o, n);
    lemma_dot_symmetric(n, m.cross(o));
    lemma_dot_symmetric(o, m.cross(n));
    lemma_dot_distributes(m.cross(o), v.scaled(b.horizon), n);
    lemma_dot_distributes(m.cross(n), v.scaled(a.horizon), o);
    lemma_dot_scaled(n, v, b.horizon);
    lemma_dot_scaled(o, v, a.horizon);
    lemma_dot_symmetric(n, v);
    lemma_dot_symmetric(o, v);
    lemma_product_signs(a.horizon, v.dot(o));
    lemma_product_signs(b.horizon, v.dot(n));
}

/// The point in which three planes meet lies on each of them.
pub proof fn lemma_meet_lies_on_planes(a: PlaneModel, b: PlaneModel, c: PlaneModel)
    ensures
        a.incidence(a.meet(b).meet_plane(c)) == 0,
        b.incidence(a.meet(b).meet_plane(c)) == 0,
        c.incidence(a.meet(b).meet_plane(c)) == 0,
{
    let l = a.meet(b);
    let p = c.meet_line(l);
    lemma_meet_lies_on_plane(c, l);
    lemma_meet_incidence_antisymmetric(l, a, c);
    lemma_meet_incidence_antisymmetric(l, b, c);
    lemma_meet_plane_with_its_line(a, b);
    lemma_zero_point(c, a.meet_line(l));
    lemma_zero_point(c, b.meet_line(l));
    lemma_incidence_negated(a, p);
    lemma_incidence_negated(b, p);
}

/// Every plane has the value zero at the zero point.
proof fn lemma_zero_point(plane: PlaneModel, p: PointModel)
    requires
        p.is_zero(),
    ensures
        plane.incidence(p) == 0,
{
}

/// The line through a point at right angles to a plane passes through the
/// point and runs along the plane's normal.
pub proof fn lemma_perpendicular_line(plane: PlaneModel, p: PointModel)
    ensures
        plane.perpendicular_line(p).join_point(p).is_zero(),
        plane.perpendicular_line(p).direction == plane.direction.scaled(-p.origin),
{
    let n = plane.direction;
    let q = plane.weight().dual();
    lemma_join_line_with_its_points(p, q);
    lemma_product_signs(n.x, p.origin);
    lemma_product_signs(n.y, p.origin);
    lemma_product_signs(n.z, p.origin);
    lemma_times_zero(p.direction.x, q.origin);
    lemma_times_zero(p.direction.y, q.origin);
    lemma_times_zero(p.direction.z, q.origin);
}


/// The projection of a point onto a plane in closed form: the point scaled
/// by the squared length of the normal, moved back along the normal by what
/// the plane equation gives at the point.
pub proof fn lemma_projection_of_point(plane: PlaneModel, p: PointModel)
    ensures
        plane.project_point(p) == (PointModel {
            direction: p.direction.scaled(plane.direction.length_squared()).minus(
                plane.direction.scaled(plane.incidence(p)),
            ),
            origin: p.origin * plane.direction.length_squared(),
        }),
{
    let n = plane.direction;
    let h = plane.horizon;
    let d = p.direction;
    let w = p.origin;
    let nn = n.dot(n);
    let back = n.negated();
    let line = plane.perpendicular_line(p);
    lemma_perpendicular_line(plane, p);
    assert(line.moment == d.cross(back));
    lemma_cross_of_cross(d, back, n);
    lemma_dot_symmetric(d, n);
    lemma_product_signs(n.x, n.x);
    lemma_product_signs(n.y, n.y);
    lemma_product_signs(n.z, n.z);
    assert(back.dot(n) == -nn);
    lemma_product_signs(d.x, nn);
    lemma_product_signs(d.y, nn);
    lemma_product_signs(d.z, nn);
    lemma_product_signs(n.x, d.dot(n));
    lemma_product_signs(n.y, d.dot(n));
    lemma_product_signs(n.z, d.dot(n));
    lemma_product_signs(n.x, w);
    lemma_product_signs(n.y, w);
    lemma_product_signs(n.z, w);
    lemma_product_signs(n.x * w, h);
    lemma_product_signs(n.y * w, h);
    lemma_product_signs(n.z * w, h);
    lemma_sum_times(n.dot(d), h * w, n.x);
    lemma_sum_times(n.dot(d), h * w, n.y);
    lemma_sum_times(n.dot(d), h * w, n.z);
    lemma_reorder(n.x, h, w);
    lemma_reorder(n.x, w, h);
    lemma_reorder(n.y, h, w);
    lemma_reorder(n.y, w, h);
    lemma_reorder(n.z, h, w);
    lemma_reorder(n.z, w, h);
    lemma_product_signs(n.x, plane.incidence(p));
    lemma_product_signs(n.y, plane.incidence(p));
    lemma_product_signs(n.z, plane.incidence(p));
    // The weight.
    lemma_dot_scaled(n, n, -w);
    lemma_product_signs(nn, w);
}

/// The projection of a point onto a plane lies on the plane, and a point of
/// the plane projects onto itself, scaled by the squared length of the
/// normal.
pub proof fn lemma_projection_lies_on_plane(plane: PlaneModel, p: PointModel)
    ensures
        plane.incidence(plane.project_point(p)) == 0,
        plane.incidence(p) == 0 ==> plane.project_point(p) == p.scaled(
            plane.direction.length_squared(),
        ),
{
    lemma_meet_lies_on_plane(plane, plane.perpendicular_line(p));
    lemma_projection_of_point(plane, p);
}

/// The projection of a plane onto a point in closed form. It passes through
/// the point, and its normal is the normal of the plane with the opposite
/// sign, scaled by the square of the point's weight.
pub proof fn lemma_projection_of_plane(plane: PlaneModel, p: PointModel)
    ensures
        plane.project_onto_point(p) == (PlaneModel {
            direction: plane.direction.scaled(-(p.origin * p.origin)),
            horizon: plane.direction.dot(p.direction) * p.origin,
        }),
        plane.project_onto_point(p).incidence(p) == 0,
{
    let n = plane.direction;
    let d = p.direction;
    let w = p.origin;
    let line = plane.perpendicular_line(p);
    let around = line.weight().dual();
    lemma_perpendicular_line(plane, p);
    lemma_join_contains_point(around, p);
    lemma_cross_parallel(d, 0);
    assert(around.direction.is_zero());
    assert(around.moment == n.scaled(-w).negated());
    lemma_product_signs(n.x, w);
    lemma_product_signs(n.y, w);
    lemma_product_signs(n.z, w);
    lemma_product_signs(n.x * w, w);
    lemma_product_signs(n.y * w, w);
    lemma_product_signs(n.z * w, w);
    lemma_reorder(n.x, w, w);
    lemma_reorder(n.y, w, w);
    lemma_reorder(n.z, w, w);
    lemma_product_signs(n.x, w * w);
    lemma_product_signs(n.y, w * w);
    lemma_product_signs(n.z, w * w);
    lemma_dot_scaled(n, d, w);
    assert(around.moment == n.scaled(w));
    assert(Vector::zero().cross(d).is_zero());
}

/// The projection of a line onto a plane lies in the plane.
pub proof fn lemma_projection_of_line(plane: PlaneModel, l: LineModel)
    ensures
        plane.meet_line(plane.project_line(l)).is_zero(),
{
    lemma_meet_plane_with_its_line(plane, plane.perpendicular_plane(l));
}

/// The line through two points and the line in which two planes meet are
/// lines in space: their direction is at right angles to their moment.
pub proof fn lemma_join_and_meet_are_lines(
    a: PointModel,
    b: PointModel,
    p: PlaneModel,
    q: PlaneModel,
)
    ensures
        a.join(b).direction.dot(a.join(b).moment) == 0,
        p.meet(q).direction.dot(p.meet(q).moment) == 0,
{
    let c = a.direction.cross(b.direction);
    lemma_cross_perpendicular(a.direction, b.direction);
    lemma_dot_distributes(b.direction.scaled(a.origin), a.direction.scaled(b.origin), c);
    lemma_dot_scaled(b.direction, c, a.origin);
    lemma_dot_scaled(a.direction, c, b.origin);
    lemma_times_zero(a.origin, b.direction.dot(c));
    lemma_times_zero(b.origin, a.direction.dot(c));
    let d = q.direction.cross(p.direction);
    lemma_cross_perpendicular(q.direction, p.direction);
    lemma_dot_distributes(p.direction.scaled(q.horizon), q.direction.scaled(p.horizon), d);
    lemma_dot_scaled(d, p.direction, q.horizon);
    lemma_dot_scaled(d, q.direction, p.horizon);
    lemma_times_zero(q.horizon, d.dot(p.direction));
    lemma_times_zero(p.horizon, d.dot(q.direction));
}

/// The point in which a line in space meets a plane lies on the line: joined
/// with it, the line gives the zero plane.
pub proof fn lemma_meet_lies_on_line(plane: PlaneModel, l: LineModel)
    requires
        l.direction.dot(l.moment) == 0,
    ensures
        l.join_point(plane.meet_line(l)).is_zero(),
        l.join_point(l.meet_plane(plane)).is_zero(),
{
    let n = plane.direction;
    let h = plane.horizon;
    let v = l.direction;
    let m = l.moment;
    let x = plane.meet_line(l);
    lemma_cross_distributes(m.cross(n), v.scaled(h), v);
    lemma_cross_with_cross(v, m, n);
    lemma_cross_scaled(v, v, h);
    lemma_cross_parallel(v, 1);
    lemma_zero_vector(n);
    lemma_times_zero(n.x, v.dot(m));
    lemma_times_zero(n.y, v.dot(m));
    lemma_times_zero(n.z, v.dot(m));
    lemma_times_zero(h, v.cross(v).x);
    lemma_times_zero(h, v.cross(v).y);
    lemma_times_zero(h, v.cross(v).z);
    lemma_product_signs(m.x, v.dot(n));
    lemma_product_signs(m.y, v.dot(n));
    lemma_product_signs(m.z, v.dot(n));
    // The horizon coordinate.
    lemma_dot_distributes(m.cross(n), v.scaled(h), m);
    lemma_cross_perpendicular(m, n);
    lemma_dot_scaled(m, v, h);
    lemma_dot_symmetric(m, v);
    lemma_times_zero(h, m.dot(v));
    assert(l.join_point(x).is_zero());
    lemma_join_point_linear(l, x, x, -1, 0);
    lemma_times_one(x.origin, 1);
    assert(x.scaled(-1) == x.negated());
}

/// Two finite points of weight one join in a line whose direction is their
/// difference, so that the line is zero exactly when the points are the
/// same.
pub proof fn lemma_join_finite_points(a: PointModel, b: PointModel)
    requires
        a.origin == 1,
        b.origin == 1,
    ensures
        a.join(b).direction == b.direction.minus(a.direction),
        a.join(b).is_zero() <==> a == b,
{
    lemma_times_one(a.direction.x, b.origin);
    lemma_times_one(a.direction.y, b.origin);
    lemma_times_one(a.direction.z, b.origin);
    lemma_times_one(b.direction.x, a.origin);
    lemma_times_one(b.direction.y, a.origin);
    lemma_times_one(b.direction.z, a.origin);
    if a == b {
        lemma_join_identical_points(a, 1);
    }
}

} // verus!
