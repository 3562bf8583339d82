//! How large the coordinates of a join or a meet can be.
//!
//! An operator requires that its result can be stored. These bounds let a
//! caller show that from the size of the operands: where no coordinate of one
//! operand exceeds `m` and none of the other exceeds `n`, a line that they
//! make stays within `2 * m * n`, and a point or a plane within `3 * m * n`.
use crate::model::{LineModel, PlaneModel, PointModel, Vector};
use vstd::prelude::*;

verus! {

/// The product of two bounded numbers is bounded by the product of the
/// bounds.
pub proof fn lemma_product_within(x: int, y: int, m: int, n: int)
    requires
        -m <= x <= m,
        -n <= y <= n,
    ensures
        -(m * n) <= x * y <= m * n,
{
    assert(-(m * n) <= x * y <= m * n) by (nonlinear_arith)
        requires
            -m <= x <= m,
            -n <= y <= n,
    {
        assert((m - x) * (n - y) >= 0);
        assert((m + x) * (n + y) >= 0);
        assert((m - x) * (n + y) >= 0);
        assert((m + x) * (n - y) >= 0);
    }
}

/// The cross product of two bounded vectors stays within twice the product
/// of the bounds, their dot product within three times, and a multiple of a
/// bounded vector within the product of its bound and the factor's.
pub proof fn lemma_vector_products_within(a: Vector, b: Vector, k: int, m: int, n: int)
    requires
        a.within(m),
        b.within(n),
        -n <= k <= n,
    ensures
        a.cross(b).within(2 * (m * n)),
        -(3 * (m * n)) <= a.dot(b) <= 3 * (m * n),
        a.scaled(k).within(m * n),
{
    lemma_product_within(a.x, b.x, m, n);
    lemma_product_within(a.x, b.y, m, n);
    lemma_product_within(a.x, b.z, m, n);
    lemma_product_within(a.y, b.x, m, n);
    lemma_product_within(a.y, b.y, m, n);
    lemma_product_within(a.y, b.z, m, n);
    lemma_product_within(a.z, b.x, m, n);
    lemma_product_within(a.z, b.y, m, n);
    lemma_product_within(a.z, b.z, m, n);
    lemma_product_within(a.x, k, m, n);
    lemma_product_within(a.y, k, m, n);
    lemma_product_within(a.z, k, m, n);
}

/// The line through two bounded points stays within twice the product of
/// the bounds.
pub proof fn lemma_join_points_within(a: PointModel, b: PointModel, m: int, n: int)
    requires
        a.within(m),
        b.within(n),
    ensures
        a.join(b).within(2 * (m * n)),
{
    lemma_vector_products_within(a.direction, b.direction, b.origin, m, n);
    lemma_vector_products_within(b.direction, a.direction, a.origin, n, m);
    assert(n * m == m * n) by (nonlinear_arith);
}

/// The plane through a bounded line and a bounded point stays within three
/// times the product of the bounds, in either order of the operands.
pub proof fn lemma_join_line_point_within(l: LineModel, p: PointModel, m: int, n: int)
    requires
        l.within(m),
        p.within(n),
    ensures
        l.join_point(p).within(3 * (m * n)),
        p.join_line(l).within(3 * (m * n)),
{
    lemma_vector_products_within(l.direction, p.direction, p.origin, m, n);
    lemma_vector_products_within(l.moment, p.direction, p.origin, m, n);
}

/// The line in which two bounded planes meet stays within twice the product
/// of the bounds.
pub proof fn lemma_meet_planes_within(a: PlaneModel, b: PlaneModel, m: int, n: int)
    requires
        a.within(m),
        b.within(n),
    ensures
        a.meet(b).within(2 * (m * n)),
{
    lemma_vector_products_within(a.direction, b.direction, b.horizon, m, n);
    lemma_vector_products_within(b.direction, a.direction, a.horizon, n, m);
    assert(n * m == m * n) by (nonlinear_arith);
}

/// The point in which a bounded plane and a bounded line meet stays within
/// three times the product of the bounds, in either order of the operands.
pub proof fn lemma_meet_plane_line_within(p: PlaneModel, l: LineModel, m: int, n: int)
    requires
        p.within(m),
        l.within(n),
    ensures
        p.meet_line(l).within(3 * (m * n)),
        l.meet_plane(p).within(3 * (m * n)),
{
    lemma_vector_products_within(l.moment, p.direction, p.horizon, n, m);
    lemma_vector_products_within(l.direction, p.direction, p.horizon, n, m);
    assert(n * m == m * n) by (nonlinear_arith);
}

/// The squared length of a bounded entity is at most the square of the bound
/// for each of its coordinates: four times for a point or a plane, six times
/// for a line.
pub proof fn lemma_length_squared_within(p: PointModel, l: LineModel, q: PlaneModel, m: int)
    ensures
        p.within(m) ==> 0 <= p.length_squared() <= 4 * (m * m),
        l.within(m) ==> 0 <= l.length_squared() <= 6 * (m * m),
        q.within(m) ==> 0 <= q.length_squared() <= 4 * (m * m),
{
    if p.within(m) {
        lemma_square_within(p.direction.x, m);
        lemma_square_within(p.direction.y, m);
        lemma_square_within(p.direction.z, m);
        lemma_square_within(p.origin, m);
    }
    if l.within(m) {
        lemma_square_within(l.direction.x, m);
        lemma_square_within(l.direction.y, m);
        lemma_square_within(l.direction.z, m);
        lemma_square_within(l.moment.x, m);
        lemma_square_within(l.moment.y, m);
        lemma_square_within(l.moment.z, m);
    }
    if q.within(m) {
        lemma_square_within(q.direction.x, m);
        lemma_square_within(q.direction.y, m);
        lemma_square_within(q.direction.z, m);
        lemma_square_within(q.horizon, m);
    }
}

/// The square of a bounded number is not negative and at most the square of
/// the bound.
pub proof fn lemma_square_within(x: int, m: int)
    requires
        -m <= x <= m,
    ensures
        0 <= x * x <= m * m,
{
    lemma_product_within(x, x, m, m);
    assert(x * x >= 0) by (nonlinear_arith);
}

/// What stays within the largest coordinate can be stored.
pub proof fn lemma_within_representable(p: PointModel, l: LineModel, q: PlaneModel, m: int)
    requires
        m <= i64::MAX,
    ensures
        p.within(m) ==> p.representable(),
        l.within(m) ==> l.representable(),
        q.within(m) ==> q.representable(),
{
}

} // verus!
