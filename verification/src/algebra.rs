//! Identities of the dot and the cross product over the integers.
use crate::model::Vector;
use vstd::prelude::*;

verus! {

/// `(p * q - r * s) * t` multiplied out, on either side.
pub proof fn lemma_expand_difference(p: int, q: int, r: int, s: int, t: int)
    ensures
        (p * q - r * s) * t == p * q * t - r * s * t,
        t * (p * q - r * s) == p * q * t - r * s * t,
{
    assert((p * q - r * s) * t == p * q * t - r * s * t) by (nonlinear_arith);
    assert(t * (p * q - r * s) == p * q * t - r * s * t) by (nonlinear_arith);
}

/// A product of three factors does not depend on their order, nor on the way
/// they are grouped.
pub proof fn lemma_reorder(x: int, y: int, z: int)
    ensures
        x * y * z == x * z * y,
        x * y * z == y * x * z,
        x * y * z == y * z * x,
        x * y * z == z * x * y,
        x * y * z == z * y * x,
        x * y * z == x * (y * z),
        x * y * z == y * (x * z),
        x * y * z == z * (x * y),
{
    assert(x * y * z == x * z * y) by (nonlinear_arith);
    assert(x * y * z == y * x * z) by (nonlinear_arith);
    assert(x * y * z == y * z * x) by (nonlinear_arith);
    assert(x * y * z == z * x * y) by (nonlinear_arith);
    assert(x * y * z == z * y * x) by (nonlinear_arith);
    assert(x * y * z == x * (y * z)) by (nonlinear_arith);
    assert(x * y * z == y * (x * z)) by (nonlinear_arith);
    assert(x * y * z == z * (x * y)) by (nonlinear_arith);
}

/// A product of two factors does not depend on their order, and a sign moves
/// freely through it.
pub proof fn lemma_product_signs(x: int, y: int)
    ensures
        x * y == y * x,
        (-x) * y == -(x * y),
        x * (-y) == -(x * y),
        (-x) * (-y) == x * y,
{
    assert(x * y == y * x) by (nonlinear_arith);
    assert((-x) * y == -(x * y)) by (nonlinear_arith);
    assert(x * (-y) == -(x * y)) by (nonlinear_arith);
    assert((-x) * (-y) == x * y) by (nonlinear_arith);
}

/// A sum of three terms multiplied by a factor, on either side.
pub proof fn lemma_distribute(a: int, b: int, c: int, k: int)
    ensures
        (a + b + c) * k == a * k + b * k + c * k,
        k * (a + b + c) == a * k + b * k + c * k,
{
    assert((a + b + c) * k == a * k + b * k + c * k) by (nonlinear_arith);
    assert(k * (a + b + c) == a * k + b * k + c * k) by (nonlinear_arith);
}

/// A product is zero only if a factor is.
pub proof fn lemma_zero_product(k: int, v: int)
    requires
        k != 0,
        v * k == 0,
    ensures
        v == 0,
{
    assert(v == 0) by (nonlinear_arith)
        requires
            k != 0,
            v * k == 0,
    ;
}

/// A product with the factor zero is zero.
pub proof fn lemma_times_zero(x: int, zero: int)
    requires
        zero == 0,
    ensures
        x * zero == 0,
        zero * x == 0,
{
}

/// A product with the factor one is the other factor.
pub proof fn lemma_times_one(x: int, one: int)
    requires
        one == 1,
    ensures
        x * one == x,
        one * x == x,
{
}

/// The products of a number with zero, one and minus one.
pub proof fn lemma_small_factor(a: int, s: int)
    ensures
        a == 0 ==> a * s == 0 && s * a == 0,
        a == 1 ==> a * s == s && s * a == s,
        a == -1 ==> a * s == -s && s * a == -s,
{
    assert((a == 0 ==> a * s == 0 && s * a == 0) && (a == 1 ==> a * s == s && s * a == s) && (a
        == -1 ==> a * s == -s && s * a == -s)) by (nonlinear_arith);
}

/// The square of a whole number is zero for zero, one for one and its
/// negative, and more than one for every other number.
pub proof fn lemma_square_is_small(a: int)
    ensures
        a * a >= 0,
        a * a == 0 <==> a == 0,
        a * a == 1 <==> a == 1 || a == -1,
        a * a <= 1 <==> -1 <= a <= 1,
{
    assert(a * a >= 0 && (a * a == 0 <==> a == 0) && (a * a == 1 <==> a == 1 || a == -1) && (a
        * a <= 1 <==> -1 <= a <= 1)) by (nonlinear_arith);
}

/// The zero vector has length zero, and its products with any vector are
/// zero.
pub proof fn lemma_zero_vector(v: Vector)
    ensures
        Vector::zero().length_squared() == 0,
        Vector::zero().dot(v) == 0,
        v.dot(Vector::zero()) == 0,
        Vector::zero().cross(v).is_zero(),
        v.cross(Vector::zero()).is_zero(),
        v.scaled(0).is_zero(),
{
    let z = Vector::zero();
    lemma_times_zero(0, z.x);
    lemma_times_zero(v.x, z.x);
    lemma_times_zero(v.y, z.x);
    lemma_times_zero(v.z, z.x);
}

/// The dot product is symmetric.
pub proof fn lemma_dot_symmetric(a: Vector, b: Vector)
    ensures
        a.dot(b) == b.dot(a),
{
    lemma_product_signs(a.x, b.x);
    lemma_product_signs(a.y, b.y);
    lemma_product_signs(a.z, b.z);
}

/// The dot product with a multiple is the multiple of the dot product.
pub proof fn lemma_dot_scaled(a: Vector, b: Vector, k: int)
    ensures
        a.scaled(k).dot(b) == a.dot(b) * k,
        a.dot(b.scaled(k)) == a.dot(b) * k,
{
    lemma_distribute(a.x * b.x, a.y * b.y, a.z * b.z, k);
    lemma_reorder(a.x, b.x, k);
    lemma_reorder(a.y, b.y, k);
    lemma_reorder(a.z, b.z, k);
}

/// The cross product is antisymmetric.
pub proof fn lemma_cross_antisymmetric(a: Vector, b: Vector)
    ensures
        a.cross(b) == b.cross(a).negated(),
{
    lemma_product_signs(a.x, b.y);
    lemma_product_signs(a.x, b.z);
    lemma_product_signs(a.y, b.x);
    lemma_product_signs(a.y, b.z);
    lemma_product_signs(a.z, b.x);
    lemma_product_signs(a.z, b.y);
}

/// The cross product of a vector with a multiple of itself is zero.
pub proof fn lemma_cross_parallel(a: Vector, k: int)
    ensures
        a.cross(a.scaled(k)).is_zero(),
        a.scaled(k).cross(a).is_zero(),
        a.cross(a).is_zero(),
{
    lemma_reorder(a.x, a.y, k);
    lemma_reorder(a.x, a.z, k);
    lemma_reorder(a.y, a.z, k);
    lemma_product_signs(a.x, a.y);
    lemma_product_signs(a.x, a.z);
    lemma_product_signs(a.y, a.z);
}

/// The cross product with a multiple is the multiple of the cross product.
pub proof fn lemma_cross_scaled(a: Vector, b: Vector, k: int)
    ensures
        a.scaled(k).cross(b) == a.cross(b).scaled(k),
        a.cross(b.scaled(k)) == a.cross(b).scaled(k),
{
    lemma_expand_difference(a.y, b.z, a.z, b.y, k);
    lemma_expand_difference(a.z, b.x, a.x, b.z, k);
    lemma_expand_difference(a.x, b.y, a.y, b.x, k);
    lemma_reorder(a.x, b.y, k);
    lemma_reorder(a.x, b.z, k);
    lemma_reorder(a.y, b.x, k);
    lemma_reorder(a.y, b.z, k);
    lemma_reorder(a.z, b.x, k);
    lemma_reorder(a.z, b.y, k);
    lemma_reorder(a.x, k, b.y);
    lemma_reorder(a.x, k, b.z);
    lemma_reorder(a.y, k, b.x);
    lemma_reorder(a.y, k, b.z);
    lemma_reorder(a.z, k, b.x);
    lemma_reorder(a.z, k, b.y);
}

/// The cross product distributes over sums and differences.
pub proof fn lemma_cross_distributes(a: Vector, b: Vector, c: Vector)
    ensures
        a.plus(b).cross(c) == a.cross(c).plus(b.cross(c)),
        a.minus(b).cross(c) == a.cross(c).minus(b.cross(c)),
        c.cross(a.plus(b)) == c.cross(a).plus(c.cross(b)),
        c.cross(a.minus(b)) == c.cross(a).minus(c.cross(b)),
{
    lemma_sum_times(a.x, b.x, c.y);
    lemma_sum_times(a.x, b.x, c.z);
    lemma_sum_times(a.y, b.y, c.x);
    lemma_sum_times(a.y, b.y, c.z);
    lemma_sum_times(a.z, b.z, c.x);
    lemma_sum_times(a.z, b.z, c.y);
}

/// A sum or a difference of two terms multiplied by a factor, on either side.
pub proof fn lemma_sum_times(a: int, b: int, k: int)
    ensures
        (a + b) * k == a * k + b * k,
        (a - b) * k == a * k - b * k,
        k * (a + b) == k * a + k * b,
        k * (a - b) == k * a - k * b,
{
    assert((a + b) * k == a * k + b * k) by (nonlinear_arith);
    assert((a - b) * k == a * k - b * k) by (nonlinear_arith);
    assert(k * (a + b) == k * a + k * b) by (nonlinear_arith);
    assert(k * (a - b) == k * a - k * b) by (nonlinear_arith);
}

/// The dot product distributes over sums and differences.
pub proof fn lemma_dot_distributes(a: Vector, b: Vector, c: Vector)
    ensures
        a.plus(b).dot(c) == a.dot(c) + b.dot(c),
        a.minus(b).dot(c) == a.dot(c) - b.dot(c),
        c.dot(a.plus(b)) == c.dot(a) + c.dot(b),
        c.dot(a.minus(b)) == c.dot(a) - c.dot(b),
{
    lemma_sum_times(a.x, b.x, c.x);
    lemma_sum_times(a.y, b.y, c.y);
    lemma_sum_times(a.z, b.z, c.z);
}

/// The cross product of two vectors is at right angles to both.
pub proof fn lemma_cross_perpendicular(a: Vector, b: Vector)
    ensures
        a.cross(b).dot(a) == 0,
        a.cross(b).dot(b) == 0,
        a.dot(a.cross(b)) == 0,
        b.dot(a.cross(b)) == 0,
{
    lemma_expand_difference(a.y, b.z, a.z, b.y, a.x);
    lemma_expand_difference(a.z, b.x, a.x, b.z, a.y);
    lemma_expand_difference(a.x, b.y, a.y, b.x, a.z);
    lemma_expand_difference(a.y, b.z, a.z, b.y, b.x);
    lemma_expand_difference(a.z, b.x, a.x, b.z, b.y);
    lemma_expand_difference(a.x, b.y, a.y, b.x, b.z);
    lemma_reorder(a.x, b.y, a.z);
    lemma_reorder(a.x, b.z, a.y);
    lemma_reorder(a.y, b.x, a.z);
    lemma_reorder(a.y, b.z, a.x);
    lemma_reorder(a.z, b.x, a.y);
    lemma_reorder(a.z, b.y, a.x);
    lemma_reorder(a.x, b.y, b.z);
    lemma_reorder(a.x, b.z, b.y);
    lemma_reorder(a.y, b.x, b.z);
    lemma_reorder(a.y, b.z, b.x);
    lemma_reorder(a.z, b.x, b.y);
    lemma_reorder(a.z, b.y, b.x);
    lemma_dot_symmetric(a.cross(b), a);
    lemma_dot_symmetric(a.cross(b), b);
}

/// The triple product is unchanged when its factors rotate, and changes sign
/// when two of them change places.
pub proof fn lemma_triple_product(a: Vector, b: Vector, c: Vector)
    ensures
        a.cross(b).dot(c) == b.cross(c).dot(a),
        a.cross(b).dot(c) == c.cross(a).dot(b),
        a.cross(b).dot(c) == -b.cross(a).dot(c),
        a.cross(b).dot(c) == -a.cross(c).dot(b),
{
    lemma_expand_difference(a.y, b.z, a.z, b.y, c.x);
    lemma_expand_difference(a.z, b.x, a.x, b.z, c.y);
    lemma_expand_difference(a.x, b.y, a.y, b.x, c.z);
    lemma_expand_difference(b.y, c.z, b.z, c.y, a.x);
    lemma_expand_difference(b.z, c.x, b.x, c.z, a.y);
    lemma_expand_difference(b.x, c.y, b.y, c.x, a.z);
    lemma_expand_difference(c.y, a.z, c.z, a.y, b.x);
    lemma_expand_difference(c.z, a.x, c.x, a.z, b.y);
    lemma_expand_difference(c.x, a.y, c.y, a.x, b.z);
    lemma_expand_difference(b.y, a.z, b.z, a.y, c.x);
    lemma_expand_difference(b.z, a.x, b.x, a.z, c.y);
    lemma_expand_difference(b.x, a.y, b.y, a.x, c.z);
    lemma_expand_difference(a.y, c.z, a.z, c.y, b.x);
    lemma_expand_difference(a.z, c.x, a.x, c.z, b.y);
    lemma_expand_difference(a.x, c.y, a.y, c.x, b.z);
    lemma_reorder(a.x, b.y, c.z);
    lemma_reorder(a.x, b.z, c.y);
    lemma_reorder(a.y, b.z, c.x);
    lemma_reorder(a.y, b.x, c.z);
    lemma_reorder(a.z, b.x, c.y);
    lemma_reorder(a.z, b.y, c.x);
}

/// The cross product of a cross product with a third vector.
pub proof fn lemma_cross_of_cross(a: Vector, b: Vector, n: Vector)
    ensures
        a.cross(b).cross(n) == b.scaled(a.dot(n)).minus(a.scaled(b.dot(n))),
{
    lemma_expand_difference(a.z, b.x, a.x, b.z, n.z);
    lemma_expand_difference(a.x, b.y, a.y, b.x, n.y);
    lemma_expand_difference(a.x, b.y, a.y, b.x, n.x);
    lemma_expand_difference(a.y, b.z, a.z, b.y, n.z);
    lemma_expand_difference(a.y, b.z, a.z, b.y, n.y);
    lemma_expand_difference(a.z, b.x, a.x, b.z, n.x);
    lemma_distribute(a.x * n.x, a.y * n.y, a.z * n.z, b.x);
    lemma_distribute(a.x * n.x, a.y * n.y, a.z * n.z, b.y);
    lemma_distribute(a.x * n.x, a.y * n.y, a.z * n.z, b.z);
    lemma_distribute(b.x * n.x, b.y * n.y, b.z * n.z, a.x);
    lemma_distribute(b.x * n.x, b.y * n.y, b.z * n.z, a.y);
    lemma_distribute(b.x * n.x, b.y * n.y, b.z * n.z, a.z);
    lemma_reorder(a.x, b.x, n.x);
    lemma_reorder(a.x, n.x, b.x);
    lemma_reorder(b.x, n.x, a.x);
    lemma_reorder(a.y, b.y, n.y);
    lemma_reorder(a.y, n.y, b.y);
    lemma_reorder(b.y, n.y, a.y);
    lemma_reorder(a.z, b.z, n.z);
    lemma_reorder(a.z, n.z, b.z);
    lemma_reorder(b.z, n.z, a.z);
    lemma_mixed(a.x, b.y, n.x);
    lemma_mixed(a.x, b.y, n.y);
    lemma_mixed(a.x, b.z, n.x);
    lemma_mixed(a.x, b.z, n.z);
    lemma_mixed(a.y, b.x, n.y);
    lemma_mixed(a.y, b.x, n.x);
    lemma_mixed(a.y, b.z, n.y);
    lemma_mixed(a.y, b.z, n.z);
    lemma_mixed(a.z, b.x, n.z);
    lemma_mixed(a.z, b.x, n.x);
    lemma_mixed(a.z, b.y, n.z);
    lemma_mixed(a.z, b.y, n.y);
}

/// The cross product of a vector with a cross product.
pub proof fn lemma_cross_with_cross(v: Vector, a: Vector, b: Vector)
    ensures
        v.cross(a.cross(b)) == a.scaled(v.dot(b)).minus(b.scaled(v.dot(a))),
{
    lemma_cross_of_cross(a, b, v);
    lemma_cross_antisymmetric(v, a.cross(b));
    lemma_dot_symmetric(v, a);
    lemma_dot_symmetric(v, b);
}

/// The two ways in which `lemma_cross_of_cross` meets a product of three
/// factors.
proof fn lemma_mixed(a: int, b: int, n: int)
    ensures
        a * b * n == a * n * b,
        a * b * n == b * n * a,
{
    lemma_reorder(a, b, n);
}

} // verus!
