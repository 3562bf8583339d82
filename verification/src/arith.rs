//! Exact integer arithmetic on coordinates.
//!
//! A coordinate is an `i64`. Products of two coordinates, and the difference
//! of two such products, are formed in `i128`, where they cannot overflow. A
//! longer sum is narrowed back to a coordinate as its last term is added, so
//! that no intermediate value is ever lost.
use vstd::arithmetic::div_mod::{
    lemma_div_multiples_vanish, lemma_fundamental_div_mod, lemma_mod_multiples_basic,
};
use vstd::prelude::*;

verus! {

/// Whether `v` can be stored as a coordinate.
pub open spec fn fits(v: int) -> bool {
    i64::MIN <= v <= i64::MAX
}

/// The product of two coordinates lies between `i64::MIN * i64::MAX` and
/// `i64::MIN * i64::MIN`.
pub proof fn lemma_product_bound(a: int, b: int)
    requires
        fits(a),
        fits(b),
    ensures
        -0x3fff_ffff_ffff_ffff_8000_0000_0000_0000 <= a * b
            <= 0x4000_0000_0000_0000_0000_0000_0000_0000,
{
    assert(a * b <= 0x4000_0000_0000_0000_0000_0000_0000_0000) by (nonlinear_arith)
        requires
            -0x8000_0000_0000_0000 <= a <= 0x7fff_ffff_ffff_ffff,
            -0x8000_0000_0000_0000 <= b <= 0x7fff_ffff_ffff_ffff,
    ;
    assert(a * b >= -0x3fff_ffff_ffff_ffff_8000_0000_0000_0000) by (nonlinear_arith)
        requires
            -0x8000_0000_0000_0000 <= a <= 0x7fff_ffff_ffff_ffff,
            -0x8000_0000_0000_0000 <= b <= 0x7fff_ffff_ffff_ffff,
    {
        assert((a + 0x8000_0000_0000_0000) * (b + 0x8000_0000_0000_0000) >= 0);
        assert((0x7fff_ffff_ffff_ffff - a) * (0x7fff_ffff_ffff_ffff - b) >= 0);
    }
}

/// The exact product of two coordinates.
pub fn product(a: i64, b: i64) -> (r: i128)
    ensures
        r == a * b,
        -0x3fff_ffff_ffff_ffff_8000_0000_0000_0000 <= r
            <= 0x4000_0000_0000_0000_0000_0000_0000_0000,
{
    proof {
        lemma_product_bound(a as int, b as int);
    }
    let wide_a: i128 = a as i128;
    let wide_b: i128 = b as i128;
    wide_a * wide_b
}

/// Narrows an exact value to a coordinate, or reports that it does not fit.
pub fn narrow(v: i128) -> (r: Option<i64>)
    ensures
        r.is_some() <==> fits(v as int),
        r matches Some(c) ==> c == v,
{
    if -0x8000_0000_0000_0000 <= v && v <= 0x7fff_ffff_ffff_ffff {
        Some(v as i64)
    } else {
        None
    }
}

/// The coordinate `a + b`, or `None` where the sum is not a coordinate.
pub fn narrow_sum(a: i128, b: i128) -> (r: Option<i64>)
    ensures
        r.is_some() <==> fits(a + b),
        r matches Some(c) ==> c == a + b,
{
    if b >= 0 && a > i128::MAX - b {
        None
    } else if b < 0 && a < i128::MIN - b {
        None
    } else {
        narrow(a + b)
    }
}

/// The coordinate `a - b`, or `None` where the difference is not a coordinate.
pub fn narrow_difference(a: i128, b: i128) -> (r: Option<i64>)
    ensures
        r.is_some() <==> fits(a - b),
        r matches Some(c) ==> c == a - b,
{
    if b >= 0 && a < i128::MIN + b {
        None
    } else if b < 0 && a > i128::MAX + b {
        None
    } else {
        narrow(a - b)
    }
}

/// The negation of a coordinate, or `None` for the one coordinate that has none.
pub fn negate(v: i64) -> (r: Option<i64>)
    ensures
        r.is_some() <==> fits(-v),
        r matches Some(c) ==> c == -v,
{
    if v == i64::MIN {
        None
    } else {
        Some(-v)
    }
}

/// The distance between two coordinates.
pub fn distance(a: i64, b: i64) -> (r: u64)
    ensures
        r == (if a >= b { a - b } else { b - a }),
{
    let wide_a: i128 = a as i128;
    let wide_b: i128 = b as i128;
    if wide_a >= wide_b {
        (wide_a - wide_b) as u64
    } else {
        (wide_b - wide_a) as u64
    }
}

/// The magnitude of `v`.
pub open spec fn magnitude_of(v: int) -> int {
    if v < 0 {
        -v
    } else {
        v
    }
}

/// Whether `w` divides `a`.
pub open spec fn divides(w: int, a: int) -> bool {
    w != 0 && magnitude_of(a) % magnitude_of(w) == 0
}

/// The quotient of `a` by `w`, rounded towards zero. Where `w` divides `a` it
/// is the one number whose product with `w` is `a`.
pub open spec fn quotient(a: int, w: int) -> int {
    if (a < 0) == (w < 0) {
        magnitude_of(a) / magnitude_of(w)
    } else {
        -(magnitude_of(a) / magnitude_of(w))
    }
}

/// Where `w` divides `a`, the quotient times `w` is `a`, and no other number
/// times `w` is.
pub proof fn lemma_quotient_exact(a: int, w: int, q: int)
    requires
        w != 0,
    ensures
        divides(w, a) ==> quotient(a, w) * w == a,
        q * w == a ==> divides(w, a) && q == quotient(a, w),
{
    let m = magnitude_of(a);
    let d = magnitude_of(w);
    let k = m / d;
    lemma_fundamental_div_mod(m, d);
    if divides(w, a) {
        assert(m == d * k);
        assert(quotient(a, w) * w == a) by (nonlinear_arith)
            requires
                m == d * k,
                m == magnitude_of(a),
                d == magnitude_of(w),
                quotient(a, w) == (if (a < 0) == (w < 0) {
                    k
                } else {
                    -k
                }),
        ;
    }
    if q * w == a {
        let j = magnitude_of(q);
        assert(j * d == m) by (nonlinear_arith)
            requires
                q * w == a,
                j == magnitude_of(q),
                d == magnitude_of(w),
                m == magnitude_of(a),
        ;
        lemma_mod_multiples_basic(j, d);
        lemma_div_multiples_vanish(j, d);
        assert(j * d == d * j) by (nonlinear_arith);
        assert(m / d == j);
        assert(q == quotient(a, w)) by (nonlinear_arith)
            requires
                q * w == a,
                w != 0,
                j == magnitude_of(q),
                quotient(a, w) == (if (a < 0) == (w < 0) {
                    j
                } else {
                    -j
                }),
        ;
    }
}

/// The magnitude of a coordinate.
pub fn magnitude(v: i64) -> (r: u64)
    ensures
        r == magnitude_of(v as int),
{
    let wide: i128 = v as i128;
    if wide < 0 {
        (-wide) as u64
    } else {
        wide as u64
    }
}

/// The quotient of `a` by `w` where `w` divides `a`, and `None` where it does
/// not.
pub fn exact_quotient(a: i64, w: i64) -> (r: Option<i128>)
    requires
        w != 0,
    ensures
        r.is_some() <==> divides(w as int, a as int),
        r matches Some(q) ==> q == quotient(a as int, w as int) && q * w == a,
{
    let m: u64 = magnitude(a);
    let d: u64 = magnitude(w);
    if m % d != 0 {
        None
    } else {
        let k: u64 = m / d;
        proof {
            lemma_quotient_exact(a as int, w as int, 0);
        }
        if (a < 0) == (w < 0) {
            Some(k as i128)
        } else {
            Some(-(k as i128))
        }
    }
}

} // verus!
