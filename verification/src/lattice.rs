//! The formulas on the integers: what they compute on the vectors of the
//! integer lattice and on integer quadrances, and what algebra says of the
//! spread.

use crate::integer::truncated_quotient;
use vstd::prelude::*;

verus! {

/// A vector of the plane with integer coordinates.
pub type IntVector = (int, int);

/// The quadrance of `v`.
pub open spec fn quad_int(v: IntVector) -> int {
    v.0 * v.0 + v.1 * v.1
}

/// The dot product of `v_1` and `v_2`.
pub open spec fn dot_int(v_1: IntVector, v_2: IntVector) -> int {
    v_1.0 * v_2.0 + v_1.1 * v_2.1
}

/// The cross product of `v_1` and `v_2`.
pub open spec fn cross_int(v_1: IntVector, v_2: IntVector) -> int {
    v_1.0 * v_2.1 - v_1.1 * v_2.0
}

/// The spread between `v_1` and `v_2`, rounded towards zero.
pub open spec fn spread_int(v_1: IntVector, v_2: IntVector) -> int {
    truncated_quotient(
        cross_int(v_1, v_2) * cross_int(v_1, v_2),
        quad_int(v_1) * quad_int(v_2),
    )
}

/// Archimedes' formula.
pub open spec fn archimedes_int(q_1: int, q_2: int, q_3: int) -> int {
    4 * q_1 * q_2 - (q_1 + q_2 - q_3) * (q_1 + q_2 - q_3)
}

/// The law of spreads, rounded towards zero.
pub open spec fn spread_law_int(q_1: int, q_2: int, q_3: int) -> int {
    truncated_quotient(archimedes_int(q_1, q_2, q_3), 4 * q_1 * q_2)
}

/// The triple quad formula.
pub open spec fn triple_quad_formula_int(q_1: int, q_2: int, s_3: int) -> int {
    (q_1 + q_2) * (q_1 + q_2) - 4 * q_1 * q_2 * (1 - s_3)
}

/// The square of a sum and the square of a difference.
proof fn lemma_binomial(x: int, y: int)
    ensures
        (x + y) * (x + y) == x * x + 2 * (x * y) + y * y,
        (x - y) * (x - y) == x * x - 2 * (x * y) + y * y,
{
    assert((x + y) * (x + y) == x * x + 2 * (x * y) + y * y) by (nonlinear_arith);
    assert((x - y) * (x - y) == x * x - 2 * (x * y) + y * y) by (nonlinear_arith);
}

/// The product of two sums, term by term.
proof fn lemma_product_of_sums(a: int, b: int, c: int, d: int)
    ensures
        (a + b) * (c + d) == a * c + a * d + b * c + b * d,
{
    assert((a + b) * (c + d) == a * c + a * d + b * c + b * d) by (nonlinear_arith);
}

/// The factors of a product of two products can be paired the other way.
proof fn lemma_product_of_products(a: int, b: int, c: int, d: int)
    ensures
        (a * b) * (c * d) == (a * c) * (b * d),
{
    assert((a * b) * (c * d) == (a * c) * (b * d)) by (nonlinear_arith);
}

/// Lagrange's identity: the squares of the cross product and of the dot
/// product add up to the product of the quadrances.
pub proof fn lemma_lagrange_identity(v_1: IntVector, v_2: IntVector)
    ensures
        cross_int(v_1, v_2) * cross_int(v_1, v_2) + dot_int(v_1, v_2) * dot_int(v_1, v_2)
            == quad_int(v_1) * quad_int(v_2),
{
    let (a, b) = v_1;
    let (c, d) = v_2;
    lemma_binomial(a * d, b * c);
    lemma_binomial(a * c, b * d);
    lemma_product_of_sums(a * a, b * b, c * c, d * d);
    lemma_product_of_products(a, d, b, c);
    lemma_product_of_products(a, c, b, d);
    lemma_product_of_products(a, d, a, d);
    lemma_product_of_products(b, c, b, c);
    lemma_product_of_products(a, c, a, c);
    lemma_product_of_products(b, d, b, d);
    assert(d * c == c * d) by (nonlinear_arith);
}

/// The square of the cross product is not negative and at most the product
/// of the quadrances. Where neither quadrance is zero, that product is
/// positive, and the spread, rounded towards zero, is zero or one: one only
/// where the cross product is not zero.
pub proof fn lemma_spread_bounds(v_1: IntVector, v_2: IntVector)
    ensures
        0 <= cross_int(v_1, v_2) * cross_int(v_1, v_2) <= quad_int(v_1) * quad_int(v_2),
        quad_int(v_1) != 0 && quad_int(v_2) != 0 ==> {
            &&& 0 < quad_int(v_1) * quad_int(v_2)
            &&& 0 <= spread_int(v_1, v_2) <= 1
            &&& spread_int(v_1, v_2) == 1 ==> 1 <= cross_int(v_1, v_2) * cross_int(v_1, v_2)
        },
{
    let x = cross_int(v_1, v_2);
    let d = dot_int(v_1, v_2);
    let q_1 = quad_int(v_1);
    let q_2 = quad_int(v_2);
    let n = x * x;
    let m = q_1 * q_2;
    lemma_lagrange_identity(v_1, v_2);
    assert(0 <= x * x && 0 <= d * d) by (nonlinear_arith);
    assert(0 <= q_1 && 0 <= q_2) by (nonlinear_arith)
        requires
            q_1 == v_1.0 * v_1.0 + v_1.1 * v_1.1,
            q_2 == v_2.0 * v_2.0 + v_2.1 * v_2.1,
    ;
    assert(0 < q_1 && 0 < q_2 ==> 0 < q_1 * q_2) by (nonlinear_arith);
    assert(0 < m ==> 0 <= n / m <= 1 && (n == 0 ==> n / m == 0)) by (nonlinear_arith)
        requires
            0 <= n <= m,
    ;
}

} // verus!
