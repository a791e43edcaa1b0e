//! Points of the plane, with real coordinates: the quadrance between two
//! points, the area of a triangle, and Archimedes' theorem that ties them.

use crate::lattice::archimedes_int;
use vstd::prelude::*;

verus! {

/// A point, or a vector, of the plane.
pub type Point = (real, real);

/// The vector from the point `a` to the point `b`.
pub open spec fn displacement(a: Point, b: Point) -> Point {
    (b.0 - a.0, b.1 - a.1)
}

/// The quadrance of the vector `v`: the square of its length.
pub open spec fn quad_real(v: Point) -> real {
    v.0 * v.0 + v.1 * v.1
}

/// The dot product of the vectors `v_1` and `v_2`.
pub open spec fn dot_real(v_1: Point, v_2: Point) -> real {
    v_1.0 * v_2.0 + v_1.1 * v_2.1
}

/// The cross product of the vectors `v_1` and `v_2`: twice the signed area
/// of the triangle that they span.
pub open spec fn cross_real(v_1: Point, v_2: Point) -> real {
    v_1.0 * v_2.1 - v_1.1 * v_2.0
}

/// The quadrance between the points `a` and `b`: the square of their
/// distance.
pub open spec fn quadrance(a: Point, b: Point) -> real {
    quad_real(displacement(a, b))
}

/// Twice the signed area of the triangle with the corners `a`, `b` and `c`.
pub open spec fn doubled_area(a: Point, b: Point, c: Point) -> real {
    cross_real(displacement(a, b), displacement(a, c))
}

/// The points `a`, `b` and `c` lie on one line: the triangle between them
/// has no area.
pub open spec fn collinear(a: Point, b: Point, c: Point) -> bool {
    doubled_area(a, b, c) == 0real
}

/// Archimedes' formula on real numbers.
pub open spec fn archimedes_real(q_1: real, q_2: real, q_3: real) -> real {
    4real * q_1 * q_2 - (q_1 + q_2 - q_3) * (q_1 + q_2 - q_3)
}

/// The square of a sum and the square of a difference.
proof fn lemma_binomial(x: real, y: real)
    ensures
        (x + y) * (x + y) == x * x + 2real * (x * y) + y * y,
        (x - y) * (x - y) == x * x - 2real * (x * y) + y * y,
{
    assert((x + y) * (x + y) == x * x + 2real * (x * y) + y * y) by (nonlinear_arith);
    assert((x - y) * (x - y) == x * x - 2real * (x * y) + y * y) by (nonlinear_arith);
}

/// The product of two sums, term by term.
proof fn lemma_product_of_sums(a: real, b: real, c: real, d: real)
    ensures
        (a + b) * (c + d) == a * c + a * d + b * c + b * d,
{
    assert((a + b) * (c + d) == a * c + a * d + b * c + b * d) by (nonlinear_arith);
}

/// The factors of a product of two products can be paired the other way.
proof fn lemma_product_of_products(a: real, b: real, c: real, d: real)
    ensures
        (a * b) * (c * d) == (a * c) * (b * d),
{
    assert((a * b) * (c * d) == (a * c) * (b * d)) by (nonlinear_arith);
}

/// Lagrange's identity: the squares of the cross product and of the dot
/// product add up to the product of the quadrances.
pub proof fn lemma_lagrange_identity(v_1: Point, v_2: Point)
    ensures
        cross_real(v_1, v_2) * cross_real(v_1, v_2) + dot_real(v_1, v_2) * dot_real(v_1, v_2)
            == quad_real(v_1) * quad_real(v_2),
{
    let (a, b) = v_1;
    let (c, d) = v_2;
    lemma_binomial(a * d, b * c);
    lemma_binomial(a * c, b * d);
    lemma_product_of_sums(a * a, b * b, c * c, d * d);
    lemma_product_of_products(a, d, b, c);
    lemma_product_of_products(a, c, b, d);
    lemma_product_of_products(a, d, a, d);
    lemma_product_of_products(b, c, b, c);
    lemma_product_of_products(a, c, a, c);
    lemma_product_of_products(b, d, b, d);
    assert(d * c == c * d) by (nonlinear_arith);
}

/// Archimedes' theorem: his formula on the quadrances of a triangle is
/// sixteen times the square of its area.
pub proof fn lemma_quadrea(a: Point, b: Point, c: Point)
    ensures
        archimedes_real(quadrance(b, c), quadrance(a, c), quadrance(a, b))
            == 4real * (doubled_area(a, b, c) * doubled_area(a, b, c)),
{
    let u = displacement(a, b);
    let v = displacement(a, c);
    let w = displacement(b, c);
    let q_1 = quad_real(w);
    let q_2 = quad_real(v);
    let q_3 = quad_real(u);
    let dot = dot_real(w, v);
    let cross = cross_real(w, v);
    // The side from `a` to `b` is the difference of the other two.
    assert(u.0 == v.0 - w.0 && u.1 == v.1 - w.1);
    lemma_binomial(v.0, w.0);
    lemma_binomial(v.1, w.1);
    assert(v.0 * w.0 == w.0 * v.0 && v.1 * w.1 == w.1 * v.1) by (nonlinear_arith);
    assert(q_1 + q_2 - q_3 == 2real * dot);
    assert((2real * dot) * (2real * dot) == 4real * (dot * dot)) by (nonlinear_arith);
    assert(4real * q_1 * q_2 == 4real * (q_1 * q_2)) by (nonlinear_arith);
    lemma_lagrange_identity(w, v);
    assert(archimedes_real(q_1, q_2, q_3) == 4real * (cross * cross));
    // Seen from `a`, the cross product has the other sign.
    let area = cross_real(u, v);
    assert(cross == -area) by (nonlinear_arith)
        requires
            cross == w.0 * v.1 - w.1 * v.0,
            area == (v.0 - w.0) * v.1 - (v.1 - w.1) * v.0,
    ;
    assert((-area) * (-area) == area * area) by (nonlinear_arith);
}

/// The product of two integers, taken as a real number, is the product of
/// the two taken as real numbers.
pub proof fn lemma_real_of_product(i: int, j: int)
    ensures
        (i * j) as real == (i as real) * (j as real),
    decreases (if j >= 0 { j } else { -j }),
{
    let x = i as real;
    if j == 0 {
        assert(i * j == 0) by (nonlinear_arith)
            requires
                j == 0,
        ;
        assert(x * 0real == 0real) by (nonlinear_arith);
    } else if j > 0 {
        let y = (j - 1) as real;
        lemma_real_of_product(i, j - 1);
        assert(i * j == i * (j - 1) + i) by (nonlinear_arith);
        assert(x * (y + 1real) == x * y + x) by (nonlinear_arith);
        assert(j as real == y + 1real);
    } else {
        let y = (j + 1) as real;
        lemma_real_of_product(i, j + 1);
        assert(i * j == i * (j + 1) - i) by (nonlinear_arith);
        assert(x * (y - 1real) == x * y - x) by (nonlinear_arith);
        assert(j as real == y - 1real);
    }
}

/// Archimedes' formula on integers, taken as a real number, is the formula
/// on the integers taken as real numbers.
pub proof fn lemma_real_of_archimedes(q_1: int, q_2: int, q_3: int)
    ensures
        archimedes_int(q_1, q_2, q_3) as real
            == archimedes_real(q_1 as real, q_2 as real, q_3 as real),
{
    let s = q_1 + q_2 - q_3;
    lemma_real_of_product(4 * q_1, q_2);
    lemma_real_of_product(s, s);
    assert((4 * q_1) as real == 4real * (q_1 as real));
    assert(s as real == q_1 as real + q_2 as real - q_3 as real);
}

} // verus!
