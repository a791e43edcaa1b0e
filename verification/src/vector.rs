//! Plane vectors: quadrance, dot product, cross product and spread.

use crate::numeric::{obeys_arithmetic_spec, Numeric};
use vstd::prelude::*;
use vstd::std_specs::ops::{AddSpec, DivSpec, MulSpec, SubSpec};

verus! {

/// A vector of the plane, as its two coordinates.
pub type Vector2<T> = [T; 2];

/// The quadrance of `v`: `x*x + y*y`, in the arithmetic of `T`.
pub open spec fn quad_spec<T: Numeric>(v: Vector2<T>) -> T {
    v[0].mul_spec(v[0]).add_spec(v[1].mul_spec(v[1]))
}

/// Every step of `quad_spec(v)` is within what `T` can compute.
pub open spec fn quad_defined<T: Numeric>(v: Vector2<T>) -> bool {
    &&& v[0].mul_req(v[0])
    &&& v[1].mul_req(v[1])
    &&& v[0].mul_spec(v[0]).add_req(v[1].mul_spec(v[1]))
}

/// The dot product: `x1*x2 + y1*y2`, in the arithmetic of `T`.
pub open spec fn dot_spec<T: Numeric>(v_1: Vector2<T>, v_2: Vector2<T>) -> T {
    v_1[0].mul_spec(v_2[0]).add_spec(v_1[1].mul_spec(v_2[1]))
}

/// Every step of `dot_spec(v_1, v_2)` is within what `T` can compute.
pub open spec fn dot_defined<T: Numeric>(v_1: Vector2<T>, v_2: Vector2<T>) -> bool {
    &&& v_1[0].mul_req(v_2[0])
    &&& v_1[1].mul_req(v_2[1])
    &&& v_1[0].mul_spec(v_2[0]).add_req(v_1[1].mul_spec(v_2[1]))
}

/// The cross product: `x1*y2 - y1*x2`, in the arithmetic of `T`.
pub open spec fn cross_spec<T: Numeric>(v_1: Vector2<T>, v_2: Vector2<T>) -> T {
    v_1[0].mul_spec(v_2[1]).sub_spec(v_1[1].mul_spec(v_2[0]))
}

/// Every step of `cross_spec(v_1, v_2)` is within what `T` can compute.
pub open spec fn cross_defined<T: Numeric>(v_1: Vector2<T>, v_2: Vector2<T>) -> bool {
    &&& v_1[0].mul_req(v_2[1])
    &&& v_1[1].mul_req(v_2[0])
    &&& v_1[0].mul_spec(v_2[1]).sub_req(v_1[1].mul_spec(v_2[0]))
}

/// The square of the cross product: what the spread is a fraction of.
pub open spec fn spread_numerator<T: Numeric>(v_1: Vector2<T>, v_2: Vector2<T>) -> T {
    cross_spec(v_1, v_2).mul_spec(cross_spec(v_1, v_2))
}

/// The product of the two quadrances: what the spread is divided by.
pub open spec fn spread_denominator<T: Numeric>(v_1: Vector2<T>, v_2: Vector2<T>) -> T {
    quad_spec(v_1).mul_spec(quad_spec(v_2))
}

/// The spread: the square of the cross product over the product of the
/// quadrances, divided as `T` divides.
pub open spec fn spread_spec<T: Numeric>(v_1: Vector2<T>, v_2: Vector2<T>) -> T {
    spread_numerator(v_1, v_2).div_spec(spread_denominator(v_1, v_2))
}

/// Every step of `spread_spec(v_1, v_2)` is within what `T` can compute. The
/// last step is the division: a type that cannot divide by zero leaves out
/// the vectors of quadrance zero here.
pub open spec fn spread_defined<T: Numeric>(v_1: Vector2<T>, v_2: Vector2<T>) -> bool {
    &&& cross_defined(v_1, v_2)
    &&& quad_defined(v_1)
    &&& quad_defined(v_2)
    &&& cross_spec(v_1, v_2).mul_req(cross_spec(v_1, v_2))
    &&& quad_spec(v_1).mul_req(quad_spec(v_2))
    &&& spread_numerator(v_1, v_2).div_req(spread_denominator(v_1, v_2))
}

/// Returns the quadrance of `v`, its squared length.
pub fn quad<T: Numeric>(v: Vector2<T>) -> (r: T)
    requires
        T::obeys_mul_spec(),
        T::obeys_add_spec(),
        quad_defined(v),
    ensures
        r == quad_spec(v),
{
    v[0] * v[0] + v[1] * v[1]
}

/// Returns the dot product of `v_1` and `v_2`.
pub fn dot<T: Numeric>(v_1: Vector2<T>, v_2: Vector2<T>) -> (r: T)
    requires
        T::obeys_mul_spec(),
        T::obeys_add_spec(),
        dot_defined(v_1, v_2),
    ensures
        r == dot_spec(v_1, v_2),
{
    v_1[0] * v_2[0] + v_1[1] * v_2[1]
}

/// Returns the cross product of `v_1` and `v_2`: twice the signed area of
/// the triangle that they span with the origin.
pub fn cross<T: Numeric>(v_1: Vector2<T>, v_2: Vector2<T>) -> (r: T)
    requires
        T::obeys_mul_spec(),
        T::obeys_sub_spec(),
        cross_defined(v_1, v_2),
    ensures
        r == cross_spec(v_1, v_2),
{
    v_1[0] * v_2[1] - v_1[1] * v_2[0]
}

/// Returns the spread between `v_1` and `v_2`, the square of the sine of
/// the angle between them. No square root is taken: the square of the cross
/// product is divided by the product of the quadrances, as `T` divides. For
/// a vector of quadrance zero that is a division by zero, with the outcome
/// that `T` has for it.
pub fn spread<T: Numeric>(v_1: Vector2<T>, v_2: Vector2<T>) -> (r: T)
    requires
        obeys_arithmetic_spec::<T>(),
        spread_defined(v_1, v_2),
    ensures
        r == spread_spec(v_1, v_2),
{
    let cross_product = cross(v_1, v_2);
    let quad_1 = quad(v_1);
    let quad_2 = quad(v_2);
    (cross_product * cross_product) / (quad_1 * quad_2)
}

} // verus!
