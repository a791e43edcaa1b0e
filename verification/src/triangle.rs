//! Triangles by their quadrances: Archimedes' formula, the law of spreads
//! and the triple quad formula.

use crate::numeric::{
    is_literal, lemma_one_is_unique, obeys_arithmetic_spec, one, one_spec, Numeric,
};
use vstd::prelude::*;
use vstd::std_specs::ops::{AddSpec, DivSpec, MulSpec, SubSpec};

verus! {

/// `4*q_1*q_2`, multiplied from the left, in the arithmetic of `T`; `four`
/// is the value of `T` that stands for the number four.
pub open spec fn four_times_spec<T: Numeric>(four: T, q_1: T, q_2: T) -> T {
    four.mul_spec(q_1).mul_spec(q_2)
}

/// Every step of `four_times_spec(four, q_1, q_2)` is within what `T` can
/// compute.
pub open spec fn four_times_defined<T: Numeric>(four: T, q_1: T, q_2: T) -> bool {
    &&& four.mul_req(q_1)
    &&& four.mul_spec(q_1).mul_req(q_2)
}

/// Archimedes' formula: `4*q_1*q_2 - (q_1 + q_2 - q_3)^2`, in the
/// arithmetic of `T`.
pub open spec fn archimedes_spec<T: Numeric>(four: T, q_1: T, q_2: T, q_3: T) -> T {
    let temp = q_1.add_spec(q_2).sub_spec(q_3);
    four_times_spec(four, q_1, q_2).sub_spec(temp.mul_spec(temp))
}

/// Every step of `archimedes_spec(four, q_1, q_2, q_3)` is within what `T`
/// can compute.
pub open spec fn archimedes_defined<T: Numeric>(four: T, q_1: T, q_2: T, q_3: T) -> bool {
    let temp = q_1.add_spec(q_2).sub_spec(q_3);
    &&& q_1.add_req(q_2)
    &&& q_1.add_spec(q_2).sub_req(q_3)
    &&& four_times_defined(four, q_1, q_2)
    &&& temp.mul_req(temp)
    &&& four_times_spec(four, q_1, q_2).sub_req(temp.mul_spec(temp))
}

/// The law of spreads: Archimedes' formula over `4*q_1*q_2`, divided as `T`
/// divides.
pub open spec fn spread_law_spec<T: Numeric>(four: T, q_1: T, q_2: T, q_3: T) -> T {
    archimedes_spec(four, q_1, q_2, q_3).div_spec(four_times_spec(four, q_1, q_2))
}

/// Every step of `spread_law_spec(four, q_1, q_2, q_3)` is within what `T`
/// can compute. The last step is the division: a type that cannot divide by
/// zero leaves out `q_1` and `q_2` of value zero here.
pub open spec fn spread_law_defined<T: Numeric>(four: T, q_1: T, q_2: T, q_3: T) -> bool {
    &&& archimedes_defined(four, q_1, q_2, q_3)
    &&& archimedes_spec(four, q_1, q_2, q_3).div_req(four_times_spec(four, q_1, q_2))
}

/// The triple quad formula: `(q_1 + q_2)^2 - 4*q_1*q_2*(1 - s_3)`, in the
/// arithmetic of `T`.
pub open spec fn triple_quad_formula_spec<T: Numeric>(four: T, q_1: T, q_2: T, s_3: T) -> T {
    let sum = q_1.add_spec(q_2);
    sum.mul_spec(sum).sub_spec(
        four_times_spec(four, q_1, q_2).mul_spec(one_spec::<T>().sub_spec(s_3)),
    )
}

/// Every step of `triple_quad_formula_spec(four, q_1, q_2, s_3)` is within
/// what `T` can compute.
pub open spec fn triple_quad_formula_defined<T: Numeric>(
    four: T,
    q_1: T,
    q_2: T,
    s_3: T,
) -> bool {
    let sum = q_1.add_spec(q_2);
    let rest = one_spec::<T>().sub_spec(s_3);
    &&& q_1.add_req(q_2)
    &&& sum.mul_req(sum)
    &&& four_times_defined(four, q_1, q_2)
    &&& one_spec::<T>().sub_req(s_3)
    &&& four_times_spec(four, q_1, q_2).mul_req(rest)
    &&& sum.mul_spec(sum).sub_req(four_times_spec(four, q_1, q_2).mul_spec(rest))
}

/// Returns Archimedes' quadrea of the triangle with quadrances `q_1`, `q_2`
/// and `q_3`: sixteen times the square of its area, which is zero where the
/// corners lie on one line. No quadrance is checked for its sign or size.
pub fn archimedes<T: Numeric>(q_1: T, q_2: T, q_3: T) -> (r: T)
    requires
        T::obeys_add_spec(),
        T::obeys_sub_spec(),
        T::obeys_mul_spec(),
        exists|four: T| is_literal(4, four) && archimedes_defined(four, q_1, q_2, q_3),
    ensures
        forall|four: T| is_literal(4, four) ==> r == archimedes_spec(four, q_1, q_2, q_3),
{
    let temp = q_1 + q_2 - q_3;
    T::from(4) * q_1 * q_2 - temp * temp
}

/// Returns the spread opposite to the side of quadrance `q_3` in the
/// triangle with quadrances `q_1`, `q_2` and `q_3`: Archimedes' formula
/// divided by `4*q_1*q_2`, as `T` divides. For `q_1` or `q_2` of value zero
/// that is a division by zero, with the outcome that `T` has for it.
pub fn spread_law<T: Numeric>(q_1: T, q_2: T, q_3: T) -> (r: T)
    requires
        obeys_arithmetic_spec::<T>(),
        exists|four: T| is_literal(4, four) && spread_law_defined(four, q_1, q_2, q_3),
    ensures
        forall|four: T| is_literal(4, four) ==> r == spread_law_spec(four, q_1, q_2, q_3),
{
    let numerator = archimedes(q_1, q_2, q_3);
    let denominator = T::from(4) * q_1 * q_2;
    numerator / denominator
}

/// Returns the value of the triple quad formula for the quadrances `q_1`
/// and `q_2` and the spread `s_3`: `(q_1 + q_2)^2 - 4*q_1*q_2*(1 - s_3)`,
/// where `1` is the multiplicative identity of `T`.
pub fn triple_quad_formula<T: Numeric + num_traits::One>(q_1: T, q_2: T, s_3: T) -> (r: T)
    requires
        T::obeys_add_spec(),
        T::obeys_sub_spec(),
        T::obeys_mul_spec(),
        exists|four: T| is_literal(4, four) && triple_quad_formula_defined(four, q_1, q_2, s_3),
    ensures
        forall|four: T|
            is_literal(4, four) ==> r == triple_quad_formula_spec(four, q_1, q_2, s_3),
{
    let sum = q_1 + q_2;
    let unit = one::<T>();
    proof {
        lemma_one_is_unique(unit);
    }
    sum * sum - T::from(4) * q_1 * q_2 * (unit - s_3)
}

} // verus!
