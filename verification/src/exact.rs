//! The proof that an exact integer type computes the formulas of the
//! integer lattice: each formula is defined on such a type exactly where the
//! computation on the integers stays in the range of the type and divides by
//! no zero, and its value is then the value on the integers.
//!
//! A caller that holds numbers can settle a `requires` and learn the result
//! from these lemmas, and leave the arithmetic to the solver:
//!
//! ```text
//! proof {
//!     lemma_spread_law_exact::<i64>(5, 25, 20);
//!     assert(spread_law_fits::<i64>(5, 25, 20) && spread_law_int(5, 25, 20) == 0)
//!         by (nonlinear_arith);
//! }
//! let s = spread_law::<i64>(5, 25, 20);
//! assert(s == 0);
//! ```

use crate::integer::{fits, lemma_truncated_quotient_bounds, ExactInteger};
use crate::numeric::{is_literal, is_one, lemma_one_is_unique, one_spec};
use crate::lattice::{
    archimedes_int, cross_int, dot_int, lemma_spread_bounds, quad_int, spread_int,
    spread_law_int, triple_quad_formula_int, IntVector,
};
use crate::triangle::{
    archimedes_defined, archimedes_spec, four_times_defined, four_times_spec,
    spread_law_defined, spread_law_spec, triple_quad_formula_defined, triple_quad_formula_spec,
};
use crate::vector::{
    cross_defined, cross_spec, dot_defined, dot_spec, quad_defined, quad_spec, spread_defined,
    spread_denominator, spread_numerator, spread_spec, Vector2,
};
use vstd::prelude::*;
use vstd::std_specs::ops::{AddSpec, DivSpec, MulSpec, SubSpec};

verus! {

/// The value of `T` that stands for the number four.
pub open spec fn four<T: ExactInteger>() -> T {
    T::of_int(4)
}

/// The integer coordinates of `v`.
pub open spec fn int_vector<T: ExactInteger>(v: Vector2<T>) -> IntVector {
    (v[0].to_int(), v[1].to_int())
}

/// The quadrance of `v` and the squares it is the sum of are in the range
/// of `T`.
pub open spec fn quad_fits<T: ExactInteger>(v: IntVector) -> bool {
    &&& fits::<T>(v.0 * v.0)
    &&& fits::<T>(v.1 * v.1)
    &&& fits::<T>(quad_int(v))
}

/// The dot product and the products it is the sum of are in the range of
/// `T`.
pub open spec fn dot_fits<T: ExactInteger>(v_1: IntVector, v_2: IntVector) -> bool {
    &&& fits::<T>(v_1.0 * v_2.0)
    &&& fits::<T>(v_1.1 * v_2.1)
    &&& fits::<T>(dot_int(v_1, v_2))
}

/// The cross product and the products it is the difference of are in the
/// range of `T`.
pub open spec fn cross_fits<T: ExactInteger>(v_1: IntVector, v_2: IntVector) -> bool {
    &&& fits::<T>(v_1.0 * v_2.1)
    &&& fits::<T>(v_1.1 * v_2.0)
    &&& fits::<T>(cross_int(v_1, v_2))
}

/// Neither vector has quadrance zero, and what is computed on the way to
/// the spread is in the range of `T`.
pub open spec fn spread_fits<T: ExactInteger>(v_1: IntVector, v_2: IntVector) -> bool {
    &&& cross_fits::<T>(v_1, v_2)
    &&& quad_fits::<T>(v_1)
    &&& quad_fits::<T>(v_2)
    &&& fits::<T>(cross_int(v_1, v_2) * cross_int(v_1, v_2))
    &&& fits::<T>(quad_int(v_1) * quad_int(v_2))
    &&& quad_int(v_1) != 0
    &&& quad_int(v_2) != 0
}

/// `4*q_1` and `4*q_1*q_2` are in the range of `T`.
pub open spec fn four_times_fits<T: ExactInteger>(q_1: int, q_2: int) -> bool {
    &&& fits::<T>(4 * q_1)
    &&& fits::<T>(4 * q_1 * q_2)
}

/// What is computed on the way to Archimedes' formula, and its value, are
/// in the range of `T`.
pub open spec fn archimedes_fits<T: ExactInteger>(q_1: int, q_2: int, q_3: int) -> bool {
    &&& fits::<T>(q_1 + q_2)
    &&& fits::<T>(q_1 + q_2 - q_3)
    &&& four_times_fits::<T>(q_1, q_2)
    &&& fits::<T>((q_1 + q_2 - q_3) * (q_1 + q_2 - q_3))
    &&& fits::<T>(archimedes_int(q_1, q_2, q_3))
}

/// Neither `q_1` nor `q_2` is zero, and Archimedes' formula is in the range
/// of `T`.
pub open spec fn spread_law_fits<T: ExactInteger>(q_1: int, q_2: int, q_3: int) -> bool {
    &&& archimedes_fits::<T>(q_1, q_2, q_3)
    &&& q_1 != 0
    &&& q_2 != 0
}

/// What is computed on the way to the triple quad formula, and its value,
/// are in the range of `T`.
pub open spec fn triple_quad_formula_fits<T: ExactInteger>(q_1: int, q_2: int, s_3: int) -> bool {
    &&& fits::<T>(q_1 + q_2)
    &&& fits::<T>((q_1 + q_2) * (q_1 + q_2))
    &&& four_times_fits::<T>(q_1, q_2)
    &&& fits::<T>(1 - s_3)
    &&& fits::<T>(4 * q_1 * q_2 * (1 - s_3))
    &&& fits::<T>(triple_quad_formula_int(q_1, q_2, s_3))
}

/// `quad_spec` is the quadrance of integer vectors, wherever that is in
/// range.
pub proof fn lemma_quad_exact<T: ExactInteger>(v: Vector2<T>)
    ensures
        quad_defined(v) <==> quad_fits::<T>(int_vector(v)),
        quad_defined(v) ==> quad_spec(v).to_int() == quad_int(int_vector(v)),
{
    T::lemma_mul(v[0], v[0]);
    T::lemma_mul(v[1], v[1]);
    T::lemma_add(v[0].mul_spec(v[0]), v[1].mul_spec(v[1]));
}

/// `dot_spec` is the dot product of integer vectors, wherever that is in
/// range.
pub proof fn lemma_dot_exact<T: ExactInteger>(v_1: Vector2<T>, v_2: Vector2<T>)
    ensures
        dot_defined(v_1, v_2) <==> dot_fits::<T>(int_vector(v_1), int_vector(v_2)),
        dot_defined(v_1, v_2) ==> dot_spec(v_1, v_2).to_int() == dot_int(
            int_vector(v_1),
            int_vector(v_2),
        ),
{
    T::lemma_mul(v_1[0], v_2[0]);
    T::lemma_mul(v_1[1], v_2[1]);
    T::lemma_add(v_1[0].mul_spec(v_2[0]), v_1[1].mul_spec(v_2[1]));
}

/// `cross_spec` is the cross product of integer vectors, wherever that is
/// in range.
pub proof fn lemma_cross_exact<T: ExactInteger>(v_1: Vector2<T>, v_2: Vector2<T>)
    ensures
        cross_defined(v_1, v_2) <==> cross_fits::<T>(int_vector(v_1), int_vector(v_2)),
        cross_defined(v_1, v_2) ==> cross_spec(v_1, v_2).to_int() == cross_int(
            int_vector(v_1),
            int_vector(v_2),
        ),
{
    T::lemma_mul(v_1[0], v_2[1]);
    T::lemma_mul(v_1[1], v_2[0]);
    T::lemma_sub(v_1[0].mul_spec(v_2[1]), v_1[1].mul_spec(v_2[0]));
}

/// `spread_spec` is the spread of integer vectors, rounded towards zero,
/// wherever neither vector has quadrance zero and the products on the way
/// are in range.
pub proof fn lemma_spread_exact<T: ExactInteger>(v_1: Vector2<T>, v_2: Vector2<T>)
    ensures
        spread_defined(v_1, v_2) <==> spread_fits::<T>(int_vector(v_1), int_vector(v_2)),
        spread_defined(v_1, v_2) ==> spread_spec(v_1, v_2).to_int() == spread_int(
            int_vector(v_1),
            int_vector(v_2),
        ),
{
    let q_1 = quad_int(int_vector(v_1));
    let q_2 = quad_int(int_vector(v_2));
    lemma_cross_exact(v_1, v_2);
    lemma_quad_exact(v_1);
    lemma_quad_exact(v_2);
    T::lemma_range(cross_spec(v_1, v_2));
    T::lemma_mul(cross_spec(v_1, v_2), cross_spec(v_1, v_2));
    T::lemma_mul(quad_spec(v_1), quad_spec(v_2));
    T::lemma_div(spread_numerator(v_1, v_2), spread_denominator(v_1, v_2));
    lemma_spread_bounds(int_vector(v_1), int_vector(v_2));
    assert(q_1 * q_2 != 0 <==> q_1 != 0 && q_2 != 0) by (nonlinear_arith);
}

/// `four_times_spec` is four times the product, wherever that is in range.
pub proof fn lemma_four_times_exact<T: ExactInteger>(q_1: T, q_2: T)
    ensures
        is_literal(4, four::<T>()),
        four_times_defined(four::<T>(), q_1, q_2) <==> four_times_fits::<T>(
            q_1.to_int(),
            q_2.to_int(),
        ),
        four_times_defined(four::<T>(), q_1, q_2) ==> four_times_spec(
            four::<T>(),
            q_1,
            q_2,
        ).to_int() == 4 * q_1.to_int() * q_2.to_int(),
{
    T::lemma_literal(4);
    T::lemma_of_int(4);
    T::lemma_mul(four::<T>(), q_1);
    T::lemma_mul(four::<T>().mul_spec(q_1), q_2);
}

/// `archimedes_spec` is Archimedes' formula on the integers, wherever that
/// is in range.
pub proof fn lemma_archimedes_exact<T: ExactInteger>(q_1: T, q_2: T, q_3: T)
    ensures
        is_literal(4, four::<T>()),
        archimedes_defined(four::<T>(), q_1, q_2, q_3) <==> archimedes_fits::<T>(
            q_1.to_int(),
            q_2.to_int(),
            q_3.to_int(),
        ),
        archimedes_defined(four::<T>(), q_1, q_2, q_3) ==> archimedes_spec(
            four::<T>(),
            q_1,
            q_2,
            q_3,
        ).to_int() == archimedes_int(q_1.to_int(), q_2.to_int(), q_3.to_int()),
{
    let temp = q_1.add_spec(q_2).sub_spec(q_3);
    T::lemma_add(q_1, q_2);
    T::lemma_sub(q_1.add_spec(q_2), q_3);
    lemma_four_times_exact(q_1, q_2);
    T::lemma_mul(temp, temp);
    T::lemma_sub(four_times_spec(four::<T>(), q_1, q_2), temp.mul_spec(temp));
}

/// `spread_law_spec` is the law of spreads on the integers, rounded towards
/// zero, wherever neither `q_1` nor `q_2` is zero and Archimedes' formula is
/// in range.
pub proof fn lemma_spread_law_exact<T: ExactInteger>(q_1: T, q_2: T, q_3: T)
    ensures
        is_literal(4, four::<T>()),
        spread_law_defined(four::<T>(), q_1, q_2, q_3) <==> spread_law_fits::<T>(
            q_1.to_int(),
            q_2.to_int(),
            q_3.to_int(),
        ),
        spread_law_defined(four::<T>(), q_1, q_2, q_3) ==> spread_law_spec(
            four::<T>(),
            q_1,
            q_2,
            q_3,
        ).to_int() == spread_law_int(q_1.to_int(), q_2.to_int(), q_3.to_int()),
{
    let a = q_1.to_int();
    let b = q_2.to_int();
    let m = 4 * a * b;
    lemma_archimedes_exact(q_1, q_2, q_3);
    lemma_four_times_exact(q_1, q_2);
    T::lemma_range(archimedes_spec(four::<T>(), q_1, q_2, q_3));
    T::lemma_div(
        archimedes_spec(four::<T>(), q_1, q_2, q_3),
        four_times_spec(four::<T>(), q_1, q_2),
    );
    assert((m != 0 <==> a != 0 && b != 0) && (m != 0 ==> m != 1 && m != -1)) by (nonlinear_arith)
        requires
            m == 4 * a * b,
    ;
    if m != 0 {
        lemma_truncated_quotient_bounds(archimedes_int(a, b, q_3.to_int()), m);
    }
}

/// The multiplicative identity of an exact integer type is the integer one.
pub proof fn lemma_one_exact<T: ExactInteger>()
    ensures
        is_one(one_spec::<T>()),
        one_spec::<T>().to_int() == 1,
{
    let o = T::of_int(1);
    T::lemma_literal(1);
    T::lemma_of_int(1);
    assert forall|a: T|
        #![trigger a.mul_spec(o)]
        #![trigger o.mul_spec(a)]
        a.mul_spec(o) == a && o.mul_spec(a) == a by {
        T::lemma_range(a);
        T::lemma_mul(a, o);
        T::lemma_mul(o, a);
        T::lemma_injective(a.mul_spec(o), a);
        T::lemma_injective(o.mul_spec(a), a);
    }
    lemma_one_is_unique(o);
}

/// `triple_quad_formula_spec` is the triple quad formula on the integers,
/// wherever that is in range.
pub proof fn lemma_triple_quad_formula_exact<T: ExactInteger>(q_1: T, q_2: T, s_3: T)
    ensures
        is_literal(4, four::<T>()),
        triple_quad_formula_defined(four::<T>(), q_1, q_2, s_3) <==> triple_quad_formula_fits::<
            T,
        >(q_1.to_int(), q_2.to_int(), s_3.to_int()),
        triple_quad_formula_defined(four::<T>(), q_1, q_2, s_3) ==> triple_quad_formula_spec(
            four::<T>(),
            q_1,
            q_2,
            s_3,
        ).to_int() == triple_quad_formula_int(q_1.to_int(), q_2.to_int(), s_3.to_int()),
{
    let sum = q_1.add_spec(q_2);
    let rest = one_spec::<T>().sub_spec(s_3);
    lemma_one_exact::<T>();
    T::lemma_add(q_1, q_2);
    T::lemma_mul(sum, sum);
    lemma_four_times_exact(q_1, q_2);
    T::lemma_sub(one_spec::<T>(), s_3);
    T::lemma_mul(four_times_spec(four::<T>(), q_1, q_2), rest);
    T::lemma_sub(sum.mul_spec(sum), four_times_spec(four::<T>(), q_1, q_2).mul_spec(rest));
}

} // verus!
