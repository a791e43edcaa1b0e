//! What holds of the formulas on every exact integer type.

use crate::exact::{
    four, int_vector, lemma_archimedes_exact, lemma_cross_exact, lemma_dot_exact, lemma_quad_exact,
    lemma_spread_exact, lemma_spread_law_exact, lemma_triple_quad_formula_exact,
};
use crate::integer::ExactInteger;
use crate::geometry::{
    collinear, doubled_area, lemma_quadrea, lemma_real_of_archimedes, quadrance, Point,
};
use crate::lattice::{cross_int, lemma_spread_bounds, quad_int};
use crate::triangle::{
    archimedes_defined, archimedes_spec, spread_law_defined, spread_law_spec,
    triple_quad_formula_defined, triple_quad_formula_spec,
};
use crate::vector::{
    cross_defined, cross_spec, dot_defined, dot_spec, quad_defined, quad_spec, spread_defined,
    spread_spec, Vector2,
};
use vstd::prelude::*;
use vstd::std_specs::ops::{AddSpec, DivSpec, MulSpec, SubSpec};

verus! {

/// The cross product is antisymmetric: exchanging the vectors negates it.
/// The exchanged product is defined unless that negative is out of range.
pub proof fn lemma_cross_antisymmetric<T: ExactInteger>(v_1: Vector2<T>, v_2: Vector2<T>)
    requires
        cross_defined(v_1, v_2),
    ensures
        cross_defined(v_2, v_1) <==> -cross_spec(v_1, v_2).to_int() <= T::greatest(),
        cross_defined(v_2, v_1)
            ==> cross_spec(v_2, v_1).to_int() == -cross_spec(v_1, v_2).to_int(),
{
    let (a, b) = int_vector(v_1);
    let (c, d) = int_vector(v_2);
    lemma_cross_exact(v_1, v_2);
    lemma_cross_exact(v_2, v_1);
    T::lemma_range(cross_spec(v_1, v_2));
    assert(c * b == b * c && d * a == a * d) by (nonlinear_arith);
}

/// The dot product is symmetric: exchanging the vectors leaves it as it is.
pub proof fn lemma_dot_symmetric<T: ExactInteger>(v_1: Vector2<T>, v_2: Vector2<T>)
    requires
        dot_defined(v_1, v_2),
    ensures
        dot_defined(v_2, v_1),
        dot_spec(v_2, v_1) == dot_spec(v_1, v_2),
{
    let (a, b) = int_vector(v_1);
    let (c, d) = int_vector(v_2);
    lemma_dot_exact(v_1, v_2);
    lemma_dot_exact(v_2, v_1);
    assert(c * a == a * c && d * b == b * d) by (nonlinear_arith);
    T::lemma_injective(dot_spec(v_2, v_1), dot_spec(v_1, v_2));
}

/// The spread does not depend on the order of the vectors, and lies between
/// zero and one.
pub proof fn lemma_spread_symmetric<T: ExactInteger>(v_1: Vector2<T>, v_2: Vector2<T>)
    requires
        spread_defined(v_1, v_2),
    ensures
        spread_defined(v_2, v_1),
        spread_spec(v_2, v_1) == spread_spec(v_1, v_2),
        0 <= spread_spec(v_1, v_2).to_int() <= 1,
{
    let (a, b) = int_vector(v_1);
    let (c, d) = int_vector(v_2);
    let x = cross_int(int_vector(v_1), int_vector(v_2));
    let q_1 = quad_int(int_vector(v_1));
    let q_2 = quad_int(int_vector(v_2));
    lemma_spread_exact(v_1, v_2);
    lemma_spread_exact(v_2, v_1);
    lemma_spread_bounds(int_vector(v_1), int_vector(v_2));
    T::lemma_range(v_1[0]);
    // The exchanged cross product is the negative, which is in range
    // because its square is; the quadrances are multiplied the other way.
    assert(c * b == b * c && d * a == a * d) by (nonlinear_arith);
    assert(-x <= x * x && (-x) * (-x) == x * x) by (nonlinear_arith);
    assert(q_2 * q_1 == q_1 * q_2) by (nonlinear_arith);
    T::lemma_injective(spread_spec(v_2, v_1), spread_spec(v_1, v_2));
}

/// Archimedes' formula on the quadrances of a triangle is sixteen times the
/// square of its area, and so is zero exactly when the three corners lie on
/// one line. The corners are any points of the plane between which the
/// quadrances are the three numbers.
pub proof fn lemma_archimedes_zero_iff_collinear<T: ExactInteger>(
    q_1: T,
    q_2: T,
    q_3: T,
    a: Point,
    b: Point,
    c: Point,
)
    requires
        archimedes_defined(four::<T>(), q_1, q_2, q_3),
        q_1.to_int() as real == quadrance(b, c),
        q_2.to_int() as real == quadrance(a, c),
        q_3.to_int() as real == quadrance(a, b),
    ensures
        archimedes_spec(four::<T>(), q_1, q_2, q_3).to_int() as real
            == 4real * (doubled_area(a, b, c) * doubled_area(a, b, c)),
        archimedes_spec(four::<T>(), q_1, q_2, q_3).to_int() == 0 <==> collinear(a, b, c),
{
    let x = doubled_area(a, b, c);
    lemma_archimedes_exact(q_1, q_2, q_3);
    lemma_real_of_archimedes(q_1.to_int(), q_2.to_int(), q_3.to_int());
    lemma_quadrea(a, b, c);
    assert(x != 0real ==> x * x > 0real) by (nonlinear_arith);
    assert(x == 0real ==> x * x == 0real) by (nonlinear_arith);
}

/// The vector formulas do not depend on the type that computes them: on
/// vectors with the same integer coordinates, two exact integer types give
/// results that stand for the same integer, wherever both are defined.
pub proof fn lemma_vector_formulas_agree<T: ExactInteger, U: ExactInteger>(
    v_1: Vector2<T>,
    v_2: Vector2<T>,
    w_1: Vector2<U>,
    w_2: Vector2<U>,
)
    requires
        int_vector(v_1) == int_vector(w_1),
        int_vector(v_2) == int_vector(w_2),
    ensures
        quad_defined(v_1) && quad_defined(w_1)
            ==> quad_spec(v_1).to_int() == quad_spec(w_1).to_int(),
        dot_defined(v_1, v_2) && dot_defined(w_1, w_2)
            ==> dot_spec(v_1, v_2).to_int() == dot_spec(w_1, w_2).to_int(),
        cross_defined(v_1, v_2) && cross_defined(w_1, w_2)
            ==> cross_spec(v_1, v_2).to_int() == cross_spec(w_1, w_2).to_int(),
        spread_defined(v_1, v_2) && spread_defined(w_1, w_2)
            ==> spread_spec(v_1, v_2).to_int() == spread_spec(w_1, w_2).to_int(),
{
    lemma_quad_exact(v_1);
    lemma_quad_exact(w_1);
    lemma_dot_exact(v_1, v_2);
    lemma_dot_exact(w_1, w_2);
    lemma_cross_exact(v_1, v_2);
    lemma_cross_exact(w_1, w_2);
    lemma_spread_exact(v_1, v_2);
    lemma_spread_exact(w_1, w_2);
}

/// The triangle formulas do not depend on the type that computes them: on
/// numbers that stand for the same integers, two exact integer types give
/// results that stand for the same integer, wherever both are defined.
pub proof fn lemma_triangle_formulas_agree<T: ExactInteger, U: ExactInteger>(
    q_1: T,
    q_2: T,
    q_3: T,
    r_1: U,
    r_2: U,
    r_3: U,
)
    requires
        q_1.to_int() == r_1.to_int(),
        q_2.to_int() == r_2.to_int(),
        q_3.to_int() == r_3.to_int(),
    ensures
        archimedes_defined(four::<T>(), q_1, q_2, q_3)
            && archimedes_defined(four::<U>(), r_1, r_2, r_3)
            ==> archimedes_spec(four::<T>(), q_1, q_2, q_3).to_int()
                == archimedes_spec(four::<U>(), r_1, r_2, r_3).to_int(),
        spread_law_defined(four::<T>(), q_1, q_2, q_3)
            && spread_law_defined(four::<U>(), r_1, r_2, r_3)
            ==> spread_law_spec(four::<T>(), q_1, q_2, q_3).to_int()
                == spread_law_spec(four::<U>(), r_1, r_2, r_3).to_int(),
        triple_quad_formula_defined(four::<T>(), q_1, q_2, q_3)
            && triple_quad_formula_defined(four::<U>(), r_1, r_2, r_3)
            ==> triple_quad_formula_spec(four::<T>(), q_1, q_2, q_3).to_int()
                == triple_quad_formula_spec(four::<U>(), r_1, r_2, r_3).to_int(),
{
    lemma_archimedes_exact(q_1, q_2, q_3);
    lemma_archimedes_exact(r_1, r_2, r_3);
    lemma_spread_law_exact(q_1, q_2, q_3);
    lemma_spread_law_exact(r_1, r_2, r_3);
    lemma_triple_quad_formula_exact(q_1, q_2, q_3);
    lemma_triple_quad_formula_exact(r_1, r_2, r_3);
}

} // verus!
