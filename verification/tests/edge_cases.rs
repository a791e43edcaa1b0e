use num_rational::Ratio;
use rat_trig::{archimedes, cross, dot, quad, spread, spread_law, triple_quad_formula};

#[test]
fn spread_of_perpendicular_and_parallel_vectors() {
    assert_eq!(spread([1, 0], [0, 1]), 1);
    assert_eq!(spread([1, 2], [1, 2]), 0);
    assert_eq!(
        spread(
            [Ratio::new(1, 1), Ratio::new(0, 1)],
            [Ratio::new(0, 1), Ratio::new(1, 1)]
        ),
        Ratio::new(1, 1)
    );
    assert_eq!(
        spread(
            [Ratio::new(1, 1), Ratio::new(2, 1)],
            [Ratio::new(1, 1), Ratio::new(2, 1)]
        ),
        Ratio::new(0, 1)
    );
    assert_eq!(spread([1.0, 0.0], [0.0, 1.0]), 1.0);
    assert_eq!(spread([1.0, 2.0], [1.0, 2.0]), 0.0);
}

#[test]
fn spread_of_whole_vectors_rounds_towards_zero() {
    // 4/125 and 1/2 both round to zero.
    assert_eq!(spread([1, 2], [3, 4]), 0);
    assert_eq!(spread([1_i64, 0], [1, 1]), 0);
    assert_eq!(spread([1_i64, 0], [-1, 1]), 0);
}

#[test]
fn spread_of_the_zero_vector_is_no_number_in_floating_point() {
    let s: f64 = spread([0.0, 0.0], [1.0, 1.0]);
    assert!(s.is_nan());
    let s: f64 = spread([1.0, 1.0], [0.0, 0.0]);
    assert!(s.is_nan());
}

#[test]
fn spread_law_with_a_side_of_quadrance_zero_is_not_finite_in_floating_point() {
    let s: f64 = spread_law(0.0, 1.0, 1.0);
    assert!(s.is_nan());
    let s: f64 = spread_law(1.0, 0.0, 4.0);
    assert!(s.is_infinite());
}

#[test]
fn spread_law_of_whole_quadrances_rounds_towards_zero() {
    // 4/5 rounds to zero.
    assert_eq!(spread_law(5, 25, 20), 0);
    assert_eq!(spread_law(5_i64, 25, 20), 0);
    // A right angle has spread one.
    assert_eq!(spread_law(9_i64, 16, 25), 1);
    // -12 / -8 rounds to one.
    assert_eq!(spread_law(-1_i64, 2, 3), 1);
    // -60 / 8 rounds to -7.
    assert_eq!(spread_law(1_i64, 2, 11), -7);
}

#[test]
fn formulas_take_quadrances_and_spreads_of_any_sign_and_size() {
    assert_eq!(archimedes(-1, -1, -1), 3);
    assert_eq!(archimedes(0, 0, 0), 0);
    assert_eq!(archimedes(0, 0, 5), -25);
    assert_eq!(triple_quad_formula(2, 3, 5), 121);
    assert_eq!(triple_quad_formula(2, 3, -1), -23);
    assert_eq!(triple_quad_formula(-2, 3, 2), -23);
    assert_eq!(quad([-3, -4]), 25);
    assert_eq!(cross([0, 0], [5, 6]), 0);
    assert_eq!(dot([0, 0], [5, 6]), 0);
}

#[test]
fn triple_quad_formula_uses_the_multiplicative_identity() {
    // With spread zero the term `1 - s_3` is the identity itself.
    assert_eq!(triple_quad_formula(3_i32, 5, 0), 4);
    assert_eq!(triple_quad_formula(3_i64, 5, 0), 4);
    assert_eq!(triple_quad_formula(3_i128, 5, 0), 4);
    assert_eq!(triple_quad_formula(3.0_f64, 5.0, 0.0), 4.0);
    assert_eq!(
        triple_quad_formula(Ratio::new(3, 1), Ratio::new(5, 1), Ratio::new(0, 1)),
        Ratio::new(4, 1)
    );
    // With spread one the term is zero.
    assert_eq!(triple_quad_formula(3_i64, 5, 1), 64);
    assert_eq!(triple_quad_formula(3.0_f64, 5.0, 1.0), 64.0);
}

#[test]
fn triple_quad_formula_on_the_spread_of_the_law_of_spreads() {
    // The spread opposite to the quadrance 20 in the triangle (5, 25, 20).
    let q_1 = Ratio::new(5, 1);
    let q_2 = Ratio::new(25, 1);
    let s_3 = spread_law(q_1, q_2, Ratio::new(20, 1));
    assert_eq!(s_3, Ratio::new(4, 5));
    assert_eq!(triple_quad_formula(q_1, q_2, s_3), Ratio::new(800, 1));
    // The spread between the vectors (1, 2) and (3, 4), of quadrances 5 and 25.
    let s_3 = spread(
        [Ratio::new(1, 1), Ratio::new(2, 1)],
        [Ratio::new(3, 1), Ratio::new(4, 1)],
    );
    assert_eq!(s_3, Ratio::new(4, 125));
    assert_eq!(triple_quad_formula(q_1, q_2, s_3), Ratio::new(416, 1));
}

#[test]
fn large_whole_numbers_within_range() {
    assert_eq!(quad([2_000_000_000_i64, 1_000_000_000]), 5_000_000_000_000_000_000);
    assert_eq!(cross([3_000_000_000_i64, 0], [0, 3_000_000_000]), 9_000_000_000_000_000_000);
    assert_eq!(
        dot([10_i128.pow(18), 10_i128.pow(18)], [10_i128.pow(18), 10_i128.pow(18)]),
        2 * 10_i128.pow(36)
    );
    assert_eq!(archimedes(1_000_000_i64, 1_000_000, 0), 0);
    assert_eq!(archimedes(1_000_000_i64, 1_000_000, 2_000_000), 4_000_000_000_000);
}
