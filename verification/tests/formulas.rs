use num_rational::Ratio;
use rat_trig::{archimedes, cross, dot, quad, spread, spread_law, triple_quad_formula};

#[test]
fn test_archimedes() {
    // Test with integers
    let q_1_int = 2;
    let q_2_int = 4;
    let q_3_int = 6;
    assert_eq!(archimedes(q_1_int, q_2_int, q_3_int), 32);

    // Test with floats
    let q_1_float = 2.0;
    let q_2_float = 4.0;
    let q_3_float = 6.0;
    assert_eq!(archimedes(q_1_float, q_2_float, q_3_float), 32.0);

    // Test with fractions
    let q_1_frac = Ratio::new(1, 2);
    let q_2_frac = Ratio::new(1, 4);
    let q_3_frac = Ratio::new(1, 6);
    assert_eq!(
        archimedes(q_1_frac, q_2_frac, q_3_frac),
        Ratio::new(23, 144)
    );

    // Test with zero quadrance
    let q_1_zero = 0;
    let q_2_zero = 4;
    let q_3_zero = 6;
    assert_eq!(archimedes(q_1_zero, q_2_zero, q_3_zero), -4);

    // Test with degenerate triangle (collinear points)
    let q_1_degen = 1;
    let q_2_degen = 4;
    let q_3_degen = 9;
    assert_eq!(archimedes(q_1_degen, q_2_degen, q_3_degen), 0);

    // Test with fractions of mixed size
    let q_1_mixed = Ratio::new(1, 1);
    let q_2_mixed = Ratio::new(1, 2);
    let q_3_mixed = Ratio::new(2, 1);
    assert_eq!(
        archimedes(q_1_mixed, q_2_mixed, q_3_mixed),
        Ratio::new(7, 4)
    );

    // Test with negative inputs
    let q_1_neg = -1;
    let q_2_neg = 2;
    let q_3_neg = 3;
    assert_eq!(archimedes(q_1_neg, q_2_neg, q_3_neg), -12);
}

#[test]
fn test_cross() {
    // Test with integer vectors
    let v_1_int1 = [1, 2];
    let v_2_int1 = [3, 4];
    assert_eq!(cross(v_1_int1, v_2_int1), -2);

    // Test with float vectors
    let v_1_float = [1.0, 2.0];
    let v_2_float = [3.0, 4.0];
    assert_eq!(cross(v_1_float, v_2_float), -2.0);

    // Test with Fraction vectors
    let v_1_frac = [Ratio::new(1, 2), Ratio::new(1, 4)];
    let v_2_frac = [Ratio::new(1, 6), Ratio::new(1, 8)];
    assert_eq!(cross(v_1_frac, v_2_frac), Ratio::new(1, 48));

    // Test with integer vectors (parallel)
    let v_1_int2 = [1, 2];
    let v_2_int2 = [1, 2];
    assert_eq!(cross(v_1_int2, v_2_int2), 0);

    // Test with integer vectors (perpendicular)
    let v_1_int3 = [1, 0];
    let v_2_int3 = [0, 1];
    assert_eq!(cross(v_1_int3, v_2_int3), 1);
}

#[test]
fn test_dot() {
    // Test with integer vectors
    let v_1_int1 = [1, 2];
    let v_2_int1 = [3, 4];
    assert_eq!(dot(v_1_int1, v_2_int1), 11);

    // Test with float vectors
    let v_1_float = [1.0, 2.0];
    let v_2_float = [3.0, 4.0];
    assert_eq!(dot(v_1_float, v_2_float), 11.0);

    // Test with Fraction vectors
    let v_1_frac = [Ratio::new(1, 2), Ratio::new(1, 4)];
    let v_2_frac = [Ratio::new(1, 6), Ratio::new(1, 8)];
    assert_eq!(dot(v_1_frac, v_2_frac), Ratio::new(11, 96));

    // Test with integer vectors (negative dot product)
    let v_1_int2 = [1, 2];
    let v_2_int2 = [-1, -2];
    assert_eq!(dot(v_1_int2, v_2_int2), -5);

    // Test with integer vectors (orthogonal)
    let v_1_int3 = [1, 0];
    let v_2_int3 = [0, 1];
    assert_eq!(dot(v_1_int3, v_2_int3), 0);
}

#[test]
fn test_quad() {
    // Test with integer vector
    let v_int = [3, 4];
    assert_eq!(quad(v_int), 25);

    // Test with float vector
    let v_float = [3.0, 4.0];
    assert_eq!(quad(v_float), 25.0);

    // Test with Fraction vector
    let v_frac = [Ratio::new(3, 5), Ratio::new(4, 5)];
    assert_eq!(quad(v_frac), Ratio::new(1, 1));

    // Test with another integer vector
    let v_int2 = [1, 1];
    assert_eq!(quad(v_int2), 2);

    // Test with zero vector
    let v_zero = [0, 0];
    assert_eq!(quad(v_zero), 0);
}

#[test]
fn test_spread() {
    // Test with Fraction vectors
    let v_1_frac1 = [Ratio::new(1, 1), Ratio::new(2, 1)];
    let v_2_frac1 = [Ratio::new(3, 1), Ratio::new(4, 1)];
    assert_eq!(spread(v_1_frac1, v_2_frac1), Ratio::new(4, 125));

    // Test with float vectors
    let v_1_float = [1.0, 2.0];
    let v_2_float = [3.0, 4.0];
    assert_eq!(spread(v_1_float, v_2_float), 0.032);

    // Test with different Fraction vectors
    let v_1_frac2 = [Ratio::new(1, 2), Ratio::new(1, 4)];
    let v_2_frac2 = [Ratio::new(1, 6), Ratio::new(1, 8)];
    assert_eq!(spread(v_1_frac2, v_2_frac2), Ratio::new(4, 125));

    // Test with integer vectors (parallel)
    let v_1_int1 = [1, 2];
    let v_2_int1 = [1, 2];
    assert_eq!(spread(v_1_int1, v_2_int1), 0);

    // Test with integer vectors (perpendicular)
    let v_1_int2 = [1, 0];
    let v_2_int2 = [0, 1];
    assert_eq!(spread(v_1_int2, v_2_int2), 1);
}

#[test]
fn test_spread_law() {
    let q_1 = 5.0;
    let q_2 = 25.0;
    let q_3 = 20.0;
    assert_eq!(spread_law(q_1, q_2, q_3), 0.8);

    let q_1 = 1.0;
    let q_2 = 1.0;
    let q_3 = 4.0;
    assert_eq!(spread_law(q_1, q_2, q_3), 0.0);

    let q_1 = 1.0;
    let q_2 = 1.0;
    let q_3 = 0.0;
    assert_eq!(spread_law(q_1, q_2, q_3), 0.0);
}

#[test]
fn test_triple_quad_formula() {
    // Test with two whole quadrances and a fraction as the spread
    let q_1_case1 = Ratio::new(5, 1);
    let q_2_case1 = Ratio::new(25, 1);
    let s_3_case1 = Ratio::new(4, 125);
    assert_eq!(
        triple_quad_formula(q_1_case1, q_2_case1, s_3_case1),
        Ratio::new(416, 1)
    );

    // Test with int, int, int (s_3 = 1)
    let q_1_case2 = 1;
    let q_2_case2 = 1;
    let s_3_case2 = 1;
    assert_eq!(triple_quad_formula(q_1_case2, q_2_case2, s_3_case2), 4);

    // Test with int, int, int (s_3 = 0)
    let q_1_case3 = 1;
    let q_2_case3 = 1;
    let s_3_case3 = 0;
    assert_eq!(triple_quad_formula(q_1_case3, q_2_case3, s_3_case3), 0);
}
