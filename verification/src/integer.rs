//! Number types whose arithmetic is that of the integers as far as it stays
//! in range: `i32`, `i64` and `i128`.

use crate::numeric::{is_literal, obeys_arithmetic_spec, Numeric};
use vstd::prelude::*;
use vstd::std_specs::ops::{AddSpec, DivSpec, MulSpec, SubSpec};

verus! {

/// The conversion of a value into its own type, `From::from` as std
/// implements it for every type, returns the value unchanged, as std
/// documents. This is how an `i32` converts into an `i32`.
pub assume_specification<X>[ <X as core::convert::From<X>>::from ](value: X) -> (same: X)
    ensures
        same == value,
;

/// The quotient of `a` by `b`, rounded towards zero.
pub open spec fn truncated_quotient(a: int, b: int) -> int {
    if a >= 0 {
        a / b
    } else {
        -((-a) / b)
    }
}

/// A number type that holds the integers of a range, and that adds,
/// subtracts and multiplies them exactly wherever the result is in that
/// range, and divides them rounding towards zero.
pub trait ExactInteger: Numeric {
    /// The integer that `self` stands for.
    spec fn to_int(self) -> int;

    /// The least integer that the type holds.
    spec fn least() -> int;

    /// The greatest integer that the type holds.
    spec fn greatest() -> int;

    /// The value that stands for the integer `i`.
    spec fn of_int(i: int) -> Self;

    /// The operations of the type return what their specifications say.
    proof fn lemma_obeys_spec()
        ensures
            obeys_arithmetic_spec::<Self>(),
    ;

    /// Every value is in the range. The range holds the negative of each of
    /// its positive integers, and at most one negative integer more.
    proof fn lemma_range(a: Self)
        ensures
            Self::least() <= a.to_int() <= Self::greatest(),
            -Self::greatest() - 1 <= Self::least() <= -Self::greatest() <= 0,
    ;

    /// No two values stand for the same integer.
    proof fn lemma_injective(a: Self, b: Self)
        requires
            a.to_int() == b.to_int(),
        ensures
            a == b,
    ;

    /// Every integer of the range has a value that stands for it.
    proof fn lemma_of_int(i: int)
        requires
            Self::least() <= i <= Self::greatest(),
        ensures
            Self::of_int(i).to_int() == i,
    ;

    /// Every `i32` is in the range, and converts into the value that stands
    /// for it.
    proof fn lemma_literal(n: i32)
        ensures
            Self::least() <= n <= Self::greatest(),
            is_literal(n, Self::of_int(n as int)),
    ;

    /// A sum is defined where it is in the range, and is then exact.
    proof fn lemma_add(a: Self, b: Self)
        ensures
            a.add_req(b) <==> Self::least() <= a.to_int() + b.to_int() <= Self::greatest(),
            a.add_req(b) ==> a.add_spec(b).to_int() == a.to_int() + b.to_int(),
    ;

    /// A difference is defined where it is in the range, and is then exact.
    proof fn lemma_sub(a: Self, b: Self)
        ensures
            a.sub_req(b) <==> Self::least() <= a.to_int() - b.to_int() <= Self::greatest(),
            a.sub_req(b) ==> a.sub_spec(b).to_int() == a.to_int() - b.to_int(),
    ;

    /// A product is defined where it is in the range, and is then exact.
    proof fn lemma_mul(a: Self, b: Self)
        ensures
            a.mul_req(b) <==> Self::least() <= a.to_int() * b.to_int() <= Self::greatest(),
            a.mul_req(b) ==> a.mul_spec(b).to_int() == a.to_int() * b.to_int(),
    ;

    /// A quotient is defined where the divisor is not zero and the quotient,
    /// rounded towards zero, is in the range; it is then that quotient.
    proof fn lemma_div(a: Self, b: Self)
        ensures
            a.div_req(b) <==> b.to_int() != 0 && Self::least() <= truncated_quotient(
                a.to_int(),
                b.to_int(),
            ) <= Self::greatest(),
            a.div_req(b) ==> a.div_spec(b).to_int() == truncated_quotient(a.to_int(), b.to_int()),
    ;
}

/// `i` is in the range of integers that `T` holds.
pub open spec fn fits<T: ExactInteger>(i: int) -> bool {
    T::least() <= i <= T::greatest()
}

/// A quotient rounded towards zero is no longer than what was divided, and
/// at most half as long where the divisor is neither one nor minus one.
pub proof fn lemma_truncated_quotient_bounds(a: int, b: int)
    requires
        b != 0,
    ensures
        a >= 0 ==> -a <= truncated_quotient(a, b) <= a,
        a <= 0 ==> a <= truncated_quotient(a, b) <= -a,
        a >= 0 && b != 1 && b != -1 ==> -a <= 2 * truncated_quotient(a, b) <= a,
        a <= 0 && b != 1 && b != -1 ==> a <= 2 * truncated_quotient(a, b) <= -a,
        b == 1 ==> truncated_quotient(a, b) == a,
        b == -1 ==> truncated_quotient(a, b) == -a,
{
    let n = if a >= 0 {
        a
    } else {
        -a
    };
    assert(-n <= n / b <= n) by (nonlinear_arith)
        requires
            n >= 0,
            b != 0,
    ;
    assert(b != 1 && b != -1 ==> -n <= 2 * (n / b) <= n) by (nonlinear_arith)
        requires
            n >= 0,
            b != 0,
    ;
    assert((b == 1 ==> n / b == n) && (b == -1 ==> n / b == -n)) by (nonlinear_arith);
}

impl ExactInteger for i32 {
    open spec fn to_int(self) -> int {
        self as int
    }

    open spec fn least() -> int {
        i32::MIN as int
    }

    open spec fn greatest() -> int {
        i32::MAX as int
    }

    open spec fn of_int(i: int) -> Self {
        i as i32
    }

    proof fn lemma_obeys_spec() {
    }

    proof fn lemma_range(a: Self) {
    }

    proof fn lemma_injective(a: Self, b: Self) {
    }

    proof fn lemma_of_int(i: int) {
    }

    proof fn lemma_literal(n: i32) {
    }

    proof fn lemma_add(a: Self, b: Self) {
    }

    proof fn lemma_sub(a: Self, b: Self) {
    }

    proof fn lemma_mul(a: Self, b: Self) {
    }

    proof fn lemma_div(a: Self, b: Self) {
        if b != 0 {
            lemma_truncated_quotient_bounds(a as int, b as int);
        }
    }
}

impl ExactInteger for i64 {
    open spec fn to_int(self) -> int {
        self as int
    }

    open spec fn least() -> int {
        i64::MIN as int
    }

    open spec fn greatest() -> int {
        i64::MAX as int
    }

    open spec fn of_int(i: int) -> Self {
        i as i64
    }

    proof fn lemma_obeys_spec() {
    }

    proof fn lemma_range(a: Self) {
    }

    proof fn lemma_injective(a: Self, b: Self) {
    }

    proof fn lemma_of_int(i: int) {
    }

    proof fn lemma_literal(n: i32) {
    }

    proof fn lemma_add(a: Self, b: Self) {
    }

    proof fn lemma_sub(a: Self, b: Self) {
    }

    proof fn lemma_mul(a: Self, b: Self) {
    }

    proof fn lemma_div(a: Self, b: Self) {
        if b != 0 {
            lemma_truncated_quotient_bounds(a as int, b as int);
        }
    }
}

impl ExactInteger for i128 {
    open spec fn to_int(self) -> int {
        self as int
    }

    open spec fn least() -> int {
        i128::MIN as int
    }

    open spec fn greatest() -> int {
        i128::MAX as int
    }

    open spec fn of_int(i: int) -> Self {
        i as i128
    }

    proof fn lemma_obeys_spec() {
    }

    proof fn lemma_range(a: Self) {
    }

    proof fn lemma_injective(a: Self, b: Self) {
    }

    proof fn lemma_of_int(i: int) {
    }

    proof fn lemma_literal(n: i32) {
    }

    proof fn lemma_add(a: Self, b: Self) {
    }

    proof fn lemma_sub(a: Self, b: Self) {
    }

    proof fn lemma_mul(a: Self, b: Self) {
    }

    proof fn lemma_div(a: Self, b: Self) {
        if b != 0 {
            lemma_truncated_quotient_bounds(a as int, b as int);
        }
    }
}

} // verus!
