//! The arithmetic that a number type must offer to take part in the formulas.
//!
//! The contracts of the formulas speak of this arithmetic through what vstd
//! attaches to the operator traits of std: what `a + b` returns (`add_spec`)
//! and where it may be computed (`add_req`), and the like for the other
//! operators. They ask that the type obeys these specifications, as the
//! machine integers do. On a type that has none, a floating-point type for
//! one, the formulas compute all the same, and nothing is proved of the
//! result.
//!
//! Two constants come from elsewhere. The number four is converted from an
//! `i32`, and the contracts speak of the value that this conversion returns
//! (`is_literal`). The number one is the multiplicative identity that
//! `num_traits` names, and the contracts speak of the value that is neutral
//! for the multiplication (`is_one`).

use std::ops::{Add, Div, Mul, Sub};
use vstd::prelude::*;
use vstd::std_specs::ops::{AddSpec, DivSpec, MulSpec, SubSpec};

verus! {

/// A number type that the formulas can compute with: it is copied freely, can
/// be compared, is closed under the four operations and can be made from a
/// small integer.
pub trait Numeric:
    Copy
    + PartialOrd
    + Add<Output = Self>
    + Sub<Output = Self>
    + Mul<Output = Self>
    + Div<Output = Self>
    + From<i32>
{
}

impl<T> Numeric for T where
    T: Copy
        + PartialOrd
        + Add<Output = T>
        + Sub<Output = T>
        + Mul<Output = T>
        + Div<Output = T>
        + From<i32>,
{
}

/// The four operations of `T` return what their specifications say.
pub open spec fn obeys_arithmetic_spec<T: Numeric>() -> bool {
    &&& T::obeys_add_spec()
    &&& T::obeys_sub_spec()
    &&& T::obeys_mul_spec()
    &&& T::obeys_div_spec()
}

/// `x` is the value of `T` that stands for the small integer `n`: whatever
/// the conversion of `n` into `T` returns is `x`.
pub open spec fn is_literal<T: Numeric>(n: i32, x: T) -> bool {
    forall|y: T| #[trigger] call_ensures(<T as From<i32>>::from, (n,), y) ==> y == x
}

/// `o` is neutral for the multiplication of `T`, on both sides.
pub open spec fn is_one<T: Numeric>(o: T) -> bool {
    forall|a: T|
        #![trigger a.mul_spec(o)]
        #![trigger o.mul_spec(a)]
        a.mul_spec(o) == a && o.mul_spec(a) == a
}

/// The multiplicative identity of `T`, where it has one.
pub open spec fn one_spec<T: Numeric>() -> T {
    choose|o: T| is_one(o)
}

/// A type has at most one multiplicative identity.
pub proof fn lemma_one_is_unique<T: Numeric>(o: T)
    requires
        is_one(o),
    ensures
        o == one_spec::<T>(),
{
    let p = one_spec::<T>();
    assert(is_one(p));
    assert(o.mul_spec(p) == o);
    assert(o.mul_spec(p) == p);
}

/// Calls `num_traits::One::one`. The crate documents the value it returns as
/// the multiplicative identity of `T`: `a * 1 = a` and `1 * a = a` for every
/// `a`. The contract states this law for the multiplication that `T`
/// specifies, and nothing else.
#[verifier::external_body]
pub(crate) fn one<T: Numeric + num_traits::One>() -> (r: T)
    ensures
        T::obeys_mul_spec() ==> is_one(r),
{
    <T as num_traits::One>::one()
}

} // verus!
