//! Equality up to a small difference.
//!
//! Two payloads are approximately equal where the distance between them is
//! strictly less than a bound. The bound is given by the caller, or it is the
//! default one: one millionth, computed in the payload's own arithmetic.
use crate::num::{one, one_spec};
use core::ops::{Add, Div, Mul, Sub};
use vstd::prelude::*;
use vstd::std_specs::cmp::{PartialOrdIs, PartialOrdSpec};
use vstd::std_specs::ops::{AddSpec, DivSpec, MulSpec, SubSpec};

verus! {

/// The distance between `a` and `b`: the greater minus the lesser.
pub open spec fn abs_diff_spec<T: PartialOrd + Sub<T, Output = T>>(a: T, b: T) -> T {
    if a.is_lt(&b) {
        b.sub_spec(a)
    } else {
        a.sub_spec(b)
    }
}

/// The subtraction that gives the distance between `a` and `b` is defined.
pub open spec fn abs_diff_req<T: PartialOrd + Sub<T, Output = T>>(a: T, b: T) -> bool {
    &&& T::obeys_partial_cmp_spec()
    &&& T::obeys_sub_spec()
    &&& if a.is_lt(&b) {
        b.sub_req(a)
    } else {
        a.sub_req(b)
    }
}

/// `a` and `b` are less than `epsilon` apart. A distance of exactly `epsilon`
/// is too much.
pub open spec fn approx_eq_eps_spec<T: PartialOrd + Sub<T, Output = T>>(
    a: T,
    b: T,
    epsilon: T,
) -> bool {
    abs_diff_spec(a, b).is_lt(&epsilon)
}

/// One million, counted up from one: `((1 + 1) * (1 + 1) + 1) * (1 + 1)` is
/// ten, and a million is ten times ten times ten, squared.
pub open spec fn million_spec<T: Add<T, Output = T> + Mul<T, Output = T>>() -> T {
    let one = one_spec::<T>();
    let two = one.add_spec(one);
    let five = two.mul_spec(two).add_spec(one);
    let ten = five.mul_spec(two);
    let thousand = ten.mul_spec(ten).mul_spec(ten);
    thousand.mul_spec(thousand)
}

/// The default bound: one millionth.
pub open spec fn approx_epsilon_spec<T: Add<T, Output = T> + Mul<T, Output = T> + Div<
    T,
    Output = T,
>>() -> T {
    one_spec::<T>().div_spec(million_spec::<T>())
}

/// Every operation that leads to the default bound is defined: the type can
/// count up to a million and divide one by it.
pub open spec fn approx_epsilon_req<T: Add<T, Output = T> + Mul<T, Output = T> + Div<
    T,
    Output = T,
>>() -> bool {
    let one = one_spec::<T>();
    let two = one.add_spec(one);
    let four = two.mul_spec(two);
    let five = four.add_spec(one);
    let ten = five.mul_spec(two);
    let hundred = ten.mul_spec(ten);
    let thousand = hundred.mul_spec(ten);
    &&& T::obeys_add_spec()
    &&& T::obeys_mul_spec()
    &&& T::obeys_div_spec()
    &&& one.add_req(one)
    &&& two.mul_req(two)
    &&& four.add_req(one)
    &&& five.mul_req(two)
    &&& ten.mul_req(ten)
    &&& hundred.mul_req(ten)
    &&& thousand.mul_req(thousand)
    &&& one.div_req(thousand.mul_spec(thousand))
}

/// The default bound under which two payloads count as approximately equal:
/// one millionth.
pub fn approx_epsilon<T: Copy + ::num::One + Add<T, Output = T> + Mul<T, Output = T> + Div<
    T,
    Output = T,
>>() -> (epsilon: T)
    requires
        approx_epsilon_req::<T>(),
    ensures
        epsilon == approx_epsilon_spec::<T>(),
{
    let one: T = one();
    let two = one + one;
    let five = two * two + one;
    let ten = five * two;
    let thousand = ten * ten * ten;
    one / (thousand * thousand)
}

/// Whether `a` and `b` are less than `epsilon` apart.
pub fn approx_eq_eps<T: Copy + PartialOrd + Sub<T, Output = T>>(a: &T, b: &T, epsilon: &T) -> (r:
    bool)
    requires
        abs_diff_req(*a, *b),
    ensures
        r == approx_eq_eps_spec(*a, *b, *epsilon),
{
    let distance = if *a < *b {
        *b - *a
    } else {
        *a - *b
    };
    distance < *epsilon
}

/// Whether `a` and `b` are less than the default bound apart.
pub fn approx_eq<T: Copy + PartialOrd + ::num::One + Add<T, Output = T> + Sub<T, Output = T> + Mul<
    T,
    Output = T,
> + Div<T, Output = T>>(a: &T, b: &T) -> (r: bool)
    requires
        approx_epsilon_req::<T>(),
        abs_diff_req(*a, *b),
    ensures
        r == approx_eq_eps_spec(*a, *b, approx_epsilon_spec::<T>()),
{
    let epsilon: T = approx_epsilon();
    approx_eq_eps(a, b, &epsilon)
}

} // verus!
