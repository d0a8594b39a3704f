//! Sums and differences of products, the building blocks of the dot and cross
//! products and of the matrix formulas.
//!
//! Each formula has three parts: what it evaluates to, when every operation in
//! it is defined, and the function that computes it. The operations are
//! carried out in the order in which the formula is written, from left to
//! right, so that a payload whose arithmetic rounds gives the same result as
//! the written expression.
//!
//! The lesser and the greater of two payloads stand here too.
//!
//! For an integral payload each formula is exact: it is defined exactly where
//! every product and every partial sum is in the payload's range, and then it
//! stands for the integer that the formula gives. The lemmas at the end say
//! so.
use crate::num::Integral;
use core::ops::{Add, Mul, Sub};
use vstd::arithmetic::mul::{
    lemma_mul_is_associative, lemma_mul_is_distributive_add,
    lemma_mul_is_distributive_add_other_way,
};
use vstd::prelude::*;
use vstd::std_specs::cmp::{PartialEqSpec, PartialOrdIs, PartialOrdSpec};
use vstd::std_specs::ops::{AddSpec, MulSpec, SubSpec};

verus! {

/// `a1 * b1 + a2 * b2`.
pub open spec fn dot2_spec<T: Add<T, Output = T> + Mul<T, Output = T>>(
    a1: T,
    b1: T,
    a2: T,
    b2: T,
) -> T {
    a1.mul_spec(b1).add_spec(a2.mul_spec(b2))
}

/// Every operation of `a1 * b1 + a2 * b2` is defined.
pub open spec fn dot2_req<T: Add<T, Output = T> + Mul<T, Output = T>>(
    a1: T,
    b1: T,
    a2: T,
    b2: T,
) -> bool {
    &&& T::obeys_add_spec()
    &&& T::obeys_mul_spec()
    &&& a1.mul_req(b1)
    &&& a2.mul_req(b2)
    &&& a1.mul_spec(b1).add_req(a2.mul_spec(b2))
}

/// Computes `a1 * b1 + a2 * b2`.
pub fn dot2<T: Copy + Add<T, Output = T> + Mul<T, Output = T>>(a1: T, b1: T, a2: T, b2: T) -> (r: T)
    requires
        dot2_req(a1, b1, a2, b2),
    ensures
        r == dot2_spec(a1, b1, a2, b2),
{
    a1 * b1 + a2 * b2
}

/// `a1 * b1 + a2 * b2 + a3 * b3`.
pub open spec fn dot3_spec<T: Add<T, Output = T> + Mul<T, Output = T>>(
    a1: T,
    b1: T,
    a2: T,
    b2: T,
    a3: T,
    b3: T,
) -> T {
    dot2_spec(a1, b1, a2, b2).add_spec(a3.mul_spec(b3))
}

/// Every operation of `a1 * b1 + a2 * b2 + a3 * b3` is defined.
pub open spec fn dot3_req<T: Add<T, Output = T> + Mul<T, Output = T>>(
    a1: T,
    b1: T,
    a2: T,
    b2: T,
    a3: T,
    b3: T,
) -> bool {
    &&& dot2_req(a1, b1, a2, b2)
    &&& a3.mul_req(b3)
    &&& dot2_spec(a1, b1, a2, b2).add_req(a3.mul_spec(b3))
}

/// Computes `a1 * b1 + a2 * b2 + a3 * b3`.
pub fn dot3<T: Copy + Add<T, Output = T> + Mul<T, Output = T>>(
    a1: T,
    b1: T,
    a2: T,
    b2: T,
    a3: T,
    b3: T,
) -> (r: T)
    requires
        dot3_req(a1, b1, a2, b2, a3, b3),
    ensures
        r == dot3_spec(a1, b1, a2, b2, a3, b3),
{
    a1 * b1 + a2 * b2 + a3 * b3
}

/// `a1 * b1 + a2 * b2 + a3 * b3 + a4 * b4`.
pub open spec fn dot4_spec<T: Add<T, Output = T> + Mul<T, Output = T>>(
    a1: T,
    b1: T,
    a2: T,
    b2: T,
    a3: T,
    b3: T,
    a4: T,
    b4: T,
) -> T {
    dot3_spec(a1, b1, a2, b2, a3, b3).add_spec(a4.mul_spec(b4))
}

/// Every operation of `a1 * b1 + a2 * b2 + a3 * b3 + a4 * b4` is defined.
pub open spec fn dot4_req<T: Add<T, Output = T> + Mul<T, Output = T>>(
    a1: T,
    b1: T,
    a2: T,
    b2: T,
    a3: T,
    b3: T,
    a4: T,
    b4: T,
) -> bool {
    &&& dot3_req(a1, b1, a2, b2, a3, b3)
    &&& a4.mul_req(b4)
    &&& dot3_spec(a1, b1, a2, b2, a3, b3).add_req(a4.mul_spec(b4))
}

/// Computes `a1 * b1 + a2 * b2 + a3 * b3 + a4 * b4`.
pub fn dot4<T: Copy + Add<T, Output = T> + Mul<T, Output = T>>(
    a1: T,
    b1: T,
    a2: T,
    b2: T,
    a3: T,
    b3: T,
    a4: T,
    b4: T,
) -> (r: T)
    requires
        dot4_req(a1, b1, a2, b2, a3, b3, a4, b4),
    ensures
        r == dot4_spec(a1, b1, a2, b2, a3, b3, a4, b4),
{
    a1 * b1 + a2 * b2 + a3 * b3 + a4 * b4
}

/// `a1 * b1 + a2 * b2 + c`.
pub open spec fn affine2_spec<T: Add<T, Output = T> + Mul<T, Output = T>>(
    a1: T,
    b1: T,
    a2: T,
    b2: T,
    c: T,
) -> T {
    dot2_spec(a1, b1, a2, b2).add_spec(c)
}

/// Every operation of `a1 * b1 + a2 * b2 + c` is defined.
pub open spec fn affine2_req<T: Add<T, Output = T> + Mul<T, Output = T>>(
    a1: T,
    b1: T,
    a2: T,
    b2: T,
    c: T,
) -> bool {
    &&& dot2_req(a1, b1, a2, b2)
    &&& dot2_spec(a1, b1, a2, b2).add_req(c)
}

/// Computes `a1 * b1 + a2 * b2 + c`.
pub fn affine2<T: Copy + Add<T, Output = T> + Mul<T, Output = T>>(
    a1: T,
    b1: T,
    a2: T,
    b2: T,
    c: T,
) -> (r: T)
    requires
        affine2_req(a1, b1, a2, b2, c),
    ensures
        r == affine2_spec(a1, b1, a2, b2, c),
{
    a1 * b1 + a2 * b2 + c
}

/// `a1 * b1 - a2 * b2`.
pub open spec fn cross2_spec<T: Sub<T, Output = T> + Mul<T, Output = T>>(
    a1: T,
    b1: T,
    a2: T,
    b2: T,
) -> T {
    a1.mul_spec(b1).sub_spec(a2.mul_spec(b2))
}

/// Every operation of `a1 * b1 - a2 * b2` is defined.
pub open spec fn cross2_req<T: Sub<T, Output = T> + Mul<T, Output = T>>(
    a1: T,
    b1: T,
    a2: T,
    b2: T,
) -> bool {
    &&& T::obeys_sub_spec()
    &&& T::obeys_mul_spec()
    &&& a1.mul_req(b1)
    &&& a2.mul_req(b2)
    &&& a1.mul_spec(b1).sub_req(a2.mul_spec(b2))
}

/// Computes `a1 * b1 - a2 * b2`.
pub fn cross2<T: Copy + Sub<T, Output = T> + Mul<T, Output = T>>(
    a1: T,
    b1: T,
    a2: T,
    b2: T,
) -> (r: T)
    requires
        cross2_req(a1, b1, a2, b2),
    ensures
        r == cross2_spec(a1, b1, a2, b2),
{
    a1 * b1 - a2 * b2
}

/// The lesser of `a` and `b`. Where neither is less than the other, it is `a`,
/// unless `a` does not even equal itself (as a float that is no number): then
/// it is `b`.
pub open spec fn min_spec<T: PartialOrd>(a: T, b: T) -> T {
    if a.is_lt(&b) {
        a
    } else if b.is_lt(&a) {
        b
    } else if a.eq_spec(&a) {
        a
    } else {
        b
    }
}

/// The greater of `a` and `b`. Where neither is greater than the other, it is
/// `a`, unless `a` does not even equal itself (as a float that is no number):
/// then it is `b`.
pub open spec fn max_spec<T: PartialOrd>(a: T, b: T) -> T {
    if a.is_gt(&b) {
        a
    } else if b.is_gt(&a) {
        b
    } else if a.eq_spec(&a) {
        a
    } else {
        b
    }
}

/// Picks the lesser of `a` and `b`.
pub fn min_of<T: Copy + PartialOrd>(a: T, b: T) -> (r: T)
    ensures
        T::obeys_partial_cmp_spec() && T::obeys_eq_spec() ==> r == min_spec(a, b),
        r == a || r == b,
{
    if a < b {
        a
    } else if b < a {
        b
    } else if a == a {
        a
    } else {
        b
    }
}

/// Picks the greater of `a` and `b`.
pub fn max_of<T: Copy + PartialOrd>(a: T, b: T) -> (r: T)
    ensures
        T::obeys_partial_cmp_spec() && T::obeys_eq_spec() ==> r == max_spec(a, b),
        r == a || r == b,
{
    if a > b {
        a
    } else if b > a {
        b
    } else if a == a {
        a
    } else {
        b
    }
}

/// The integer `v` is in the range of the integral payload type `T`.
pub open spec fn in_range<T: Integral>(v: int) -> bool {
    T::lowest() <= v <= T::highest()
}

/// In an integral type `a1 * b1 + a2 * b2` is defined exactly where the two
/// products and their sum are in range, and then stands for that sum.
pub proof fn lemma_dot2_integral<T: Integral>(a1: T, b1: T, a2: T, b2: T)
    ensures
        dot2_req(a1, b1, a2, b2) <==> {
            &&& in_range::<T>(a1.value() * b1.value())
            &&& in_range::<T>(a2.value() * b2.value())
            &&& in_range::<T>(a1.value() * b1.value() + a2.value() * b2.value())
        },
        dot2_req(a1, b1, a2, b2) ==> dot2_spec(a1, b1, a2, b2).value() == a1.value() * b1.value()
            + a2.value() * b2.value(),
{
    T::lemma_integral();
    if a1.mul_req(b1) && a2.mul_req(b2) {
        assert(a1.mul_spec(b1).value() == a1.value() * b1.value());
        assert(a2.mul_spec(b2).value() == a2.value() * b2.value());
    }
}

/// In an integral type `a1 * b1 + a2 * b2 + c` is defined exactly where the
/// two products and the two partial sums are in range, and then stands for
/// the last sum.
pub proof fn lemma_affine2_integral<T: Integral>(a1: T, b1: T, a2: T, b2: T, c: T)
    ensures
        affine2_req(a1, b1, a2, b2, c) <==> {
            &&& in_range::<T>(a1.value() * b1.value())
            &&& in_range::<T>(a2.value() * b2.value())
            &&& in_range::<T>(a1.value() * b1.value() + a2.value() * b2.value())
            &&& in_range::<T>(a1.value() * b1.value() + a2.value() * b2.value() + c.value())
        },
        affine2_req(a1, b1, a2, b2, c) ==> affine2_spec(a1, b1, a2, b2, c).value() == a1.value()
            * b1.value() + a2.value() * b2.value() + c.value(),
{
    T::lemma_integral();
    lemma_dot2_integral(a1, b1, a2, b2);
}

/// In an integral type `a1 * b1 + a2 * b2 + a3 * b3` is defined exactly where
/// the three products and the two partial sums are in range, and then stands
/// for the last sum.
pub proof fn lemma_dot3_integral<T: Integral>(a1: T, b1: T, a2: T, b2: T, a3: T, b3: T)
    ensures
        dot3_req(a1, b1, a2, b2, a3, b3) <==> {
            &&& in_range::<T>(a1.value() * b1.value())
            &&& in_range::<T>(a2.value() * b2.value())
            &&& in_range::<T>(a3.value() * b3.value())
            &&& in_range::<T>(a1.value() * b1.value() + a2.value() * b2.value())
            &&& in_range::<T>(
                a1.value() * b1.value() + a2.value() * b2.value() + a3.value() * b3.value(),
            )
        },
        dot3_req(a1, b1, a2, b2, a3, b3) ==> dot3_spec(a1, b1, a2, b2, a3, b3).value()
            == a1.value() * b1.value() + a2.value() * b2.value() + a3.value() * b3.value(),
{
    T::lemma_integral();
    lemma_dot2_integral(a1, b1, a2, b2);
    if a3.mul_req(b3) {
        assert(a3.mul_spec(b3).value() == a3.value() * b3.value());
    }
}

/// In an integral type `a1 * b1 + a2 * b2 + a3 * b3 + a4 * b4` is defined
/// exactly where the four products and the three partial sums are in range,
/// and then stands for the last sum.
pub proof fn lemma_dot4_integral<T: Integral>(
    a1: T,
    b1: T,
    a2: T,
    b2: T,
    a3: T,
    b3: T,
    a4: T,
    b4: T,
)
    ensures
        dot4_req(a1, b1, a2, b2, a3, b3, a4, b4) <==> {
            &&& in_range::<T>(a1.value() * b1.value())
            &&& in_range::<T>(a2.value() * b2.value())
            &&& in_range::<T>(a3.value() * b3.value())
            &&& in_range::<T>(a4.value() * b4.value())
            &&& in_range::<T>(a1.value() * b1.value() + a2.value() * b2.value())
            &&& in_range::<T>(
                a1.value() * b1.value() + a2.value() * b2.value() + a3.value() * b3.value(),
            )
            &&& in_range::<T>(
                a1.value() * b1.value() + a2.value() * b2.value() + a3.value() * b3.value()
                    + a4.value() * b4.value(),
            )
        },
        dot4_req(a1, b1, a2, b2, a3, b3, a4, b4) ==> dot4_spec(
            a1,
            b1,
            a2,
            b2,
            a3,
            b3,
            a4,
            b4,
        ).value() == a1.value() * b1.value() + a2.value() * b2.value() + a3.value() * b3.value()
            + a4.value() * b4.value(),
{
    T::lemma_integral();
    lemma_dot3_integral(a1, b1, a2, b2, a3, b3);
    if a4.mul_req(b4) {
        assert(a4.mul_spec(b4).value() == a4.value() * b4.value());
    }
}

/// In an integral type `a1 * b1 - a2 * b2` is defined exactly where the two
/// products and their difference are in range, and then stands for that
/// difference.
pub proof fn lemma_cross2_integral<T: Integral>(a1: T, b1: T, a2: T, b2: T)
    ensures
        cross2_req(a1, b1, a2, b2) <==> {
            &&& in_range::<T>(a1.value() * b1.value())
            &&& in_range::<T>(a2.value() * b2.value())
            &&& in_range::<T>(a1.value() * b1.value() - a2.value() * b2.value())
        },
        cross2_req(a1, b1, a2, b2) ==> cross2_spec(a1, b1, a2, b2).value() == a1.value()
            * b1.value() - a2.value() * b2.value(),
{
    T::lemma_integral();
    if a1.mul_req(b1) && a2.mul_req(b2) {
        assert(a1.mul_spec(b1).value() == a1.value() * b1.value());
        assert(a2.mul_spec(b2).value() == a2.value() * b2.value());
    }
}

/// A product with 0 or 1 on either side is 0 or the other factor.
pub proof fn lemma_mul_by_unit(x: int, e: int)
    requires
        e == 0 || e == 1,
    ensures
        x * e == (if e == 1 {
            x
        } else {
            0
        }),
        e * x == x * e,
{
    assert(x * e == (if e == 1 {
        x
    } else {
        0
    }) && e * x == x * e) by (nonlinear_arith)
        requires
            e == 0 || e == 1,
    ;
}

/// In an integral type, a sum of two products in which one side holds a
/// single one and otherwise zero picks the factor that stands against the
/// one. It is defined whatever the factors are.
pub proof fn lemma_dot2_selects<T: Integral>(a1: T, a2: T, e1: T, e2: T, k: int)
    requires
        1 <= k <= 2,
        e1.value() == (if k == 1 { 1int } else { 0int }),
        e2.value() == (if k == 2 { 1int } else { 0int }),
    ensures
        dot2_req(a1, e1, a2, e2),
        dot2_req(e1, a1, e2, a2),
        dot2_spec(a1, e1, a2, e2) == (if k == 1 { a1 } else { a2 }),
        dot2_spec(e1, a1, e2, a2) == (if k == 1 { a1 } else { a2 }),
{
    T::lemma_integral();
    lemma_mul_by_unit(a1.value(), e1.value());
    lemma_mul_by_unit(a2.value(), e2.value());
    lemma_dot2_integral(a1, e1, a2, e2);
    lemma_dot2_integral(e1, a1, e2, a2);
}

/// In an integral type, a sum of four products in which one side holds a
/// single one and otherwise zero picks the factor that stands against the
/// one. It is defined whatever the factors are.
pub proof fn lemma_dot4_selects<T: Integral>(
    a1: T,
    a2: T,
    a3: T,
    a4: T,
    e1: T,
    e2: T,
    e3: T,
    e4: T,
    k: int,
)
    requires
        1 <= k <= 4,
        e1.value() == (if k == 1 { 1int } else { 0int }),
        e2.value() == (if k == 2 { 1int } else { 0int }),
        e3.value() == (if k == 3 { 1int } else { 0int }),
        e4.value() == (if k == 4 { 1int } else { 0int }),
    ensures
        dot4_req(a1, e1, a2, e2, a3, e3, a4, e4),
        dot4_req(e1, a1, e2, a2, e3, a3, e4, a4),
        dot4_spec(a1, e1, a2, e2, a3, e3, a4, e4) == (if k == 1 {
            a1
        } else if k == 2 {
            a2
        } else if k == 3 {
            a3
        } else {
            a4
        }),
        dot4_spec(e1, a1, e2, a2, e3, a3, e4, a4) == (if k == 1 {
            a1
        } else if k == 2 {
            a2
        } else if k == 3 {
            a3
        } else {
            a4
        }),
{
    T::lemma_integral();
    lemma_mul_by_unit(a1.value(), e1.value());
    lemma_mul_by_unit(a2.value(), e2.value());
    lemma_mul_by_unit(a3.value(), e3.value());
    lemma_mul_by_unit(a4.value(), e4.value());
    lemma_dot4_integral(a1, e1, a2, e2, a3, e3, a4, e4);
    lemma_dot4_integral(e1, a1, e2, a2, e3, a3, e4, a4);
}

/// A factor goes into a sum of two products, product by product.
pub proof fn lemma_scale_dot2(x: int, u1: int, w1: int, u2: int, w2: int)
    ensures
        x * (u1 * w1 + u2 * w2) == (x * u1) * w1 + (x * u2) * w2,
{
    lemma_mul_is_distributive_add(x, u1 * w1, u2 * w2);
    lemma_mul_is_associative(x, u1, w1);
    lemma_mul_is_associative(x, u2, w2);
}

/// A factor goes into a sum of four products, product by product.
pub proof fn lemma_scale_dot4(
    x: int,
    u1: int,
    w1: int,
    u2: int,
    w2: int,
    u3: int,
    w3: int,
    u4: int,
    w4: int,
)
    ensures
        x * (u1 * w1 + u2 * w2 + u3 * w3 + u4 * w4) == (x * u1) * w1 + (x * u2) * w2 + (x * u3)
            * w3 + (x * u4) * w4,
{
    lemma_mul_is_distributive_add(x, u1 * w1 + u2 * w2 + u3 * w3, u4 * w4);
    lemma_mul_is_distributive_add(x, u1 * w1 + u2 * w2, u3 * w3);
    lemma_mul_is_distributive_add(x, u1 * w1, u2 * w2);
    lemma_mul_is_associative(x, u1, w1);
    lemma_mul_is_associative(x, u2, w2);
    lemma_mul_is_associative(x, u3, w3);
    lemma_mul_is_associative(x, u4, w4);
}

/// A sum of three times a factor is the sum of the three products.
pub proof fn lemma_sum3_times(s1: int, s2: int, s3: int, w: int)
    ensures
        (s1 + s2 + s3) * w == s1 * w + s2 * w + s3 * w,
{
    lemma_mul_is_distributive_add_other_way(w, s1 + s2, s3);
    lemma_mul_is_distributive_add_other_way(w, s1, s2);
}

/// A sum of four times a factor is the sum of the four products.
pub proof fn lemma_sum4_times(s1: int, s2: int, s3: int, s4: int, w: int)
    ensures
        (s1 + s2 + s3 + s4) * w == s1 * w + s2 * w + s3 * w + s4 * w,
{
    lemma_mul_is_distributive_add_other_way(w, s1 + s2 + s3, s4);
    lemma_mul_is_distributive_add_other_way(w, s1 + s2, s3);
    lemma_mul_is_distributive_add_other_way(w, s1, s2);
}

} // verus!
