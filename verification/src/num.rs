//! Identities of payload types, and the payload types whose arithmetic is
//! exact.
//!
//! The identities of a primitive number come from the `num` crate. What the
//! rest of the library knows of them is their law: adding zero, or multiplying
//! by one, changes nothing.
use core::ops::{Add, Div, Mul, Neg, Sub};
use vstd::prelude::*;
use vstd::std_specs::ops::{AddSpec, DivSpec, MulSpec, NegSpec, SubSpec};

verus! {

/// `z` is neutral for `+` on both sides, for every value of the type.
///
/// Nothing is said of a type whose `+` is not known to do what its `add_spec`
/// says.
pub open spec fn additive_identity<T: Add<T, Output = T>>(z: T) -> bool {
    T::obeys_add_spec() ==> forall|a: T|
        #![trigger a.add_req(z)]
        #![trigger a.add_spec(z)]
        #![trigger z.add_req(a)]
        #![trigger z.add_spec(a)]
        {
            &&& a.add_req(z)
            &&& a.add_spec(z) == a
            &&& z.add_req(a)
            &&& z.add_spec(a) == a
        }
}

/// `o` is neutral for `*` on both sides, for every value of the type.
///
/// Nothing is said of a type whose `*` is not known to do what its `mul_spec`
/// says.
pub open spec fn multiplicative_identity<T: Mul<T, Output = T>>(o: T) -> bool {
    T::obeys_mul_spec() ==> forall|a: T|
        #![trigger a.mul_req(o)]
        #![trigger a.mul_spec(o)]
        #![trigger o.mul_req(a)]
        #![trigger o.mul_spec(a)]
        {
            &&& a.mul_req(o)
            &&& a.mul_spec(o) == a
            &&& o.mul_req(a)
            &&& o.mul_spec(a) == a
        }
}

/// The additive identity of `T`, where `T` has one.
pub open spec fn zero_spec<T: Add<T, Output = T>>() -> T {
    choose|z: T| additive_identity(z)
}

/// The multiplicative identity of `T`, where `T` has one.
pub open spec fn one_spec<T: Mul<T, Output = T>>() -> T {
    choose|o: T| multiplicative_identity(o)
}

/// A type whose `+` does what its `add_spec` says has at most one additive
/// identity.
pub proof fn lemma_zero_unique<T: Add<T, Output = T>>(z: T)
    requires
        T::obeys_add_spec(),
        additive_identity(z),
    ensures
        z == zero_spec::<T>(),
{
    let other = zero_spec::<T>();
    assert(z.add_spec(other) == other);
}

/// A type whose `*` does what its `mul_spec` says has at most one
/// multiplicative identity.
pub proof fn lemma_one_unique<T: Mul<T, Output = T>>(o: T)
    requires
        T::obeys_mul_spec(),
        multiplicative_identity(o),
    ensures
        o == one_spec::<T>(),
{
    let other = one_spec::<T>();
    assert(o.mul_spec(other) == other);
}

/// `num::Zero::zero`, the additive identity of `T`. Trusted: that it obeys
/// the laws which the trait documents, `a + 0 = a` and `0 + a = a` for every
/// `a`.
#[verifier::external_body]
fn num_zero<T: ::num::Zero>() -> (z: T)
    ensures
        additive_identity(z),
{
    ::num::Zero::zero()
}

/// `num::One::one`, the multiplicative identity of `T`. Trusted: that it
/// obeys the laws which the trait documents, `a * 1 = a` and `1 * a = a` for
/// every `a`.
#[verifier::external_body]
fn num_one<T: ::num::One>() -> (o: T)
    ensures
        multiplicative_identity(o),
{
    ::num::One::one()
}

/// `num::NumCast::from`, the conversion of a number to another numeric type;
/// `None` where the target type cannot represent the value. Which values it
/// can is up to the two types, so nothing is claimed of the outcome.
#[verifier::external_body]
fn num_cast<S: ::num::NumCast, D: ::num::NumCast>(x: S) -> (r: Option<D>) {
    ::num::NumCast::from(x)
}

/// `outcome` is what converting `x` to the numeric type `D` gave: a result of
/// `num::NumCast::from` on `x`.
///
/// Nothing more is known of an outcome: which numbers `D` can hold is up to
/// the two types, and nothing here says that a number converts alike twice.
pub closed spec fn converts_to<S: ::num::NumCast, D: ::num::NumCast>(
    x: S,
    outcome: Option<D>,
) -> bool {
    call_ensures(num_cast::<S, D>, (x,), outcome)
}

/// Converts `x` to the numeric type `D`; `None` where `D` cannot hold it.
pub(crate) fn convert<S: ::num::NumCast, D: ::num::NumCast>(x: S) -> (outcome: Option<D>)
    ensures
        converts_to(x, outcome),
{
    num_cast(x)
}

/// The additive identity of a payload type.
pub fn zero<T: ::num::Zero>() -> (z: T)
    ensures
        additive_identity(z),
        T::obeys_add_spec() ==> z == zero_spec::<T>(),
{
    let z = num_zero();
    proof {
        if T::obeys_add_spec() {
            lemma_zero_unique(z);
        }
    }
    z
}

/// The multiplicative identity of a payload type.
pub fn one<T: ::num::One>() -> (o: T)
    ensures
        multiplicative_identity(o),
        T::obeys_mul_spec() ==> o == one_spec::<T>(),
{
    let o = num_one();
    proof {
        if T::obeys_mul_spec() {
            lemma_one_unique(o);
        }
    }
    o
}

/// The quotient of two integers, rounded towards zero.
pub open spec fn quotient(a: int, b: int) -> int {
    if a >= 0 {
        a / b
    } else {
        -((-a) / b)
    }
}

/// A quotient is no further from zero than what was divided, and it is the
/// opposite of what was divided only where that is zero or the divisor is -1.
pub proof fn lemma_quotient_bounds(a: int, b: int)
    requires
        b != 0,
    ensures
        a >= 0 ==> -a <= quotient(a, b) <= a,
        a < 0 ==> a <= quotient(a, b) <= -a,
        a >= 0 && b > 0 ==> 0 <= quotient(a, b),
        quotient(a, b) == -a ==> a == 0 || b == -1,
        b == -1 ==> quotient(a, b) == -a,
{
    let x = if a >= 0 {
        a
    } else {
        -a
    };
    assert(-x <= x / b <= x && (b > 0 ==> 0 <= x / b) && (x / b == -x ==> x == 0 || b == -1) && (b
        == -1 ==> x / b == -x)) by (nonlinear_arith)
        requires
            x >= 0,
            b != 0,
    ;
}

/// Dividing a product by one of its factors gives the other factor.
pub proof fn lemma_quotient_exact(x: int, d: int)
    requires
        d != 0,
    ensures
        quotient(x * d, d) == x,
        quotient(d * x, d) == x,
{
    assert((d * x) / d == x) by (nonlinear_arith)
        requires
            d != 0,
    ;
    assert((d * (-x)) / d == -x) by (nonlinear_arith)
        requires
            d != 0,
    ;
    assert(d * (-x) == -(x * d)) by (nonlinear_arith);
}

/// A payload type that stands for a range of the integers and whose `+`, `-`,
/// `*` and `/` are exact: defined exactly where the true result is in range
/// (and, for `/`, the divisor is not zero), and then equal to it. The quotient
/// is rounded towards zero.
///
/// Every primitive integer type is one. The laws of the library that need
/// exact arithmetic are stated for these types.
pub trait Integral: Sized + Add<Self, Output = Self> + Sub<Self, Output = Self> + Mul<
    Self,
    Output = Self,
> + Div<Self, Output = Self> {
    /// The integer that a value stands for.
    spec fn value(self) -> int;

    /// The least integer that the type holds.
    spec fn lowest() -> int;

    /// The greatest integer that the type holds.
    spec fn highest() -> int;

    /// The value of the type that stands for `v`, where `v` is in range.
    spec fn from_value(v: int) -> Self;

    /// What makes the type integral.
    proof fn lemma_integral()
        ensures
            Self::obeys_add_spec(),
            Self::obeys_sub_spec(),
            Self::obeys_mul_spec(),
            Self::lowest() <= 0,
            1 <= Self::highest(),
            forall|a: Self| Self::lowest() <= #[trigger] a.value() <= Self::highest(),
            forall|a: Self, b: Self| #[trigger] a.value() == #[trigger] b.value() ==> a == b,
            forall|v: int|
                Self::lowest() <= v <= Self::highest() ==> #[trigger] Self::from_value(v).value()
                    == v,
            forall|a: Self, b: Self| #[trigger]
                a.add_req(b) <==> Self::lowest() <= a.value() + b.value() <= Self::highest(),
            forall|a: Self, b: Self|
                a.add_req(b) ==> #[trigger] a.add_spec(b).value() == a.value() + b.value(),
            forall|a: Self, b: Self| #[trigger]
                a.sub_req(b) <==> Self::lowest() <= a.value() - b.value() <= Self::highest(),
            forall|a: Self, b: Self|
                a.sub_req(b) ==> #[trigger] a.sub_spec(b).value() == a.value() - b.value(),
            forall|a: Self, b: Self| #[trigger]
                a.mul_req(b) <==> Self::lowest() <= a.value() * b.value() <= Self::highest(),
            forall|a: Self, b: Self|
                a.mul_req(b) ==> #[trigger] a.mul_spec(b).value() == a.value() * b.value(),
    ;

    /// What makes the type's division exact.
    proof fn lemma_integral_div()
        ensures
            Self::obeys_div_spec(),
            forall|a: Self, b: Self| #[trigger]
                a.div_req(b) <==> b.value() != 0 && Self::lowest() <= quotient(
                    a.value(),
                    b.value(),
                ) <= Self::highest(),
            forall|a: Self, b: Self|
                a.div_req(b) ==> #[trigger] a.div_spec(b).value() == quotient(
                    a.value(),
                    b.value(),
                ),
    ;
}

/// An integral payload type with a unary minus that is exact in the same way.
///
/// Every signed primitive integer type is one.
pub trait SignedIntegral: Integral + Neg<Output = Self> {
    /// What makes the type's negation exact.
    proof fn lemma_signed_integral()
        ensures
            Self::obeys_neg_spec(),
            forall|a: Self| #[trigger]
                a.neg_req() <==> Self::lowest() <= -a.value() <= Self::highest(),
            forall|a: Self| a.neg_req() ==> #[trigger] a.neg_spec().value() == -a.value(),
    ;
}

impl Integral for u8 {
    open spec fn value(self) -> int {
        self as int
    }

    open spec fn lowest() -> int {
        u8::MIN as int
    }

    open spec fn highest() -> int {
        u8::MAX as int
    }

    open spec fn from_value(v: int) -> u8 {
        v as u8
    }

    proof fn lemma_integral() {
    }

    proof fn lemma_integral_div() {
        assert forall|a: u8, b: u8| b != 0 implies {
            let q = #[trigger] quotient(a as int, b as int);
            &&& u8::MIN <= q <= u8::MAX <==> a.div_req(b)
            &&& a.div_req(b) ==> a.div_spec(b) == q
        } by {
            lemma_quotient_bounds(a as int, b as int);
        }
    }
}

impl Integral for u16 {
    open spec fn value(self) -> int {
        self as int
    }

    open spec fn lowest() -> int {
        u16::MIN as int
    }

    open spec fn highest() -> int {
        u16::MAX as int
    }

    open spec fn from_value(v: int) -> u16 {
        v as u16
    }

    proof fn lemma_integral() {
    }

    proof fn lemma_integral_div() {
        assert forall|a: u16, b: u16| b != 0 implies {
            let q = #[trigger] quotient(a as int, b as int);
            &&& u16::MIN <= q <= u16::MAX <==> a.div_req(b)
            &&& a.div_req(b) ==> a.div_spec(b) == q
        } by {
            lemma_quotient_bounds(a as int, b as int);
        }
    }
}

impl Integral for u32 {
    open spec fn value(self) -> int {
        self as int
    }

    open spec fn lowest() -> int {
        u32::MIN as int
    }

    open spec fn highest() -> int {
        u32::MAX as int
    }

    open spec fn from_value(v: int) -> u32 {
        v as u32
    }

    proof fn lemma_integral() {
    }

    proof fn lemma_integral_div() {
        assert forall|a: u32, b: u32| b != 0 implies {
            let q = #[trigger] quotient(a as int, b as int);
            &&& u32::MIN <= q <= u32::MAX <==> a.div_req(b)
            &&& a.div_req(b) ==> a.div_spec(b) == q
        } by {
            lemma_quotient_bounds(a as int, b as int);
        }
    }
}

impl Integral for u64 {
    open spec fn value(self) -> int {
        self as int
    }

    open spec fn lowest() -> int {
        u64::MIN as int
    }

    open spec fn highest() -> int {
        u64::MAX as int
    }

    open spec fn from_value(v: int) -> u64 {
        v as u64
    }

    proof fn lemma_integral() {
    }

    proof fn lemma_integral_div() {
        assert forall|a: u64, b: u64| b != 0 implies {
            let q = #[trigger] quotient(a as int, b as int);
            &&& u64::MIN <= q <= u64::MAX <==> a.div_req(b)
            &&& a.div_req(b) ==> a.div_spec(b) == q
        } by {
            lemma_quotient_bounds(a as int, b as int);
        }
    }
}

impl Integral for u128 {
    open spec fn value(self) -> int {
        self as int
    }

    open spec fn lowest() -> int {
        u128::MIN as int
    }

    open spec fn highest() -> int {
        u128::MAX as int
    }

    open spec fn from_value(v: int) -> u128 {
        v as u128
    }

    proof fn lemma_integral() {
    }

    proof fn lemma_integral_div() {
        assert forall|a: u128, b: u128| b != 0 implies {
            let q = #[trigger] quotient(a as int, b as int);
            &&& u128::MIN <= q <= u128::MAX <==> a.div_req(b)
            &&& a.div_req(b) ==> a.div_spec(b) == q
        } by {
            lemma_quotient_bounds(a as int, b as int);
        }
    }
}

impl Integral for usize {
    open spec fn value(self) -> int {
        self as int
    }

    open spec fn lowest() -> int {
        usize::MIN as int
    }

    open spec fn highest() -> int {
        usize::MAX as int
    }

    open spec fn from_value(v: int) -> usize {
        v as usize
    }

    proof fn lemma_integral() {
    }

    proof fn lemma_integral_div() {
        assert forall|a: usize, b: usize| b != 0 implies {
            let q = #[trigger] quotient(a as int, b as int);
            &&& usize::MIN <= q <= usize::MAX <==> a.div_req(b)
            &&& a.div_req(b) ==> a.div_spec(b) == q
        } by {
            lemma_quotient_bounds(a as int, b as int);
        }
    }
}

impl Integral for i8 {
    open spec fn value(self) -> int {
        self as int
    }

    open spec fn lowest() -> int {
        i8::MIN as int
    }

    open spec fn highest() -> int {
        i8::MAX as int
    }

    open spec fn from_value(v: int) -> i8 {
        v as i8
    }

    proof fn lemma_integral() {
    }

    proof fn lemma_integral_div() {
        assert forall|a: i8, b: i8| b != 0 implies {
            let q = #[trigger] quotient(a as int, b as int);
            &&& i8::MIN <= q <= i8::MAX <==> a.div_req(b)
            &&& a.div_req(b) ==> a.div_spec(b) == q
        } by {
            lemma_quotient_bounds(a as int, b as int);
        }
    }
}

impl Integral for i16 {
    open spec fn value(self) -> int {
        self as int
    }

    open spec fn lowest() -> int {
        i16::MIN as int
    }

    open spec fn highest() -> int {
        i16::MAX as int
    }

    open spec fn from_value(v: int) -> i16 {
        v as i16
    }

    proof fn lemma_integral() {
    }

    proof fn lemma_integral_div() {
        assert forall|a: i16, b: i16| b != 0 implies {
            let q = #[trigger] quotient(a as int, b as int);
            &&& i16::MIN <= q <= i16::MAX <==> a.div_req(b)
            &&& a.div_req(b) ==> a.div_spec(b) == q
        } by {
            lemma_quotient_bounds(a as int, b as int);
        }
    }
}

impl Integral for i32 {
    open spec fn value(self) -> int {
        self as int
    }

    open spec fn lowest() -> int {
        i32::MIN as int
    }

    open spec fn highest() -> int {
        i32::MAX as int
    }

    open spec fn from_value(v: int) -> i32 {
        v as i32
    }

    proof fn lemma_integral() {
    }

    proof fn lemma_integral_div() {
        assert forall|a: i32, b: i32| b != 0 implies {
            let q = #[trigger] quotient(a as int, b as int);
            &&& i32::MIN <= q <= i32::MAX <==> a.div_req(b)
            &&& a.div_req(b) ==> a.div_spec(b) == q
        } by {
            lemma_quotient_bounds(a as int, b as int);
        }
    }
}

impl Integral for i64 {
    open spec fn value(self) -> int {
        self as int
    }

    open spec fn lowest() -> int {
        i64::MIN as int
    }

    open spec fn highest() -> int {
        i64::MAX as int
    }

    open spec fn from_value(v: int) -> i64 {
        v as i64
    }

    proof fn lemma_integral() {
    }

    proof fn lemma_integral_div() {
        assert forall|a: i64, b: i64| b != 0 implies {
            let q = #[trigger] quotient(a as int, b as int);
            &&& i64::MIN <= q <= i64::MAX <==> a.div_req(b)
            &&& a.div_req(b) ==> a.div_spec(b) == q
        } by {
            lemma_quotient_bounds(a as int, b as int);
        }
    }
}

impl Integral for i128 {
    open spec fn value(self) -> int {
        self as int
    }

    open spec fn lowest() -> int {
        i128::MIN as int
    }

    open spec fn highest() -> int {
        i128::MAX as int
    }

    open spec fn from_value(v: int) -> i128 {
        v as i128
    }

    proof fn lemma_integral() {
    }

    proof fn lemma_integral_div() {
        assert forall|a: i128, b: i128| b != 0 implies {
            let q = #[trigger] quotient(a as int, b as int);
            &&& i128::MIN <= q <= i128::MAX <==> a.div_req(b)
            &&& a.div_req(b) ==> a.div_spec(b) == q
        } by {
            lemma_quotient_bounds(a as int, b as int);
        }
    }
}

impl Integral for isize {
    open spec fn value(self) -> int {
        self as int
    }

    open spec fn lowest() -> int {
        isize::MIN as int
    }

    open spec fn highest() -> int {
        isize::MAX as int
    }

    open spec fn from_value(v: int) -> isize {
        v as isize
    }

    proof fn lemma_integral() {
    }

    proof fn lemma_integral_div() {
        assert forall|a: isize, b: isize| b != 0 implies {
            let q = #[trigger] quotient(a as int, b as int);
            &&& isize::MIN <= q <= isize::MAX <==> a.div_req(b)
            &&& a.div_req(b) ==> a.div_spec(b) == q
        } by {
            lemma_quotient_bounds(a as int, b as int);
        }
    }
}

impl SignedIntegral for i8 {
    proof fn lemma_signed_integral() {
    }
}

impl SignedIntegral for i16 {
    proof fn lemma_signed_integral() {
    }
}

impl SignedIntegral for i32 {
    proof fn lemma_signed_integral() {
    }
}

impl SignedIntegral for i64 {
    proof fn lemma_signed_integral() {
    }
}

impl SignedIntegral for i128 {
    proof fn lemma_signed_integral() {
    }
}

impl SignedIntegral for isize {
    proof fn lemma_signed_integral() {
    }
}

/// In an integral type, the additive identity is the value that stands for 0.
pub proof fn lemma_zero_value<T: Integral>()
    ensures
        additive_identity(zero_spec::<T>()),
        zero_spec::<T>().value() == 0,
{
    T::lemma_integral();
    let z = T::from_value(0);
    assert forall|a: T|
        #![trigger a.add_req(z)]
        #![trigger a.add_spec(z)]
        #![trigger z.add_req(a)]
        #![trigger z.add_spec(a)]
        a.add_req(z) && a.add_spec(z) == a && z.add_req(a) && z.add_spec(a) == a by {
        assert(a.add_spec(z).value() == a.value());
        assert(z.add_spec(a).value() == a.value());
    }
    lemma_zero_unique(z);
}

/// In an integral type, the multiplicative identity is the value that stands
/// for 1.
pub proof fn lemma_one_value<T: Integral>()
    ensures
        multiplicative_identity(one_spec::<T>()),
        one_spec::<T>().value() == 1,
{
    T::lemma_integral();
    let o = T::from_value(1);
    assert forall|a: T|
        #![trigger a.mul_req(o)]
        #![trigger a.mul_spec(o)]
        #![trigger o.mul_req(a)]
        #![trigger o.mul_spec(a)]
        a.mul_req(o) && a.mul_spec(o) == a && o.mul_req(a) && o.mul_spec(a) == a by {
        assert(a.value() * 1 == a.value());
        assert(a.mul_req(o));
        assert(a.mul_spec(o).value() == a.value());
        assert(o.mul_spec(a).value() == a.value());
    }
    lemma_one_unique(o);
}

} // verus!
