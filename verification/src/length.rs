//! A number tagged with the unit it is measured in.
//!
//! The unit is a type parameter and nothing more: it takes no storage and is
//! never looked at when the program runs. Two lengths can be added, subtracted
//! or compared only where their types name the same unit, and a length changes
//! its unit only by way of a [`ScaleFactor`].
//!
//! Each operator is an impl of the trait of `std::ops` and comes with the
//! three functions that state its contract: `*_req` says when the operation
//! is defined (for an integer payload: when it does not overflow, and no
//! division is by zero), `*_spec` says what it gives, and `obeys_*_spec` says
//! whether the payload's own operator is known to behave as stated, which
//! holds for the primitive integers.
use crate::num::{
    additive_identity, convert, converts_to, lemma_quotient_exact, zero, zero_spec, Integral,
    SignedIntegral,
};
use crate::scale_factor::ScaleFactor;
use core::cmp::Ordering;
use core::marker::PhantomData;
use core::ops::{Add, Div, Mul, Neg, Sub};
use vstd::prelude::*;
use vstd::std_specs::cmp::{PartialEqSpec, PartialOrdSpec};
use vstd::std_specs::ops::{AddSpec, DivSpec, MulSpec, NegSpec, SubSpec};

verus! {

/// A number of type `T` that measures something in the unit `U`.
#[derive(Copy, Debug)]
pub struct Length<U, T>(pub T, pub PhantomData<U>);

impl<U, T> Length<U, T> {
    /// The length of `x` units.
    pub fn new(x: T) -> (r: Length<U, T>)
        ensures
            r == Length::<U, T>(x, PhantomData),
    {
        Length(x, PhantomData)
    }

    /// Tags the outcome of a numeric conversion with the unit: a converted
    /// number becomes a length, a failed conversion stays a failure.
    pub fn from_converted(converted: Option<T>) -> (r: Option<Length<U, T>>)
        ensures
            r == match converted {
                Some(x) => Some(Length::<U, T>(x, PhantomData)),
                None => None,
            },
    {
        match converted {
            Some(x) => Some(Length::new(x)),
            None => None,
        }
    }
}

impl<U, T: Clone> Length<U, T> {
    /// A copy of the number.
    pub fn get(&self) -> (r: T)
        ensures
            cloned(self.0, r),
    {
        self.0.clone()
    }
}

impl<U, T: ::num::Zero> Length<U, T> {
    /// The length of no units.
    pub fn zero() -> (r: Length<U, T>)
        ensures
            additive_identity(r.0),
            T::obeys_add_spec() ==> r == Length::<U, T>(zero_spec::<T>(), PhantomData),
    {
        Length::new(zero())
    }
}

impl<U, T: Clone + Add<T, Output = T>> Add for Length<U, T> {
    type Output = Length<U, T>;

    /// The sum of two lengths of one unit.
    fn add(self, other: Length<U, T>) -> (r: Length<U, T>)
        ensures
            T::obeys_add_spec() ==> r == Length::<U, T>(self.0.add_spec(other.0), PhantomData),
    {
        Length::new(self.0 + other.0)
    }
}

impl<U, T: Clone + Add<T, Output = T>> vstd::std_specs::ops::AddSpecImpl for Length<U, T> {
    open spec fn obeys_add_spec() -> bool {
        T::obeys_add_spec()
    }

    open spec fn add_req(self, other: Length<U, T>) -> bool {
        self.0.add_req(other.0)
    }

    open spec fn add_spec(self, other: Length<U, T>) -> Length<U, T> {
        Length(self.0.add_spec(other.0), PhantomData)
    }
}

impl<U, T: Clone + Sub<T, Output = T>> Sub<Length<U, T>> for Length<U, T> {
    type Output = Length<U, T>;

    /// The difference of two lengths of one unit.
    fn sub(self, other: Length<U, T>) -> (r: Length<U, T>)
        ensures
            T::obeys_sub_spec() ==> r == Length::<U, T>(self.0.sub_spec(other.0), PhantomData),
    {
        Length::new(self.0 - other.0)
    }
}

impl<U, T: Clone + Sub<T, Output = T>> vstd::std_specs::ops::SubSpecImpl<Length<U, T>>
    for Length<U, T>
{
    open spec fn obeys_sub_spec() -> bool {
        T::obeys_sub_spec()
    }

    open spec fn sub_req(self, other: Length<U, T>) -> bool {
        self.0.sub_req(other.0)
    }

    open spec fn sub_spec(self, other: Length<U, T>) -> Length<U, T> {
        Length(self.0.sub_spec(other.0), PhantomData)
    }
}

impl<S, D, T: Clone + Div<T, Output = T>> Div<Length<S, T>> for Length<D, T> {
    type Output = ScaleFactor<S, D, T>;

    /// The ratio of a length in `D` to a length in `S`: the factor that takes
    /// `S` to `D`.
    fn div(self, other: Length<S, T>) -> (r: ScaleFactor<S, D, T>)
        ensures
            T::obeys_div_spec() ==> r == ScaleFactor::<S, D, T>(
                self.0.div_spec(other.0),
                PhantomData,
            ),
    {
        ScaleFactor::new(self.0 / other.0)
    }
}

impl<S, D, T: Clone + Div<T, Output = T>> vstd::std_specs::ops::DivSpecImpl<Length<S, T>>
    for Length<D, T>
{
    open spec fn obeys_div_spec() -> bool {
        T::obeys_div_spec()
    }

    open spec fn div_req(self, other: Length<S, T>) -> bool {
        self.0.div_req(other.0)
    }

    open spec fn div_spec(self, other: Length<S, T>) -> ScaleFactor<S, D, T> {
        ScaleFactor(self.0.div_spec(other.0), PhantomData)
    }
}

impl<S, D, T: Clone + Mul<T, Output = T>> Mul<ScaleFactor<S, D, T>> for Length<S, T> {
    type Output = Length<D, T>;

    /// The same length measured in `D`, by the factor that takes `S` to `D`.
    fn mul(self, scale: ScaleFactor<S, D, T>) -> (r: Length<D, T>)
        ensures
            T::obeys_mul_spec() ==> r == Length::<D, T>(self.0.mul_spec(scale.0), PhantomData),
    {
        Length::new(self.0 * scale.0)
    }
}

impl<S, D, T: Clone + Mul<T, Output = T>> vstd::std_specs::ops::MulSpecImpl<ScaleFactor<S, D, T>>
    for Length<S, T>
{
    open spec fn obeys_mul_spec() -> bool {
        T::obeys_mul_spec()
    }

    open spec fn mul_req(self, scale: ScaleFactor<S, D, T>) -> bool {
        self.0.mul_req(scale.0)
    }

    open spec fn mul_spec(self, scale: ScaleFactor<S, D, T>) -> Length<D, T> {
        Length(self.0.mul_spec(scale.0), PhantomData)
    }
}

impl<S, D, T: Clone + Div<T, Output = T>> Div<ScaleFactor<S, D, T>> for Length<D, T> {
    type Output = Length<S, T>;

    /// The same length measured in `S`, by the factor that takes `S` to `D`.
    fn div(self, scale: ScaleFactor<S, D, T>) -> (r: Length<S, T>)
        ensures
            T::obeys_div_spec() ==> r == Length::<S, T>(self.0.div_spec(scale.0), PhantomData),
    {
        Length::new(self.0 / scale.0)
    }
}

impl<S, D, T: Clone + Div<T, Output = T>> vstd::std_specs::ops::DivSpecImpl<ScaleFactor<S, D, T>>
    for Length<D, T>
{
    open spec fn obeys_div_spec() -> bool {
        T::obeys_div_spec()
    }

    open spec fn div_req(self, scale: ScaleFactor<S, D, T>) -> bool {
        self.0.div_req(scale.0)
    }

    open spec fn div_spec(self, scale: ScaleFactor<S, D, T>) -> Length<S, T> {
        Length(self.0.div_spec(scale.0), PhantomData)
    }
}

impl<U, T: Clone + Neg<Output = T>> Neg for Length<U, T> {
    type Output = Length<U, T>;

    /// The length of the opposite sign.
    fn neg(self) -> (r: Length<U, T>)
        ensures
            T::obeys_neg_spec() ==> r == Length::<U, T>(self.0.neg_spec(), PhantomData),
    {
        Length::new(self.0.neg())
    }
}

impl<U, T: Clone + Neg<Output = T>> vstd::std_specs::ops::NegSpecImpl for Length<U, T> {
    open spec fn obeys_neg_spec() -> bool {
        T::obeys_neg_spec()
    }

    open spec fn neg_req(self) -> bool {
        self.0.neg_req()
    }

    open spec fn neg_spec(self) -> Length<U, T> {
        Length(self.0.neg_spec(), PhantomData)
    }
}

impl<U, S: ::num::NumCast + Clone> Length<U, S> {
    /// `r` is what casting this length to the numeric type `D` gave: a copy
    /// of the number was converted, and the outcome of that conversion was
    /// tagged with the unit.
    pub open spec fn casts_to<D: ::num::NumCast + Clone>(self, r: Option<Length<U, D>>) -> bool {
        exists|x: S, outcome: Option<D>|
            cloned(self.0, x) && #[trigger] converts_to(x, outcome) && r == match outcome {
                Some(d) => Some(Length::<U, D>(d, PhantomData)),
                None => None,
            }
    }

    /// The same length with its number converted to the type `D`, or `None`
    /// where `D` cannot hold the number. The unit stays.
    ///
    /// Whether `D` can hold the number is decided by the conversion between
    /// the two numeric types. What is converted is a copy of the number, and
    /// the result is the outcome of that conversion with the unit put on, as
    /// [`Length::from_converted`] does.
    pub fn cast<D: ::num::NumCast + Clone>(&self) -> (r: Option<Length<U, D>>)
        ensures
            self.casts_to(r),
    {
        Length::from_converted(convert(self.get()))
    }
}

impl<U, T: Clone> Clone for Length<U, T> {
    fn clone(&self) -> (r: Length<U, T>)
        ensures
            cloned(self.0, r.0),
    {
        Length::new(self.0.clone())
    }
}

impl<U, T: Clone + PartialEq> PartialEq for Length<U, T> {
    /// Two lengths of one unit are equal where their numbers are.
    fn eq(&self, other: &Length<U, T>) -> (r: bool)
        ensures
            T::obeys_eq_spec() ==> r == self.0.eq_spec(&other.0),
    {
        self.0 == other.0
    }
}

impl<U, T: Clone + PartialEq> vstd::std_specs::cmp::PartialEqSpecImpl for Length<U, T> {
    open spec fn obeys_eq_spec() -> bool {
        T::obeys_eq_spec()
    }

    open spec fn eq_spec(&self, other: &Length<U, T>) -> bool {
        self.0.eq_spec(&other.0)
    }
}

impl<U, T: Clone + PartialOrd> PartialOrd for Length<U, T> {
    /// Two lengths of one unit are ordered as their numbers are.
    fn partial_cmp(&self, other: &Length<U, T>) -> (r: Option<Ordering>)
        ensures
            T::obeys_partial_cmp_spec() ==> r == self.0.partial_cmp_spec(&other.0),
    {
        self.0.partial_cmp(&other.0)
    }
}

impl<U, T: Clone + PartialOrd> vstd::std_specs::cmp::PartialOrdSpecImpl for Length<U, T> {
    open spec fn obeys_partial_cmp_spec() -> bool {
        T::obeys_partial_cmp_spec()
    }

    open spec fn partial_cmp_spec(&self, other: &Length<U, T>) -> Option<Ordering> {
        self.0.partial_cmp_spec(&other.0)
    }
}

impl<U, T: Clone + Eq> Eq for Length<U, T> {

}

/// Adding a length and taking it away again gives the first length back,
/// exactly, for every integral payload: where `a + b` is defined, so is
/// `(a + b) - b`, and it is `a`.
pub proof fn lemma_add_then_sub<U, T: Integral + Clone>(a: Length<U, T>, b: Length<U, T>)
    requires
        a.add_req(b),
    ensures
        Length::<U, T>::obeys_add_spec(),
        Length::<U, T>::obeys_sub_spec(),
        a.add_spec(b).sub_req(b),
        a.add_spec(b).sub_spec(b) == a,
{
    T::lemma_integral();
    let sum = a.0.add_spec(b.0);
    assert(sum.sub_spec(b.0).value() == a.0.value());
}

/// Negating a length twice gives the length back, exactly, for every signed
/// integral payload: where `-a` is defined, so is `-(-a)`, and it is `a`.
///
/// The one length whose negation is not defined is the least of its type,
/// which has no positive counterpart.
pub proof fn lemma_neg_twice<U, T: SignedIntegral + Clone>(a: Length<U, T>)
    requires
        a.neg_req(),
    ensures
        Length::<U, T>::obeys_neg_spec(),
        a.neg_spec().neg_req(),
        a.neg_spec().neg_spec() == a,
{
    T::lemma_integral();
    T::lemma_signed_integral();
    let minus = a.0.neg_spec();
    assert(minus.neg_spec().value() == a.0.value());
}

/// Converting a length to another unit and back gives the length back,
/// exactly, for every integral payload: where `length * scale` is defined and
/// the factor is not zero, `(length * scale) / scale` is defined and is
/// `length`.
pub proof fn lemma_scale_then_unscale<S, D, T: Integral + Clone>(
    length: Length<S, T>,
    scale: ScaleFactor<S, D, T>,
)
    requires
        length.mul_req(scale),
        scale.0.value() != 0,
    ensures
        length.mul_spec(scale).div_req(scale),
        length.mul_spec(scale).div_spec(scale) == length,
{
    T::lemma_integral();
    T::lemma_integral_div();
    let product = length.0.mul_spec(scale.0);
    lemma_quotient_exact(length.0.value(), scale.0.value());
    assert(product.div_spec(scale.0).value() == length.0.value());
}

/// The ratio of a converted length to the length it was converted from is
/// the factor of the conversion, exactly, for every integral payload: where
/// `length * scale` is defined and the length is not zero,
/// `(length * scale) / length` is defined and is `scale`.
pub proof fn lemma_scale_then_ratio<S, D, T: Integral + Clone>(
    length: Length<S, T>,
    scale: ScaleFactor<S, D, T>,
)
    requires
        length.mul_req(scale),
        length.0.value() != 0,
    ensures
        length.mul_spec(scale).div_req(length),
        length.mul_spec(scale).div_spec(length) == scale,
{
    T::lemma_integral();
    T::lemma_integral_div();
    let product = length.0.mul_spec(scale.0);
    lemma_quotient_exact(scale.0.value(), length.0.value());
    assert(product.div_spec(length.0).value() == scale.0.value());
}

} // verus!
