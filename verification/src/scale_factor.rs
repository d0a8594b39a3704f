//! The ratio between two units.
//!
//! A `ScaleFactor<Src, Dst, T>` is the number of `Dst` units in one `Src`
//! unit. Multiplying a length in `Src` by it gives the length in `Dst`, and
//! two factors compose where the destination of the first is the source of
//! the second.
//!
//! Each operator is an impl of the trait of `std::ops` and comes with the
//! three functions that state its contract: `*_req` says when the operation
//! is defined (for an integer payload: when it does not overflow, and no
//! division is by zero), `*_spec` says what it gives, and `obeys_*_spec` says
//! whether the payload's own operator is known to behave as stated, which
//! holds for the primitive integers.
use crate::num::{
    convert, converts_to, lemma_one_value, lemma_quotient_bounds, one, one_spec, Integral,
};
use core::marker::PhantomData;
use core::ops::{Add, Div, Mul, Sub};
use vstd::prelude::*;
use vstd::std_specs::cmp::PartialEqSpec;
use vstd::std_specs::ops::{AddSpec, DivSpec, MulSpec, SubSpec};

verus! {

/// The factor that takes a number of `Src` units to the number of `Dst` units.
#[derive(Copy, Debug)]
pub struct ScaleFactor<Src, Dst, T>(pub T, pub PhantomData<(Src, Dst)>);

impl<S, D, T> ScaleFactor<S, D, T> {
    /// The factor of ratio `x`.
    pub fn new(x: T) -> (r: ScaleFactor<S, D, T>)
        ensures
            r == ScaleFactor::<S, D, T>(x, PhantomData),
    {
        ScaleFactor(x, PhantomData)
    }

    /// Tags the outcome of a numeric conversion with the two units: a
    /// converted number becomes a factor, a failed conversion stays a failure.
    pub fn from_converted(converted: Option<T>) -> (r: Option<ScaleFactor<S, D, T>>)
        ensures
            r == match converted {
                Some(x) => Some(ScaleFactor::<S, D, T>(x, PhantomData)),
                None => None,
            },
    {
        match converted {
            Some(x) => Some(ScaleFactor::new(x)),
            None => None,
        }
    }
}

impl<S, D, T: Clone> ScaleFactor<S, D, T> {
    /// A copy of the ratio.
    pub fn get(&self) -> (r: T)
        ensures
            cloned(self.0, r),
    {
        self.0.clone()
    }
}

impl<S, D, T: Clone> Clone for ScaleFactor<S, D, T> {
    fn clone(&self) -> (r: ScaleFactor<S, D, T>)
        ensures
            cloned(self.0, r.0),
    {
        ScaleFactor::new(self.0.clone())
    }
}

impl<S, D, T: Clone + ::num::NumCast> ScaleFactor<S, D, T> {
    /// `r` is what casting this factor to the numeric type `R` gave: a copy
    /// of the ratio was converted, and the outcome of that conversion was
    /// tagged with the two units.
    pub open spec fn casts_to<R: Clone + ::num::NumCast>(
        self,
        r: Option<ScaleFactor<S, D, R>>,
    ) -> bool {
        exists|x: T, outcome: Option<R>|
            cloned(self.0, x) && #[trigger] converts_to(x, outcome) && r == match outcome {
                Some(ratio) => Some(ScaleFactor::<S, D, R>(ratio, PhantomData)),
                None => None,
            }
    }

    /// The same factor with its ratio converted to the type `R`, or `None`
    /// where `R` cannot hold the ratio. The units stay.
    ///
    /// Whether `R` can hold the ratio is decided by the conversion between the
    /// two numeric types. What is converted is a copy of the ratio, and the
    /// result is the outcome of that conversion with the units put on, as
    /// [`ScaleFactor::from_converted`] does.
    pub fn cast<R: Clone + ::num::NumCast>(&self) -> (r: Option<ScaleFactor<S, D, R>>)
        ensures
            self.casts_to(r),
    {
        ScaleFactor::from_converted(convert(self.get()))
    }
}

impl<S, D, T: Clone + PartialEq> PartialEq for ScaleFactor<S, D, T> {
    /// Two factors between the same units are equal where their ratios are.
    fn eq(&self, other: &ScaleFactor<S, D, T>) -> (r: bool)
        ensures
            T::obeys_eq_spec() ==> r == self.0.eq_spec(&other.0),
    {
        self.0 == other.0
    }
}

impl<S, D, T: Clone + PartialEq> vstd::std_specs::cmp::PartialEqSpecImpl for ScaleFactor<S, D, T> {
    open spec fn obeys_eq_spec() -> bool {
        T::obeys_eq_spec()
    }

    open spec fn eq_spec(&self, other: &ScaleFactor<S, D, T>) -> bool {
        self.0.eq_spec(&other.0)
    }
}

/// One divided by `x`.
pub open spec fn reciprocal_spec<T: Mul<T, Output = T> + Div<T, Output = T>>(x: T) -> T {
    one_spec::<T>().div_spec(x)
}

/// One can be divided by `x`. For an integer that means `x` is not zero.
pub open spec fn reciprocal_req<T: Mul<T, Output = T> + Div<T, Output = T>>(x: T) -> bool {
    &&& T::obeys_mul_spec()
    &&& T::obeys_div_spec()
    &&& one_spec::<T>().div_req(x)
}

impl<S, D, T: Mul<T, Output = T> + Div<T, Output = T>> ScaleFactor<S, D, T> {
    /// The factor of the opposite direction: one divided by the ratio.
    pub open spec fn inv_spec(self) -> ScaleFactor<D, S, T> {
        ScaleFactor(reciprocal_spec(self.0), PhantomData)
    }

    /// The ratio can be inverted.
    pub open spec fn inv_req(self) -> bool {
        reciprocal_req(self.0)
    }
}

impl<S, D, T: Clone + ::num::One + Div<T, Output = T>> ScaleFactor<S, D, T> {
    /// The factor of the opposite direction: one divided by the ratio.
    ///
    /// The ratio is not tested: the division must be defined for it, which a
    /// caller has to see to. The ratio that is divided by is a copy of the
    /// factor's own.
    pub fn inv(&self) -> (r: ScaleFactor<D, S, T>)
        requires
            forall|x: T| #[trigger] cloned(self.0, x) ==> reciprocal_req(x),
        ensures
            exists|x: T|
                #[trigger] cloned(self.0, x) && r == ScaleFactor::<D, S, T>(
                    reciprocal_spec(x),
                    PhantomData,
                ),
    {
        let one: T = one();
        let ratio = self.get();
        ScaleFactor::new(one / ratio)
    }
}

impl<A, B, C, T: Clone + Mul<T, Output = T>> Mul<ScaleFactor<B, C, T>> for ScaleFactor<A, B, T> {
    type Output = ScaleFactor<A, C, T>;

    /// The factor that takes `A` to `C`, made of the one that takes `A` to
    /// `B` and the one that takes `B` to `C`.
    fn mul(self, other: ScaleFactor<B, C, T>) -> (r: ScaleFactor<A, C, T>)
        ensures
            T::obeys_mul_spec() ==> r == ScaleFactor::<A, C, T>(
                self.0.mul_spec(other.0),
                PhantomData,
            ),
    {
        ScaleFactor::new(self.0 * other.0)
    }
}

impl<A, B, C, T: Clone + Mul<T, Output = T>> vstd::std_specs::ops::MulSpecImpl<ScaleFactor<B, C, T>>
    for ScaleFactor<A, B, T>
{
    open spec fn obeys_mul_spec() -> bool {
        T::obeys_mul_spec()
    }

    open spec fn mul_req(self, other: ScaleFactor<B, C, T>) -> bool {
        self.0.mul_req(other.0)
    }

    open spec fn mul_spec(self, other: ScaleFactor<B, C, T>) -> ScaleFactor<A, C, T> {
        ScaleFactor(self.0.mul_spec(other.0), PhantomData)
    }
}

impl<S, D, T: Clone + Add<T, Output = T>> Add for ScaleFactor<S, D, T> {
    type Output = ScaleFactor<S, D, T>;

    /// The sum of two factors between the same units.
    fn add(self, other: ScaleFactor<S, D, T>) -> (r: ScaleFactor<S, D, T>)
        ensures
            T::obeys_add_spec() ==> r == ScaleFactor::<S, D, T>(
                self.0.add_spec(other.0),
                PhantomData,
            ),
    {
        ScaleFactor::new(self.0 + other.0)
    }
}

impl<S, D, T: Clone + Add<T, Output = T>> vstd::std_specs::ops::AddSpecImpl
    for ScaleFactor<S, D, T>
{
    open spec fn obeys_add_spec() -> bool {
        T::obeys_add_spec()
    }

    open spec fn add_req(self, other: ScaleFactor<S, D, T>) -> bool {
        self.0.add_req(other.0)
    }

    open spec fn add_spec(self, other: ScaleFactor<S, D, T>) -> ScaleFactor<S, D, T> {
        ScaleFactor(self.0.add_spec(other.0), PhantomData)
    }
}

impl<S, D, T: Clone + Sub<T, Output = T>> Sub for ScaleFactor<S, D, T> {
    type Output = ScaleFactor<S, D, T>;

    /// The difference of two factors between the same units.
    fn sub(self, other: ScaleFactor<S, D, T>) -> (r: ScaleFactor<S, D, T>)
        ensures
            T::obeys_sub_spec() ==> r == ScaleFactor::<S, D, T>(
                self.0.sub_spec(other.0),
                PhantomData,
            ),
    {
        ScaleFactor::new(self.0 - other.0)
    }
}

impl<S, D, T: Clone + Sub<T, Output = T>> vstd::std_specs::ops::SubSpecImpl
    for ScaleFactor<S, D, T>
{
    open spec fn obeys_sub_spec() -> bool {
        T::obeys_sub_spec()
    }

    open spec fn sub_req(self, other: ScaleFactor<S, D, T>) -> bool {
        self.0.sub_req(other.0)
    }

    open spec fn sub_spec(self, other: ScaleFactor<S, D, T>) -> ScaleFactor<S, D, T> {
        ScaleFactor(self.0.sub_spec(other.0), PhantomData)
    }
}

/// Composition is associative, for every integral payload: a chain of three
/// factors from `A` to `D` gives the same factor whichever two are composed
/// first, where both ways are defined.
pub proof fn lemma_mul_associative<A, B, C, D, T: Integral + Clone>(
    ab: ScaleFactor<A, B, T>,
    bc: ScaleFactor<B, C, T>,
    cd: ScaleFactor<C, D, T>,
)
    requires
        ab.mul_req(bc),
        ab.mul_spec(bc).mul_req(cd),
        bc.mul_req(cd),
        ab.mul_req(bc.mul_spec(cd)),
    ensures
        ab.mul_spec(bc).mul_spec(cd) == ab.mul_spec(bc.mul_spec(cd)),
{
    T::lemma_integral();
    let (x, y, z) = (ab.0, bc.0, cd.0);
    assert(x.mul_spec(y).mul_spec(z).value() == x.value() * y.value() * z.value());
    assert(x.mul_spec(y.mul_spec(z)).value() == x.value() * (y.value() * z.value()));
    assert(x.value() * y.value() * z.value() == x.value() * (y.value() * z.value()))
        by (nonlinear_arith);
}

/// A factor times its inverse is the factor of ratio one, and the inverse of
/// its inverse is the factor itself, for every integral payload and every
/// ratio that has an integral inverse: those are 1 and -1.
///
/// Any other integer ratio has no inverse among the integers: one divided by
/// it is zero.
pub proof fn lemma_inv_of_unit<S, D, T: Integral + Clone>(scale: ScaleFactor<S, D, T>)
    requires
        scale.0.value() == 1 || scale.0.value() == -1,
    ensures
        scale.inv_req(),
        scale.mul_req(scale.inv_spec()),
        scale.mul_spec(scale.inv_spec()) == ScaleFactor::<S, S, T>(one_spec::<T>(), PhantomData),
        scale.inv_spec().inv_req(),
        scale.inv_spec().inv_spec() == scale,
{
    T::lemma_integral();
    T::lemma_integral_div();
    lemma_one_value::<T>();
    let ratio = scale.0;
    let one = one_spec::<T>();
    lemma_quotient_bounds(1, ratio.value());
    assert(one.div_spec(ratio).value() == ratio.value());
    assert(ratio.value() * ratio.value() == 1) by (nonlinear_arith)
        requires
            ratio.value() == 1 || ratio.value() == -1,
    ;
    assert(ratio.mul_spec(ratio).value() == 1);
}

} // verus!
