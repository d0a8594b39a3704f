//! A width and a height.
//!
//! The two hold a plain number each, or a [`Length`] each: a `TypedSize2D` is
//! a size whose sides are measured in a unit.
//!
//! Each operator is an impl of the trait of `std::ops` and comes with the
//! three functions that state its contract: `*_req` says when the operation
//! is defined (for an integer payload: when it does not overflow, and no
//! division is by zero), `*_spec` says what it gives, and `obeys_*_spec` says
//! whether the payload's own operator is known to behave as stated, which
//! holds for the primitive integers.
use crate::length::Length;
use crate::num::{additive_identity, lemma_zero_unique, lemma_zero_value, zero, zero_spec, Integral};
use core::marker::PhantomData;
use core::ops::{Div, Mul};
use vstd::prelude::*;
use vstd::std_specs::cmp::PartialEqSpec;
use vstd::std_specs::ops::{AddSpec, DivSpec, MulSpec};

verus! {

/// A width and a height of one payload type.
#[derive(Copy, Debug)]
pub struct Size2D<T> {
    pub width: T,
    pub height: T,
}

impl<T: Clone> Clone for Size2D<T> {
    fn clone(&self) -> (r: Size2D<T>)
        ensures
            cloned(self.width, r.width),
            cloned(self.height, r.height),
    {
        Size2D { width: self.width.clone(), height: self.height.clone() }
    }
}

impl<T: PartialEq> PartialEq for Size2D<T> {
    /// Two sizes are equal where their widths are and their heights are.
    fn eq(&self, other: &Size2D<T>) -> (r: bool)
        ensures
            T::obeys_eq_spec() ==> r == (self.width.eq_spec(&other.width) && self.height.eq_spec(
                &other.height,
            )),
    {
        self.width == other.width && self.height == other.height
    }
}

impl<T: PartialEq> vstd::std_specs::cmp::PartialEqSpecImpl for Size2D<T> {
    open spec fn obeys_eq_spec() -> bool {
        T::obeys_eq_spec()
    }

    open spec fn eq_spec(&self, other: &Size2D<T>) -> bool {
        self.width.eq_spec(&other.width) && self.height.eq_spec(&other.height)
    }
}

impl<T: Clone> Size2D<T> {
    /// The size of the given width and height.
    pub fn new(width: T, height: T) -> (r: Size2D<T>)
        ensures
            r == (Size2D { width, height }),
    {
        Size2D { width: width, height: height }
    }
}

impl<T> Size2D<T> {
    /// Puts two converted sides together: a size where both conversions gave
    /// a value, `None` where either failed.
    pub fn from_converted(width: Option<T>, height: Option<T>) -> (r: Option<Size2D<T>>)
        ensures
            r == match (width, height) {
                (Some(w), Some(h)) => Some(Size2D { width: w, height: h }),
                _ => None,
            },
    {
        match (width, height) {
            (Some(w), Some(h)) => Some(Size2D { width: w, height: h }),
            _ => None,
        }
    }
}

impl<T: ::num::Zero> Size2D<T> {
    /// The size without extent: both sides are the payload's zero.
    pub fn zero() -> (r: Size2D<T>)
        ensures
            additive_identity(r.width),
            additive_identity(r.height),
            T::obeys_add_spec() ==> r == (Size2D {
                width: zero_spec::<T>(),
                height: zero_spec::<T>(),
            }),
    {
        Size2D { width: zero(), height: zero() }
    }
}

impl<T: Copy + Clone + Mul<T, Output = U>, U> Size2D<T> {
    /// The width times the height. The product may be of another type than
    /// the sides.
    pub fn area(&self) -> (r: U)
        requires
            self.width.mul_req(self.height),
        ensures
            T::obeys_mul_spec() ==> r == self.width.mul_spec(self.height),
    {
        self.width * self.height
    }
}

impl<S: Copy, T: Mul<S, Output = R>, R: Clone> Mul<S> for Size2D<T> {
    type Output = Size2D<R>;

    /// Both sides times `scale`.
    fn mul(self, scale: S) -> (r: Size2D<R>)
        ensures
            <T as MulSpec<S>>::obeys_mul_spec() ==> r == (Size2D {
                width: self.width.mul_spec(scale),
                height: self.height.mul_spec(scale),
            }),
    {
        Size2D::new(self.width * scale, self.height * scale)
    }
}

impl<S: Copy, T: Mul<S, Output = R>, R: Clone> vstd::std_specs::ops::MulSpecImpl<S> for Size2D<T> {
    open spec fn obeys_mul_spec() -> bool {
        <T as MulSpec<S>>::obeys_mul_spec()
    }

    open spec fn mul_req(self, scale: S) -> bool {
        self.width.mul_req(scale) && self.height.mul_req(scale)
    }

    open spec fn mul_spec(self, scale: S) -> Size2D<R> {
        Size2D { width: self.width.mul_spec(scale), height: self.height.mul_spec(scale) }
    }
}

impl<S: Copy, T: Div<S, Output = R>, R: Clone> Div<S> for Size2D<T> {
    type Output = Size2D<R>;

    /// Both sides divided by `scale`.
    fn div(self, scale: S) -> (r: Size2D<R>)
        ensures
            <T as DivSpec<S>>::obeys_div_spec() ==> r == (Size2D {
                width: self.width.div_spec(scale),
                height: self.height.div_spec(scale),
            }),
    {
        Size2D::new(self.width / scale, self.height / scale)
    }
}

impl<S: Copy, T: Div<S, Output = R>, R: Clone> vstd::std_specs::ops::DivSpecImpl<S> for Size2D<T> {
    open spec fn obeys_div_spec() -> bool {
        <T as DivSpec<S>>::obeys_div_spec()
    }

    open spec fn div_req(self, scale: S) -> bool {
        self.width.div_req(scale) && self.height.div_req(scale)
    }

    open spec fn div_spec(self, scale: S) -> Size2D<R> {
        Size2D { width: self.width.div_spec(scale), height: self.height.div_spec(scale) }
    }
}

/// A size whose sides are lengths in the unit `U`.
pub type TypedSize2D<U, T> = Size2D<Length<U, T>>;

impl<U, T: Clone> Size2D<Length<U, T>> {
    /// The size of the given width and height, both measured in `U`.
    pub fn typed(width: T, height: T) -> (r: TypedSize2D<U, T>)
        ensures
            r == (Size2D {
                width: Length::<U, T>(width, PhantomData),
                height: Length::<U, T>(height, PhantomData),
            }),
    {
        Size2D::new(Length::new(width), Length::new(height))
    }

    /// The two numbers without their unit.
    pub fn untyped(&self) -> (r: Size2D<T>)
        ensures
            cloned(self.width.0, r.width),
            cloned(self.height.0, r.height),
    {
        Size2D::new(self.width.get(), self.height.get())
    }

    /// The sides of `other`, taken as measured in `U`.
    pub fn from_untyped(other: &Size2D<T>) -> (r: TypedSize2D<U, T>)
        ensures
            cloned(other.width, r.width.0),
            cloned(other.height, r.height.0),
    {
        Size2D::new(Length::new(other.width.clone()), Length::new(other.height.clone()))
    }
}

impl<U, T: ::num::NumCast + Clone> Size2D<Length<U, T>> {
    /// The same size with its numbers converted to the type `R`, or `None`
    /// where `R` cannot hold one of them. The unit stays.
    ///
    /// Whether `R` can hold a number is decided by the conversion between the
    /// two numeric types. Each side is cast as a length is, and the result is
    /// a size where both casts gave a length, as [`Size2D::from_converted`]
    /// puts it together.
    pub fn cast<R: ::num::NumCast + Clone>(&self) -> (r: Option<Size2D<Length<U, R>>>)
        ensures
            exists|width: Option<Length<U, R>>, height: Option<Length<U, R>>|
                #![trigger self.width.casts_to(width), self.height.casts_to(height)]
                self.width.casts_to(width) && self.height.casts_to(height) && r == match (
                    width,
                    height,
                ) {
                    (Some(w), Some(h)) => Some(Size2D { width: w, height: h }),
                    _ => None,
                },
    {
        Size2D::from_converted(self.width.cast(), self.height.cast())
    }
}

/// The area of a size without extent is zero, for every integral payload:
/// where both sides are the payload's zero, the product is defined and is the
/// payload's zero again.
pub proof fn lemma_zero_area<T: Integral + Copy>(size: Size2D<T>)
    requires
        additive_identity(size.width),
        additive_identity(size.height),
    ensures
        T::obeys_mul_spec(),
        size.width.mul_req(size.height),
        additive_identity(size.width.mul_spec(size.height)),
{
    T::lemma_integral();
    lemma_zero_value::<T>();
    lemma_zero_unique(size.width);
    lemma_zero_unique(size.height);
    assert(size.width.value() * size.height.value() == 0);
}

} // verus!
