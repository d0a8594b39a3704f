//! Points of two, three and four coordinates.
//!
//! The coordinates of a point are of one payload type: a plain number, or a
//! [`Length`], in which case every coordinate is measured in the same unit (a
//! `TypedPoint2D`). All arithmetic is coordinate by coordinate.
//!
//! Each operator is an impl of the trait of `std::ops` and comes with the
//! three functions that state its contract: `*_req` says when the operation
//! is defined (for an integer payload: when it does not overflow, and no
//! division is by zero), `*_spec` says what it gives, and `obeys_*_spec` says
//! whether the payload's own operator is known to behave as stated, which
//! holds for the primitive integers.
use crate::arith::{
    cross2, cross2_req, cross2_spec, dot2, dot2_req, dot2_spec, dot3, dot3_req, dot3_spec,
    lemma_cross2_integral, lemma_dot3_integral, max_of, max_spec, min_of, min_spec,
};
use crate::length::Length;
use crate::num::{additive_identity, zero, zero_spec, Integral};
use crate::size::Size2D;
use core::marker::PhantomData;
use core::ops::{Add, Div, Mul, Neg, Sub};
use vstd::prelude::*;
use vstd::std_specs::cmp::{PartialEqSpec, PartialOrdSpec};
use vstd::std_specs::ops::{AddSpec, DivSpec, MulSpec, NegSpec, SubSpec};

verus! {

/// A point of two coordinates.
#[derive(Copy, Debug, Eq, Hash)]
pub struct Point2D<T> {
    pub x: T,
    pub y: T,
}

impl<T: Clone> Clone for Point2D<T> {
    fn clone(&self) -> (r: Point2D<T>)
        ensures
            cloned(self.x, r.x),
            cloned(self.y, r.y),
    {
        Point2D { x: self.x.clone(), y: self.y.clone() }
    }
}

impl<T: PartialEq> PartialEq for Point2D<T> {
    /// Two points are equal where each coordinate of the one equals that of
    /// the other.
    fn eq(&self, other: &Point2D<T>) -> (r: bool)
        ensures
            T::obeys_eq_spec() ==> r == (self.x.eq_spec(&other.x) && self.y.eq_spec(&other.y)),
    {
        self.x == other.x && self.y == other.y
    }
}

impl<T: PartialEq> vstd::std_specs::cmp::PartialEqSpecImpl for Point2D<T> {
    open spec fn obeys_eq_spec() -> bool {
        T::obeys_eq_spec()
    }

    open spec fn eq_spec(&self, other: &Point2D<T>) -> bool {
        self.x.eq_spec(&other.x) && self.y.eq_spec(&other.y)
    }
}

impl<T> Point2D<T> {
    /// The point of the given coordinates.
    pub fn new(x: T, y: T) -> (r: Point2D<T>)
        ensures
            r == (Point2D { x, y }),
    {
        Point2D { x: x, y: y }
    }
}

impl<T: ::num::Zero> Point2D<T> {
    /// The origin: every coordinate is the payload's zero.
    pub fn zero() -> (r: Point2D<T>)
        ensures
            additive_identity(r.x),
            additive_identity(r.y),
            T::obeys_add_spec() ==> r == (Point2D { x: zero_spec::<T>(), y: zero_spec::<T>() }),
    {
        Point2D { x: zero(), y: zero() }
    }
}

impl<T: Mul<T, Output = T> + Add<T, Output = T> + Sub<T, Output = T> + Copy> Point2D<T> {
    /// The dot product, `x1 * x2 + y1 * y2`.
    pub fn dot(&self, other: Point2D<T>) -> (r: T)
        requires
            dot2_req(self.x, other.x, self.y, other.y),
        ensures
            r == dot2_spec(self.x, other.x, self.y, other.y),
    {
        dot2(self.x, other.x, self.y, other.y)
    }

    /// The cross product of the two points taken as vectors in the plane: the
    /// one number `x1 * y2 - y1 * x2`.
    pub fn cross(&self, other: Point2D<T>) -> (r: T)
        requires
            cross2_req(self.x, other.y, self.y, other.x),
        ensures
            r == cross2_spec(self.x, other.y, self.y, other.x),
    {
        cross2(self.x, other.y, self.y, other.x)
    }
}

impl<T: Clone + Add<T, Output = T>> Add for Point2D<T> {
    type Output = Point2D<T>;

    /// The sum of two points, coordinate by coordinate.
    fn add(self, other: Point2D<T>) -> (r: Point2D<T>)
        ensures
            T::obeys_add_spec() ==> r == (Point2D {
                x: self.x.add_spec(other.x),
                y: self.y.add_spec(other.y),
            }),
    {
        Point2D::new(self.x + other.x, self.y + other.y)
    }
}

impl<T: Clone + Add<T, Output = T>> vstd::std_specs::ops::AddSpecImpl for Point2D<T> {
    open spec fn obeys_add_spec() -> bool {
        T::obeys_add_spec()
    }

    open spec fn add_req(self, other: Point2D<T>) -> bool {
        self.x.add_req(other.x) && self.y.add_req(other.y)
    }

    open spec fn add_spec(self, other: Point2D<T>) -> Point2D<T> {
        Point2D { x: self.x.add_spec(other.x), y: self.y.add_spec(other.y) }
    }
}

impl<T: Clone + Add<T, Output = T>> Add<Size2D<T>> for Point2D<T> {
    type Output = Point2D<T>;

    /// The point moved by the width along `x` and by the height along `y`.
    fn add(self, size: Size2D<T>) -> (r: Point2D<T>)
        ensures
            T::obeys_add_spec() ==> r == (Point2D {
                x: self.x.add_spec(size.width),
                y: self.y.add_spec(size.height),
            }),
    {
        Point2D::new(self.x + size.width, self.y + size.height)
    }
}

impl<T: Clone + Add<T, Output = T>> vstd::std_specs::ops::AddSpecImpl<Size2D<T>> for Point2D<T> {
    open spec fn obeys_add_spec() -> bool {
        T::obeys_add_spec()
    }

    open spec fn add_req(self, size: Size2D<T>) -> bool {
        self.x.add_req(size.width) && self.y.add_req(size.height)
    }

    open spec fn add_spec(self, size: Size2D<T>) -> Point2D<T> {
        Point2D { x: self.x.add_spec(size.width), y: self.y.add_spec(size.height) }
    }
}

impl<T: Copy + Add<T, Output = T>> Point2D<T> {
    /// The point moved by the width along `x` and by the height along `y`.
    pub fn add_size(&self, size: &Size2D<T>) -> (r: Point2D<T>)
        requires
            self.x.add_req(size.width),
            self.y.add_req(size.height),
        ensures
            T::obeys_add_spec() ==> r == (Point2D {
                x: self.x.add_spec(size.width),
                y: self.y.add_spec(size.height),
            }),
    {
        Point2D { x: self.x + size.width, y: self.y + size.height }
    }
}

impl<T: Clone + Sub<T, Output = T>> Sub for Point2D<T> {
    type Output = Point2D<T>;

    /// The difference of two points, coordinate by coordinate.
    fn sub(self, other: Point2D<T>) -> (r: Point2D<T>)
        ensures
            T::obeys_sub_spec() ==> r == (Point2D {
                x: self.x.sub_spec(other.x),
                y: self.y.sub_spec(other.y),
            }),
    {
        Point2D::new(self.x - other.x, self.y - other.y)
    }
}

impl<T: Clone + Sub<T, Output = T>> vstd::std_specs::ops::SubSpecImpl for Point2D<T> {
    open spec fn obeys_sub_spec() -> bool {
        T::obeys_sub_spec()
    }

    open spec fn sub_req(self, other: Point2D<T>) -> bool {
        self.x.sub_req(other.x) && self.y.sub_req(other.y)
    }

    open spec fn sub_spec(self, other: Point2D<T>) -> Point2D<T> {
        Point2D { x: self.x.sub_spec(other.x), y: self.y.sub_spec(other.y) }
    }
}

impl<T: Clone + Neg<Output = T>> Neg for Point2D<T> {
    type Output = Point2D<T>;

    /// The point with every coordinate negated.
    fn neg(self) -> (r: Point2D<T>)
        ensures
            T::obeys_neg_spec() ==> r == (Point2D { x: self.x.neg_spec(), y: self.y.neg_spec() }),
    {
        Point2D::new(self.x.neg(), self.y.neg())
    }
}

impl<T: Clone + Neg<Output = T>> vstd::std_specs::ops::NegSpecImpl for Point2D<T> {
    open spec fn obeys_neg_spec() -> bool {
        T::obeys_neg_spec()
    }

    open spec fn neg_req(self) -> bool {
        self.x.neg_req() && self.y.neg_req()
    }

    open spec fn neg_spec(self) -> Point2D<T> {
        Point2D { x: self.x.neg_spec(), y: self.y.neg_spec() }
    }
}

impl<T: Copy + PartialOrd> Point2D<T> {
    /// The point that has, in each coordinate, the lesser of the two
    /// points' coordinates.
    pub fn min(self, other: Point2D<T>) -> (r: Point2D<T>)
        ensures
            T::obeys_partial_cmp_spec() && T::obeys_eq_spec() ==> r == (Point2D {
                x: min_spec(self.x, other.x),
                y: min_spec(self.y, other.y),
            }),
    {
        Point2D::new(min_of(self.x, other.x), min_of(self.y, other.y))
    }

    /// The point that has, in each coordinate, the greater of the two
    /// points' coordinates.
    pub fn max(self, other: Point2D<T>) -> (r: Point2D<T>)
        ensures
            T::obeys_partial_cmp_spec() && T::obeys_eq_spec() ==> r == (Point2D {
                x: max_spec(self.x, other.x),
                y: max_spec(self.y, other.y),
            }),
    {
        Point2D::new(max_of(self.x, other.x), max_of(self.y, other.y))
    }
}

impl<S: Copy, T: Mul<S, Output = R>, R: Clone> Mul<S> for Point2D<T> {
    type Output = Point2D<R>;

    /// Both coordinates times `scale`. The products may be of another type
    /// than the coordinates.
    fn mul(self, scale: S) -> (r: Point2D<R>)
        ensures
            <T as MulSpec<S>>::obeys_mul_spec() ==> r == (Point2D {
                x: self.x.mul_spec(scale),
                y: self.y.mul_spec(scale),
            }),
    {
        Point2D::new(self.x * scale, self.y * scale)
    }
}

impl<S: Copy, T: Mul<S, Output = R>, R: Clone> vstd::std_specs::ops::MulSpecImpl<S> for Point2D<T> {
    open spec fn obeys_mul_spec() -> bool {
        <T as MulSpec<S>>::obeys_mul_spec()
    }

    open spec fn mul_req(self, scale: S) -> bool {
        self.x.mul_req(scale) && self.y.mul_req(scale)
    }

    open spec fn mul_spec(self, scale: S) -> Point2D<R> {
        Point2D { x: self.x.mul_spec(scale), y: self.y.mul_spec(scale) }
    }
}

impl<S: Copy, T: Div<S, Output = R>, R: Clone> Div<S> for Point2D<T> {
    type Output = Point2D<R>;

    /// Both coordinates divided by `scale`. The quotients may be of another
    /// type than the coordinates.
    fn div(self, scale: S) -> (r: Point2D<R>)
        ensures
            <T as DivSpec<S>>::obeys_div_spec() ==> r == (Point2D {
                x: self.x.div_spec(scale),
                y: self.y.div_spec(scale),
            }),
    {
        Point2D::new(self.x / scale, self.y / scale)
    }
}

impl<S: Copy, T: Div<S, Output = R>, R: Clone> vstd::std_specs::ops::DivSpecImpl<S> for Point2D<T> {
    open spec fn obeys_div_spec() -> bool {
        <T as DivSpec<S>>::obeys_div_spec()
    }

    open spec fn div_req(self, scale: S) -> bool {
        self.x.div_req(scale) && self.y.div_req(scale)
    }

    open spec fn div_spec(self, scale: S) -> Point2D<R> {
        Point2D { x: self.x.div_spec(scale), y: self.y.div_spec(scale) }
    }
}

/// A point whose coordinates are lengths in the unit `U`.
pub type TypedPoint2D<U, T> = Point2D<Length<U, T>>;

impl<U, T: Clone> TypedPoint2D<U, T> {
    /// The point of the given coordinates, both measured in `U`.
    pub fn typed(x: T, y: T) -> (r: TypedPoint2D<U, T>)
        ensures
            r == (Point2D { x: Length::<U, T>(x, PhantomData), y: Length::<U, T>(y, PhantomData) }),
    {
        Point2D::new(Length::new(x), Length::new(y))
    }

    /// The two numbers without their unit.
    pub fn to_untyped(&self) -> (r: Point2D<T>)
        ensures
            cloned(self.x.0, r.x),
            cloned(self.y.0, r.y),
    {
        Point2D::new(self.x.get(), self.y.get())
    }

    /// The coordinates of `point`, taken as measured in `U`.
    pub fn from_untyped(point: &Point2D<T>) -> (r: TypedPoint2D<U, T>)
        ensures
            cloned(point.x, r.x.0),
            cloned(point.y, r.y.0),
    {
        Point2D::new(Length::new(point.x.clone()), Length::new(point.y.clone()))
    }
}

impl<T> Point2D<T> {
    /// Puts two converted coordinates together: a point where both
    /// conversions gave a value, `None` where either failed.
    pub fn from_converted(x: Option<T>, y: Option<T>) -> (r: Option<Point2D<T>>)
        ensures
            r == match (x, y) {
                (Some(x), Some(y)) => Some(Point2D { x, y }),
                _ => None,
            },
    {
        match (x, y) {
            (Some(x), Some(y)) => Some(Point2D { x: x, y: y }),
            _ => None,
        }
    }
}

impl<U, T: Clone + ::num::NumCast> Point2D<Length<U, T>> {
    /// The same point with its numbers converted to the type `R`, or `None`
    /// where `R` cannot hold one of them. The unit stays.
    ///
    /// Whether `R` can hold a number is decided by the conversion between the
    /// two numeric types. Each coordinate is cast as a length is, and the
    /// result is a point where both casts gave a length, as
    /// [`Point2D::from_converted`] puts it together.
    pub fn cast<R: Clone + ::num::NumCast>(&self) -> (r: Option<Point2D<Length<U, R>>>)
        ensures
            exists|x: Option<Length<U, R>>, y: Option<Length<U, R>>|
                #![trigger self.x.casts_to(x), self.y.casts_to(y)]
                self.x.casts_to(x) && self.y.casts_to(y) && r == match (x, y) {
                    (Some(x), Some(y)) => Some(Point2D { x, y }),
                    _ => None,
                },
    {
        Point2D::from_converted(self.x.cast(), self.y.cast())
    }
}

/// A point of three coordinates.
#[derive(Copy, Debug, Eq, Hash)]
pub struct Point3D<T> {
    pub x: T,
    pub y: T,
    pub z: T,
}

impl<T: Clone> Clone for Point3D<T> {
    fn clone(&self) -> (r: Point3D<T>)
        ensures
            cloned(self.x, r.x),
            cloned(self.y, r.y),
            cloned(self.z, r.z),
    {
        Point3D { x: self.x.clone(), y: self.y.clone(), z: self.z.clone() }
    }
}

impl<T: PartialEq> PartialEq for Point3D<T> {
    /// Two points are equal where each coordinate of the one equals that of
    /// the other.
    fn eq(&self, other: &Point3D<T>) -> (r: bool)
        ensures
            T::obeys_eq_spec() ==> r == ({
                &&& self.x.eq_spec(&other.x)
                &&& self.y.eq_spec(&other.y)
                &&& self.z.eq_spec(&other.z)
            }),
    {
        self.x == other.x && self.y == other.y && self.z == other.z
    }
}

impl<T: PartialEq> vstd::std_specs::cmp::PartialEqSpecImpl for Point3D<T> {
    open spec fn obeys_eq_spec() -> bool {
        T::obeys_eq_spec()
    }

    open spec fn eq_spec(&self, other: &Point3D<T>) -> bool {
        self.x.eq_spec(&other.x) && self.y.eq_spec(&other.y) && self.z.eq_spec(&other.z)
    }
}

impl<T> Point3D<T> {
    /// The point of the given coordinates.
    pub fn new(x: T, y: T, z: T) -> (r: Point3D<T>)
        ensures
            r == (Point3D { x, y, z }),
    {
        Point3D { x: x, y: y, z: z }
    }
}

impl<T: ::num::Zero> Point3D<T> {
    /// The origin: every coordinate is the payload's zero.
    pub fn zero() -> (r: Point3D<T>)
        ensures
            additive_identity(r.x),
            additive_identity(r.y),
            additive_identity(r.z),
            T::obeys_add_spec() ==> r == (Point3D {
                x: zero_spec::<T>(),
                y: zero_spec::<T>(),
                z: zero_spec::<T>(),
            }),
    {
        Point3D { x: zero(), y: zero(), z: zero() }
    }
}

/// The cross product of `a` and `b`: the vector at right angles to both.
pub open spec fn cross3_spec<T: Mul<T, Output = T> + Sub<T, Output = T>>(
    a: Point3D<T>,
    b: Point3D<T>,
) -> Point3D<T> {
    Point3D {
        x: cross2_spec(a.y, b.z, a.z, b.y),
        y: cross2_spec(a.z, b.x, a.x, b.z),
        z: cross2_spec(a.x, b.y, a.y, b.x),
    }
}

/// Every operation of the cross product of `a` and `b` is defined.
pub open spec fn cross3_req<T: Mul<T, Output = T> + Sub<T, Output = T>>(
    a: Point3D<T>,
    b: Point3D<T>,
) -> bool {
    &&& cross2_req(a.y, b.z, a.z, b.y)
    &&& cross2_req(a.z, b.x, a.x, b.z)
    &&& cross2_req(a.x, b.y, a.y, b.x)
}

impl<T: Copy + Mul<T, Output = T> + Add<T, Output = T> + Sub<T, Output = T>> Point3D<T> {
    /// The dot product, `x1 * x2 + y1 * y2 + z1 * z2`.
    pub fn dot(self, other: Point3D<T>) -> (r: T)
        requires
            dot3_req(self.x, other.x, self.y, other.y, self.z, other.z),
        ensures
            r == dot3_spec(self.x, other.x, self.y, other.y, self.z, other.z),
    {
        dot3(self.x, other.x, self.y, other.y, self.z, other.z)
    }

    /// The cross product of the two points taken as vectors in space:
    /// `(y1 * z2 - z1 * y2, z1 * x2 - x1 * z2, x1 * y2 - y1 * x2)`.
    pub fn cross(self, other: Point3D<T>) -> (r: Point3D<T>)
        requires
            cross3_req(self, other),
        ensures
            r == cross3_spec(self, other),
    {
        Point3D {
            x: cross2(self.y, other.z, self.z, other.y),
            y: cross2(self.z, other.x, self.x, other.z),
            z: cross2(self.x, other.y, self.y, other.x),
        }
    }
}

impl<T: Clone + Add<T, Output = T>> Add for Point3D<T> {
    type Output = Point3D<T>;

    /// The sum of two points, coordinate by coordinate.
    fn add(self, other: Point3D<T>) -> (r: Point3D<T>)
        ensures
            T::obeys_add_spec() ==> r == (Point3D {
                x: self.x.add_spec(other.x),
                y: self.y.add_spec(other.y),
                z: self.z.add_spec(other.z),
            }),
    {
        Point3D::new(self.x + other.x, self.y + other.y, self.z + other.z)
    }
}

impl<T: Clone + Add<T, Output = T>> vstd::std_specs::ops::AddSpecImpl for Point3D<T> {
    open spec fn obeys_add_spec() -> bool {
        T::obeys_add_spec()
    }

    open spec fn add_req(self, other: Point3D<T>) -> bool {
        self.x.add_req(other.x) && self.y.add_req(other.y) && self.z.add_req(other.z)
    }

    open spec fn add_spec(self, other: Point3D<T>) -> Point3D<T> {
        Point3D {
            x: self.x.add_spec(other.x),
            y: self.y.add_spec(other.y),
            z: self.z.add_spec(other.z),
        }
    }
}

impl<T: Clone + Sub<T, Output = T>> Sub for Point3D<T> {
    type Output = Point3D<T>;

    /// The difference of two points, coordinate by coordinate.
    fn sub(self, other: Point3D<T>) -> (r: Point3D<T>)
        ensures
            T::obeys_sub_spec() ==> r == (Point3D {
                x: self.x.sub_spec(other.x),
                y: self.y.sub_spec(other.y),
                z: self.z.sub_spec(other.z),
            }),
    {
        Point3D::new(self.x - other.x, self.y - other.y, self.z - other.z)
    }
}

impl<T: Clone + Sub<T, Output = T>> vstd::std_specs::ops::SubSpecImpl for Point3D<T> {
    open spec fn obeys_sub_spec() -> bool {
        T::obeys_sub_spec()
    }

    open spec fn sub_req(self, other: Point3D<T>) -> bool {
        self.x.sub_req(other.x) && self.y.sub_req(other.y) && self.z.sub_req(other.z)
    }

    open spec fn sub_spec(self, other: Point3D<T>) -> Point3D<T> {
        Point3D {
            x: self.x.sub_spec(other.x),
            y: self.y.sub_spec(other.y),
            z: self.z.sub_spec(other.z),
        }
    }
}

impl<T: Clone + Neg<Output = T>> Neg for Point3D<T> {
    type Output = Point3D<T>;

    /// The point with every coordinate negated.
    fn neg(self) -> (r: Point3D<T>)
        ensures
            T::obeys_neg_spec() ==> r == (Point3D {
                x: self.x.neg_spec(),
                y: self.y.neg_spec(),
                z: self.z.neg_spec(),
            }),
    {
        Point3D::new(self.x.neg(), self.y.neg(), self.z.neg())
    }
}

impl<T: Clone + Neg<Output = T>> vstd::std_specs::ops::NegSpecImpl for Point3D<T> {
    open spec fn obeys_neg_spec() -> bool {
        T::obeys_neg_spec()
    }

    open spec fn neg_req(self) -> bool {
        self.x.neg_req() && self.y.neg_req() && self.z.neg_req()
    }

    open spec fn neg_spec(self) -> Point3D<T> {
        Point3D { x: self.x.neg_spec(), y: self.y.neg_spec(), z: self.z.neg_spec() }
    }
}

impl<T: Copy + PartialOrd> Point3D<T> {
    /// The point that has, in each coordinate, the lesser of the two
    /// points' coordinates.
    pub fn min(self, other: Point3D<T>) -> (r: Point3D<T>)
        ensures
            T::obeys_partial_cmp_spec() && T::obeys_eq_spec() ==> r == (Point3D {
                x: min_spec(self.x, other.x),
                y: min_spec(self.y, other.y),
                z: min_spec(self.z, other.z),
            }),
    {
        Point3D::new(min_of(self.x, other.x), min_of(self.y, other.y), min_of(self.z, other.z))
    }

    /// The point that has, in each coordinate, the greater of the two
    /// points' coordinates.
    pub fn max(self, other: Point3D<T>) -> (r: Point3D<T>)
        ensures
            T::obeys_partial_cmp_spec() && T::obeys_eq_spec() ==> r == (Point3D {
                x: max_spec(self.x, other.x),
                y: max_spec(self.y, other.y),
                z: max_spec(self.z, other.z),
            }),
    {
        Point3D::new(max_of(self.x, other.x), max_of(self.y, other.y), max_of(self.z, other.z))
    }
}

/// The cross product stands at right angles to both of its factors, for every
/// integral payload: its dot product with either factor is zero, where the
/// products are defined.
pub proof fn lemma_cross_is_orthogonal<T: Integral>(a: Point3D<T>, b: Point3D<T>)
    requires
        cross3_req(a, b),
        dot3_req(
            cross3_spec(a, b).x,
            a.x,
            cross3_spec(a, b).y,
            a.y,
            cross3_spec(a, b).z,
            a.z,
        ),
        dot3_req(
            cross3_spec(a, b).x,
            b.x,
            cross3_spec(a, b).y,
            b.y,
            cross3_spec(a, b).z,
            b.z,
        ),
    ensures
        dot3_spec(
            cross3_spec(a, b).x,
            a.x,
            cross3_spec(a, b).y,
            a.y,
            cross3_spec(a, b).z,
            a.z,
        ).value() == 0,
        dot3_spec(
            cross3_spec(a, b).x,
            b.x,
            cross3_spec(a, b).y,
            b.y,
            cross3_spec(a, b).z,
            b.z,
        ).value() == 0,
{
    let c = cross3_spec(a, b);
    lemma_cross2_integral(a.y, b.z, a.z, b.y);
    lemma_cross2_integral(a.z, b.x, a.x, b.z);
    lemma_cross2_integral(a.x, b.y, a.y, b.x);
    lemma_dot3_integral(c.x, a.x, c.y, a.y, c.z, a.z);
    lemma_dot3_integral(c.x, b.x, c.y, b.y, c.z, b.z);
    let (ax, ay, az) = (a.x.value(), a.y.value(), a.z.value());
    let (bx, by, bz) = (b.x.value(), b.y.value(), b.z.value());
    assert((ay * bz - az * by) * ax + (az * bx - ax * bz) * ay + (ax * by - ay * bx) * az == 0)
        by (nonlinear_arith);
    assert((ay * bz - az * by) * bx + (az * bx - ax * bz) * by + (ax * by - ay * bx) * bz == 0)
        by (nonlinear_arith);
}

/// A point of four coordinates.
#[derive(Copy, Debug, Eq, Hash)]
pub struct Point4D<T> {
    pub x: T,
    pub y: T,
    pub z: T,
    pub t: T,
}

impl<T: Clone> Clone for Point4D<T> {
    fn clone(&self) -> (r: Point4D<T>)
        ensures
            cloned(self.x, r.x),
            cloned(self.y, r.y),
            cloned(self.z, r.z),
            cloned(self.t, r.t),
    {
        Point4D { x: self.x.clone(), y: self.y.clone(), z: self.z.clone(), t: self.t.clone() }
    }
}

impl<T: PartialEq> PartialEq for Point4D<T> {
    /// Two points are equal where each coordinate of the one equals that of
    /// the other.
    fn eq(&self, other: &Point4D<T>) -> (r: bool)
        ensures
            T::obeys_eq_spec() ==> r == ({
                &&& self.x.eq_spec(&other.x)
                &&& self.y.eq_spec(&other.y)
                &&& self.z.eq_spec(&other.z)
                &&& self.t.eq_spec(&other.t)
            }),
    {
        self.x == other.x && self.y == other.y && self.z == other.z && self.t == other.t
    }
}

impl<T: PartialEq> vstd::std_specs::cmp::PartialEqSpecImpl for Point4D<T> {
    open spec fn obeys_eq_spec() -> bool {
        T::obeys_eq_spec()
    }

    open spec fn eq_spec(&self, other: &Point4D<T>) -> bool {
        self.x.eq_spec(&other.x)
            && self.y.eq_spec(&other.y)
            && self.z.eq_spec(&other.z)
            && self.t.eq_spec(&other.t)
    }
}

impl<T> Point4D<T> {
    /// The point of the given coordinates.
    pub fn new(x: T, y: T, z: T, t: T) -> (r: Point4D<T>)
        ensures
            r == (Point4D { x, y, z, t }),
    {
        Point4D { x: x, y: y, z: z, t: t }
    }
}

impl<T: ::num::Zero> Point4D<T> {
    /// The origin: every coordinate is the payload's zero.
    pub fn zero() -> (r: Point4D<T>)
        ensures
            additive_identity(r.x),
            additive_identity(r.y),
            additive_identity(r.z),
            additive_identity(r.t),
            T::obeys_add_spec() ==> r == (Point4D {
                x: zero_spec::<T>(),
                y: zero_spec::<T>(),
                z: zero_spec::<T>(),
                t: zero_spec::<T>(),
            }),
    {
        Point4D { x: zero(), y: zero(), z: zero(), t: zero() }
    }
}

impl<T: Clone + Add<T, Output = T>> Add for Point4D<T> {
    type Output = Point4D<T>;

    /// The sum of two points, coordinate by coordinate.
    fn add(self, other: Point4D<T>) -> (r: Point4D<T>)
        ensures
            T::obeys_add_spec() ==> r == (Point4D {
                x: self.x.add_spec(other.x),
                y: self.y.add_spec(other.y),
                z: self.z.add_spec(other.z),
                t: self.t.add_spec(other.t),
            }),
    {
        Point4D::new(self.x + other.x, self.y + other.y, self.z + other.z, self.t + other.t)
    }
}

impl<T: Clone + Add<T, Output = T>> vstd::std_specs::ops::AddSpecImpl for Point4D<T> {
    open spec fn obeys_add_spec() -> bool {
        T::obeys_add_spec()
    }

    open spec fn add_req(self, other: Point4D<T>) -> bool {
        self.x.add_req(other.x)
            && self.y.add_req(other.y)
            && self.z.add_req(other.z)
            && self.t.add_req(other.t)
    }

    open spec fn add_spec(self, other: Point4D<T>) -> Point4D<T> {
        Point4D {
            x: self.x.add_spec(other.x),
            y: self.y.add_spec(other.y),
            z: self.z.add_spec(other.z),
            t: self.t.add_spec(other.t),
        }
    }
}

impl<T: Clone + Sub<T, Output = T>> Sub for Point4D<T> {
    type Output = Point4D<T>;

    /// The difference of two points, coordinate by coordinate.
    fn sub(self, other: Point4D<T>) -> (r: Point4D<T>)
        ensures
            T::obeys_sub_spec() ==> r == (Point4D {
                x: self.x.sub_spec(other.x),
                y: self.y.sub_spec(other.y),
                z: self.z.sub_spec(other.z),
                t: self.t.sub_spec(other.t),
            }),
    {
        Point4D::new(self.x - other.x, self.y - other.y, self.z - other.z, self.t - other.t)
    }
}

impl<T: Clone + Sub<T, Output = T>> vstd::std_specs::ops::SubSpecImpl for Point4D<T> {
    open spec fn obeys_sub_spec() -> bool {
        T::obeys_sub_spec()
    }

    open spec fn sub_req(self, other: Point4D<T>) -> bool {
        self.x.sub_req(other.x)
            && self.y.sub_req(other.y)
            && self.z.sub_req(other.z)
            && self.t.sub_req(other.t)
    }

    open spec fn sub_spec(self, other: Point4D<T>) -> Point4D<T> {
        Point4D {
            x: self.x.sub_spec(other.x),
            y: self.y.sub_spec(other.y),
            z: self.z.sub_spec(other.z),
            t: self.t.sub_spec(other.t),
        }
    }
}

impl<T: Clone + Neg<Output = T>> Neg for Point4D<T> {
    type Output = Point4D<T>;

    /// The point with every coordinate negated.
    fn neg(self) -> (r: Point4D<T>)
        ensures
            T::obeys_neg_spec() ==> r == (Point4D {
                x: self.x.neg_spec(),
                y: self.y.neg_spec(),
                z: self.z.neg_spec(),
                t: self.t.neg_spec(),
            }),
    {
        Point4D::new(self.x.neg(), self.y.neg(), self.z.neg(), self.t.neg())
    }
}

impl<T: Clone + Neg<Output = T>> vstd::std_specs::ops::NegSpecImpl for Point4D<T> {
    open spec fn obeys_neg_spec() -> bool {
        T::obeys_neg_spec()
    }

    open spec fn neg_req(self) -> bool {
        self.x.neg_req() && self.y.neg_req() && self.z.neg_req() && self.t.neg_req()
    }

    open spec fn neg_spec(self) -> Point4D<T> {
        Point4D {
            x: self.x.neg_spec(),
            y: self.y.neg_spec(),
            z: self.z.neg_spec(),
            t: self.t.neg_spec(),
        }
    }
}

impl<T: Copy + PartialOrd> Point4D<T> {
    /// The point that has, in each coordinate, the lesser of the two
    /// points' coordinates.
    pub fn min(self, other: Point4D<T>) -> (r: Point4D<T>)
        ensures
            T::obeys_partial_cmp_spec() && T::obeys_eq_spec() ==> r == (Point4D {
                x: min_spec(self.x, other.x),
                y: min_spec(self.y, other.y),
                z: min_spec(self.z, other.z),
                t: min_spec(self.t, other.t),
            }),
    {
        Point4D::new(
            min_of(self.x, other.x),
            min_of(self.y, other.y),
            min_of(self.z, other.z),
            min_of(self.t, other.t),
        )
    }

    /// The point that has, in each coordinate, the greater of the two
    /// points' coordinates.
    pub fn max(self, other: Point4D<T>) -> (r: Point4D<T>)
        ensures
            T::obeys_partial_cmp_spec() && T::obeys_eq_spec() ==> r == (Point4D {
                x: max_spec(self.x, other.x),
                y: max_spec(self.y, other.y),
                z: max_spec(self.z, other.z),
                t: max_spec(self.t, other.t),
            }),
    {
        Point4D::new(
            max_of(self.x, other.x),
            max_of(self.y, other.y),
            max_of(self.z, other.z),
            max_of(self.t, other.t),
        )
    }
}

} // verus!
