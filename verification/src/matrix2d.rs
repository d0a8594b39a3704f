//! Affine transforms of the plane.
//!
//! A `Matrix2D` holds the six coefficients of
//!
//! ```text
//! | m11 m12 0 |
//! | m21 m22 0 |
//! | m31 m32 1 |
//! ```
//!
//! and acts on a point written as the row `(x, y, 1)`, which stands to the
//! left of the matrix: `x' = x * m11 + y * m21 + m31` and
//! `y' = x * m12 + y * m22 + m32`.
//!
//! Composition follows from that. `a.mul(&b)` is the matrix product with `b`
//! on the left and `a` on the right: the transform that applies `b` first and
//! `a` to what `b` gives.
use crate::arith::{
    affine2, affine2_req, affine2_spec, dot2, dot2_req, dot2_spec, lemma_affine2_integral,
    lemma_dot2_integral, lemma_dot2_selects, lemma_mul_by_unit, lemma_scale_dot2,
    lemma_sum3_times,
};
use crate::num::{lemma_one_value, lemma_zero_value, one, one_spec, zero, zero_spec, Integral};
use crate::point::Point2D;
use core::ops::{Add, Mul, Sub};
use vstd::prelude::*;
use vstd::std_specs::ops::{AddSpec, MulSpec};

verus! {

/// The six coefficients of an affine transform of the plane.
#[derive(Copy)]
pub struct Matrix2D<T> {
    pub m11: T,
    pub m12: T,
    pub m21: T,
    pub m22: T,
    pub m31: T,
    pub m32: T,
}

impl<T: Clone> Clone for Matrix2D<T> {
    fn clone(&self) -> (r: Matrix2D<T>)
        ensures
            cloned(self.m11, r.m11),
            cloned(self.m12, r.m12),
            cloned(self.m21, r.m21),
            cloned(self.m22, r.m22),
            cloned(self.m31, r.m31),
            cloned(self.m32, r.m32),
    {
        Matrix2D {
            m11: self.m11.clone(),
            m12: self.m12.clone(),
            m21: self.m21.clone(),
            m22: self.m22.clone(),
            m31: self.m31.clone(),
            m32: self.m32.clone(),
        }
    }
}

impl<T: Add<T, Output = T> + Mul<T, Output = T>> Matrix2D<T> {
    /// The transform that changes nothing.
    pub open spec fn identity_spec() -> Matrix2D<T> {
        Matrix2D {
            m11: one_spec::<T>(),
            m12: zero_spec::<T>(),
            m21: zero_spec::<T>(),
            m22: one_spec::<T>(),
            m31: zero_spec::<T>(),
            m32: zero_spec::<T>(),
        }
    }

    /// The transform that moves every point by `(x, y)`.
    pub open spec fn translation_spec(x: T, y: T) -> Matrix2D<T> {
        Matrix2D {
            m11: one_spec::<T>(),
            m12: zero_spec::<T>(),
            m21: zero_spec::<T>(),
            m22: one_spec::<T>(),
            m31: x,
            m32: y,
        }
    }

    /// The transform that stretches by `x` along the first axis and by `y`
    /// along the second.
    pub open spec fn scaling_spec(x: T, y: T) -> Matrix2D<T> {
        Matrix2D {
            m11: x,
            m12: zero_spec::<T>(),
            m21: zero_spec::<T>(),
            m22: y,
            m31: zero_spec::<T>(),
            m32: zero_spec::<T>(),
        }
    }

    /// The transform that applies `m` first and `self` to what `m` gives.
    pub open spec fn mul_spec(self, m: Matrix2D<T>) -> Matrix2D<T> {
        Matrix2D {
            m11: dot2_spec(m.m11, self.m11, m.m12, self.m21),
            m12: dot2_spec(m.m11, self.m12, m.m12, self.m22),
            m21: dot2_spec(m.m21, self.m11, m.m22, self.m21),
            m22: dot2_spec(m.m21, self.m12, m.m22, self.m22),
            m31: affine2_spec(m.m31, self.m11, m.m32, self.m21, self.m31),
            m32: affine2_spec(m.m31, self.m12, m.m32, self.m22, self.m32),
        }
    }

    /// Every operation of the composition of `self` and `m` is defined.
    pub open spec fn mul_req(self, m: Matrix2D<T>) -> bool {
        &&& dot2_req(m.m11, self.m11, m.m12, self.m21)
        &&& dot2_req(m.m11, self.m12, m.m12, self.m22)
        &&& dot2_req(m.m21, self.m11, m.m22, self.m21)
        &&& dot2_req(m.m21, self.m12, m.m22, self.m22)
        &&& affine2_req(m.m31, self.m11, m.m32, self.m21, self.m31)
        &&& affine2_req(m.m31, self.m12, m.m32, self.m22, self.m32)
    }

    /// Where `self` takes the point `p`.
    pub open spec fn transform_spec(self, p: Point2D<T>) -> Point2D<T> {
        Point2D {
            x: affine2_spec(p.x, self.m11, p.y, self.m21, self.m31),
            y: affine2_spec(p.x, self.m12, p.y, self.m22, self.m32),
        }
    }

    /// Every operation of transforming `p` by `self` is defined.
    pub open spec fn transform_req(self, p: Point2D<T>) -> bool {
        &&& affine2_req(p.x, self.m11, p.y, self.m21, self.m31)
        &&& affine2_req(p.x, self.m12, p.y, self.m22, self.m32)
    }
}

impl<
    T: Copy + PartialOrd + Add<T, Output = T> + Sub<T, Output = T> + Mul<T, Output = T>
        + ::num::One + ::num::Zero,
> Matrix2D<T> {
    /// The matrix of the given coefficients.
    pub fn new(m11: T, m12: T, m21: T, m22: T, m31: T, m32: T) -> (r: Matrix2D<T>)
        ensures
            r == (Matrix2D { m11, m12, m21, m22, m31, m32 }),
    {
        Matrix2D { m11: m11, m12: m12, m21: m21, m22: m22, m31: m31, m32: m32 }
    }

    /// The composition of two transforms: the one that applies `m` first and
    /// `self` to what `m` gives.
    pub fn mul(&self, m: &Matrix2D<T>) -> (r: Matrix2D<T>)
        requires
            self.mul_req(*m),
        ensures
            r == self.mul_spec(*m),
    {
        Matrix2D::new(
            dot2(m.m11, self.m11, m.m12, self.m21),
            dot2(m.m11, self.m12, m.m12, self.m22),
            dot2(m.m21, self.m11, m.m22, self.m21),
            dot2(m.m21, self.m12, m.m22, self.m22),
            affine2(m.m31, self.m11, m.m32, self.m21, self.m31),
            affine2(m.m31, self.m12, m.m32, self.m22, self.m32),
        )
    }

    /// The transform that moves a point by `(x, y)` first and then applies
    /// `self`.
    pub fn translate(&self, x: T, y: T) -> (r: Matrix2D<T>)
        requires
            self.mul_req(Matrix2D::translation_spec(x, y)),
        ensures
            r == self.mul_spec(Matrix2D::translation_spec(x, y)),
    {
        let (_0, _1): (T, T) = (zero(), one());
        let matrix = Matrix2D::new(_1, _0, _0, _1, x, y);
        self.mul(&matrix)
    }

    /// The transform that stretches a point by `x` and `y` along the two axes
    /// first and then applies `self`.
    pub fn scale(&self, x: T, y: T) -> (r: Matrix2D<T>)
        requires
            self.mul_req(Matrix2D::scaling_spec(x, y)),
        ensures
            r == self.mul_spec(Matrix2D::scaling_spec(x, y)),
    {
        let _0: T = zero();
        let matrix = Matrix2D::new(x, _0, _0, y, _0, _0);
        self.mul(&matrix)
    }

    /// The transform that changes nothing.
    pub fn indentity() -> (r: Matrix2D<T>)
        ensures
            T::obeys_add_spec() && T::obeys_mul_spec() ==> r == Matrix2D::<T>::identity_spec(),
    {
        let (_0, _1): (T, T) = (zero(), one());
        Matrix2D::new(_1, _0, _0, _1, _0, _0)
    }

    /// The coefficients in the order `m11, m12, m21, m22, m31, m32`.
    pub fn to_array(&self) -> (r: [T; 6])
        ensures
            r@ == seq![self.m11, self.m12, self.m21, self.m22, self.m31, self.m32],
    {
        [self.m11, self.m12, self.m21, self.m22, self.m31, self.m32]
    }

    /// Where the transform takes `point`:
    /// `(x * m11 + y * m21 + m31, x * m12 + y * m22 + m32)`.
    pub fn transform_point(&self, point: &Point2D<T>) -> (r: Point2D<T>)
        requires
            self.transform_req(*point),
        ensures
            r == self.transform_spec(*point),
    {
        Point2D::new(
            affine2(point.x, self.m11, point.y, self.m21, self.m31),
            affine2(point.x, self.m12, point.y, self.m22, self.m32),
        )
    }
}

/// Composing with the identity changes nothing, on either side, for every
/// integral payload: both compositions are defined whatever the coefficients
/// of `m` are, and both are `m`.
pub proof fn lemma_identity_is_neutral<T: Integral>(m: Matrix2D<T>)
    ensures
        Matrix2D::<T>::identity_spec().mul_req(m),
        Matrix2D::<T>::identity_spec().mul_spec(m) == m,
        m.mul_req(Matrix2D::<T>::identity_spec()),
        m.mul_spec(Matrix2D::<T>::identity_spec()) == m,
{
    T::lemma_integral();
    lemma_zero_value::<T>();
    lemma_one_value::<T>();
    let i = Matrix2D::<T>::identity_spec();
    lemma_dot2_selects(m.m11, m.m12, i.m11, i.m21, 1);
    lemma_dot2_selects(m.m11, m.m12, i.m12, i.m22, 2);
    lemma_dot2_selects(m.m21, m.m22, i.m11, i.m21, 1);
    lemma_dot2_selects(m.m21, m.m22, i.m12, i.m22, 2);
    lemma_dot2_selects(m.m31, m.m32, i.m11, i.m21, 1);
    lemma_dot2_selects(m.m31, m.m32, i.m12, i.m22, 2);
    lemma_affine2_integral(m.m31, i.m11, m.m32, i.m21, i.m31);
    lemma_affine2_integral(m.m31, i.m12, m.m32, i.m22, i.m32);
    lemma_dot2_selects(m.m11, m.m21, i.m11, i.m12, 1);
    lemma_dot2_selects(m.m12, m.m22, i.m11, i.m12, 1);
    lemma_dot2_selects(m.m11, m.m21, i.m21, i.m22, 2);
    lemma_dot2_selects(m.m12, m.m22, i.m21, i.m22, 2);
    lemma_mul_by_unit(m.m11.value(), 0);
    lemma_mul_by_unit(m.m12.value(), 0);
    lemma_mul_by_unit(m.m21.value(), 0);
    lemma_mul_by_unit(m.m22.value(), 0);
    lemma_affine2_integral(i.m31, m.m11, i.m32, m.m21, m.m31);
    lemma_affine2_integral(i.m31, m.m12, i.m32, m.m22, m.m32);
}

/// The order of composition: `a.mul(&b)` applies `b` first. For every
/// integral payload, transforming a point by the composition gives what
/// transforming it by `b` and then by `a` gives, where all of these are
/// defined.
pub proof fn lemma_mul_applies_argument_first<T: Integral>(
    a: Matrix2D<T>,
    b: Matrix2D<T>,
    p: Point2D<T>,
)
    requires
        a.mul_req(b),
        a.mul_spec(b).transform_req(p),
        b.transform_req(p),
        a.transform_req(b.transform_spec(p)),
    ensures
        a.mul_spec(b).transform_spec(p) == a.transform_spec(b.transform_spec(p)),
{
    T::lemma_integral();
    let c = a.mul_spec(b);
    let q = b.transform_spec(p);
    lemma_dot2_integral(b.m11, a.m11, b.m12, a.m21);
    lemma_dot2_integral(b.m11, a.m12, b.m12, a.m22);
    lemma_dot2_integral(b.m21, a.m11, b.m22, a.m21);
    lemma_dot2_integral(b.m21, a.m12, b.m22, a.m22);
    lemma_affine2_integral(b.m31, a.m11, b.m32, a.m21, a.m31);
    lemma_affine2_integral(b.m31, a.m12, b.m32, a.m22, a.m32);
    lemma_affine2_integral(p.x, b.m11, p.y, b.m21, b.m31);
    lemma_affine2_integral(p.x, b.m12, p.y, b.m22, b.m32);
    lemma_affine2_integral(p.x, c.m11, p.y, c.m21, c.m31);
    lemma_affine2_integral(p.x, c.m12, p.y, c.m22, c.m32);
    lemma_affine2_integral(q.x, a.m11, q.y, a.m21, a.m31);
    lemma_affine2_integral(q.x, a.m12, q.y, a.m22, a.m32);
    let (x, y) = (p.x.value(), p.y.value());
    let (a11, a12, a21, a22, a31, a32) = (
        a.m11.value(),
        a.m12.value(),
        a.m21.value(),
        a.m22.value(),
        a.m31.value(),
        a.m32.value(),
    );
    let (b11, b12, b21, b22, b31, b32) = (
        b.m11.value(),
        b.m12.value(),
        b.m21.value(),
        b.m22.value(),
        b.m31.value(),
        b.m32.value(),
    );
    lemma_scale_dot2(x, b11, a11, b12, a21);
    lemma_scale_dot2(y, b21, a11, b22, a21);
    lemma_sum3_times(x * b11, y * b21, b31, a11);
    lemma_sum3_times(x * b12, y * b22, b32, a21);
    lemma_scale_dot2(x, b11, a12, b12, a22);
    lemma_scale_dot2(y, b21, a12, b22, a22);
    lemma_sum3_times(x * b11, y * b21, b31, a12);
    lemma_sum3_times(x * b12, y * b22, b32, a22);
}

} // verus!
