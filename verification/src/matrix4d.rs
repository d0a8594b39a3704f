//! Projective transforms of space.
//!
//! A `Matrix4D` holds sixteen coefficients, `m11` to `m44`, row by row. It
//! acts on a point written as a row that stands to the left of the matrix:
//! the point `(x, y, z, t)` goes to the row times the matrix, and a point of
//! the plane is taken as `(x, y, 0, 1)`. A translation therefore sits in the
//! last row, `m41`, `m42`, `m43`.
//!
//! Composition follows from that. `a.mul(&b)` is the matrix product with `b`
//! on the left and `a` on the right: the transform that applies `b` first and
//! `a` to what `b` gives.
use crate::approxeq::{
    abs_diff_req, approx_epsilon, approx_epsilon_req, approx_epsilon_spec, approx_eq_eps,
    approx_eq_eps_spec,
};
use crate::arith::{
    affine2, affine2_req, affine2_spec, dot4, dot4_req, dot4_spec, lemma_dot4_integral,
    lemma_dot4_selects, lemma_scale_dot4, lemma_sum4_times,
};
use crate::num::{lemma_one_value, lemma_zero_value, one, one_spec, zero, zero_spec, Integral};
use crate::point::{Point2D, Point4D};
use core::ops::{Add, Div, Mul, Neg, Sub};
use vstd::prelude::*;
use vstd::std_specs::cmp::PartialEqSpec;
use vstd::std_specs::ops::{AddSpec, DivSpec, MulSpec, NegSpec, SubSpec};

verus! {

/// The sixteen coefficients of a projective transform of space.
#[derive(Debug, Copy)]
pub struct Matrix4D<T> {
    pub m11: T, pub m12: T, pub m13: T, pub m14: T,
    pub m21: T, pub m22: T, pub m23: T, pub m24: T,
    pub m31: T, pub m32: T, pub m33: T, pub m34: T,
    pub m41: T, pub m42: T, pub m43: T, pub m44: T,
}

impl<T: Clone> Clone for Matrix4D<T> {
    fn clone(&self) -> (r: Matrix4D<T>)
        ensures
            cloned(self.m11, r.m11),
            cloned(self.m12, r.m12),
            cloned(self.m13, r.m13),
            cloned(self.m14, r.m14),
            cloned(self.m21, r.m21),
            cloned(self.m22, r.m22),
            cloned(self.m23, r.m23),
            cloned(self.m24, r.m24),
            cloned(self.m31, r.m31),
            cloned(self.m32, r.m32),
            cloned(self.m33, r.m33),
            cloned(self.m34, r.m34),
            cloned(self.m41, r.m41),
            cloned(self.m42, r.m42),
            cloned(self.m43, r.m43),
            cloned(self.m44, r.m44),
    {
        Matrix4D {
            m11: self.m11.clone(),
            m12: self.m12.clone(),
            m13: self.m13.clone(),
            m14: self.m14.clone(),
            m21: self.m21.clone(),
            m22: self.m22.clone(),
            m23: self.m23.clone(),
            m24: self.m24.clone(),
            m31: self.m31.clone(),
            m32: self.m32.clone(),
            m33: self.m33.clone(),
            m34: self.m34.clone(),
            m41: self.m41.clone(),
            m42: self.m42.clone(),
            m43: self.m43.clone(),
            m44: self.m44.clone(),
        }
    }
}

impl<T: PartialEq> PartialEq for Matrix4D<T> {
    /// Two matrices are equal where each coefficient of the one equals that
    /// of the other.
    fn eq(&self, other: &Matrix4D<T>) -> (r: bool)
        ensures
            T::obeys_eq_spec() ==> r == ({
                &&& self.m11.eq_spec(&other.m11)
                &&& self.m12.eq_spec(&other.m12)
                &&& self.m13.eq_spec(&other.m13)
                &&& self.m14.eq_spec(&other.m14)
                &&& self.m21.eq_spec(&other.m21)
                &&& self.m22.eq_spec(&other.m22)
                &&& self.m23.eq_spec(&other.m23)
                &&& self.m24.eq_spec(&other.m24)
                &&& self.m31.eq_spec(&other.m31)
                &&& self.m32.eq_spec(&other.m32)
                &&& self.m33.eq_spec(&other.m33)
                &&& self.m34.eq_spec(&other.m34)
                &&& self.m41.eq_spec(&other.m41)
                &&& self.m42.eq_spec(&other.m42)
                &&& self.m43.eq_spec(&other.m43)
                &&& self.m44.eq_spec(&other.m44)
            }),
    {
        self.m11 == other.m11
            && self.m12 == other.m12
            && self.m13 == other.m13
            && self.m14 == other.m14
            && self.m21 == other.m21
            && self.m22 == other.m22
            && self.m23 == other.m23
            && self.m24 == other.m24
            && self.m31 == other.m31
            && self.m32 == other.m32
            && self.m33 == other.m33
            && self.m34 == other.m34
            && self.m41 == other.m41
            && self.m42 == other.m42
            && self.m43 == other.m43
            && self.m44 == other.m44
    }
}

impl<T: PartialEq> vstd::std_specs::cmp::PartialEqSpecImpl for Matrix4D<T> {
    open spec fn obeys_eq_spec() -> bool {
        T::obeys_eq_spec()
    }

    open spec fn eq_spec(&self, other: &Matrix4D<T>) -> bool {
        &&& self.m11.eq_spec(&other.m11)
        &&& self.m12.eq_spec(&other.m12)
        &&& self.m13.eq_spec(&other.m13)
        &&& self.m14.eq_spec(&other.m14)
        &&& self.m21.eq_spec(&other.m21)
        &&& self.m22.eq_spec(&other.m22)
        &&& self.m23.eq_spec(&other.m23)
        &&& self.m24.eq_spec(&other.m24)
        &&& self.m31.eq_spec(&other.m31)
        &&& self.m32.eq_spec(&other.m32)
        &&& self.m33.eq_spec(&other.m33)
        &&& self.m34.eq_spec(&other.m34)
        &&& self.m41.eq_spec(&other.m41)
        &&& self.m42.eq_spec(&other.m42)
        &&& self.m43.eq_spec(&other.m43)
        &&& self.m44.eq_spec(&other.m44)
    }
}

/// The coefficient that scales one axis of an orthographic projection:
/// `numerator / (high - low)`.
pub open spec fn ortho_scale_spec<T: Sub<T, Output = T> + Div<T, Output = T>>(
    numerator: T,
    high: T,
    low: T,
) -> T {
    numerator.div_spec(high.sub_spec(low))
}

/// Every operation of `numerator / (high - low)` is defined.
pub open spec fn ortho_scale_req<T: Sub<T, Output = T> + Div<T, Output = T>>(
    numerator: T,
    high: T,
    low: T,
) -> bool {
    &&& T::obeys_sub_spec()
    &&& T::obeys_div_spec()
    &&& high.sub_req(low)
    &&& numerator.div_req(high.sub_spec(low))
}

/// The coefficient that centres one axis of an orthographic projection:
/// `-((high + low) / (high - low))`.
pub open spec fn ortho_offset_spec<
    T: Add<T, Output = T> + Sub<T, Output = T> + Div<T, Output = T> + Neg<Output = T>,
>(
    low: T,
    high: T,
) -> T {
    high.add_spec(low).div_spec(high.sub_spec(low)).neg_spec()
}

/// Every operation of `-((high + low) / (high - low))` is defined.
pub open spec fn ortho_offset_req<
    T: Add<T, Output = T> + Sub<T, Output = T> + Div<T, Output = T> + Neg<Output = T>,
>(
    low: T,
    high: T,
) -> bool {
    &&& T::obeys_add_spec()
    &&& T::obeys_sub_spec()
    &&& T::obeys_div_spec()
    &&& T::obeys_neg_spec()
    &&& high.add_req(low)
    &&& high.sub_req(low)
    &&& high.add_spec(low).div_req(high.sub_spec(low))
    &&& high.add_spec(low).div_spec(high.sub_spec(low)).neg_req()
}

/// Computes `numerator / (high - low)`.
fn ortho_scale<T: Copy + Sub<T, Output = T> + Div<T, Output = T>>(
    numerator: T,
    high: T,
    low: T,
) -> (r: T)
    requires
        ortho_scale_req(numerator, high, low),
    ensures
        r == ortho_scale_spec(numerator, high, low),
{
    numerator / (high - low)
}

/// Computes `-((high + low) / (high - low))`.
fn ortho_offset<
    T: Copy + Add<T, Output = T> + Sub<T, Output = T> + Div<T, Output = T> + Neg<Output = T>,
>(
    low: T,
    high: T,
) -> (r: T)
    requires
        ortho_offset_req(low, high),
    ensures
        r == ortho_offset_spec(low, high),
{
    ((high + low) / (high - low)).neg()
}

impl<T: Add<T, Output = T> + Mul<T, Output = T>> Matrix4D<T> {
    /// The transform that changes nothing.
    pub open spec fn identity_spec() -> Matrix4D<T> {
        Matrix4D {
            m11: one_spec::<T>(),
            m12: zero_spec::<T>(),
            m13: zero_spec::<T>(),
            m14: zero_spec::<T>(),
            m21: zero_spec::<T>(),
            m22: one_spec::<T>(),
            m23: zero_spec::<T>(),
            m24: zero_spec::<T>(),
            m31: zero_spec::<T>(),
            m32: zero_spec::<T>(),
            m33: one_spec::<T>(),
            m34: zero_spec::<T>(),
            m41: zero_spec::<T>(),
            m42: zero_spec::<T>(),
            m43: zero_spec::<T>(),
            m44: one_spec::<T>(),
        }
    }

    /// The transform that moves every point by `(x, y, z)`.
    pub open spec fn translation_spec(x: T, y: T, z: T) -> Matrix4D<T> {
        Matrix4D {
            m11: one_spec::<T>(),
            m12: zero_spec::<T>(),
            m13: zero_spec::<T>(),
            m14: zero_spec::<T>(),
            m21: zero_spec::<T>(),
            m22: one_spec::<T>(),
            m23: zero_spec::<T>(),
            m24: zero_spec::<T>(),
            m31: zero_spec::<T>(),
            m32: zero_spec::<T>(),
            m33: one_spec::<T>(),
            m34: zero_spec::<T>(),
            m41: x,
            m42: y,
            m43: z,
            m44: one_spec::<T>(),
        }
    }

    /// The transform that applies `m` first and `self` to what `m` gives.
    pub open spec fn mul_spec(self, m: Matrix4D<T>) -> Matrix4D<T> {
        Matrix4D {
            m11: dot4_spec(m.m11, self.m11, m.m12, self.m21, m.m13, self.m31, m.m14, self.m41),
            m12: dot4_spec(m.m11, self.m12, m.m12, self.m22, m.m13, self.m32, m.m14, self.m42),
            m13: dot4_spec(m.m11, self.m13, m.m12, self.m23, m.m13, self.m33, m.m14, self.m43),
            m14: dot4_spec(m.m11, self.m14, m.m12, self.m24, m.m13, self.m34, m.m14, self.m44),
            m21: dot4_spec(m.m21, self.m11, m.m22, self.m21, m.m23, self.m31, m.m24, self.m41),
            m22: dot4_spec(m.m21, self.m12, m.m22, self.m22, m.m23, self.m32, m.m24, self.m42),
            m23: dot4_spec(m.m21, self.m13, m.m22, self.m23, m.m23, self.m33, m.m24, self.m43),
            m24: dot4_spec(m.m21, self.m14, m.m22, self.m24, m.m23, self.m34, m.m24, self.m44),
            m31: dot4_spec(m.m31, self.m11, m.m32, self.m21, m.m33, self.m31, m.m34, self.m41),
            m32: dot4_spec(m.m31, self.m12, m.m32, self.m22, m.m33, self.m32, m.m34, self.m42),
            m33: dot4_spec(m.m31, self.m13, m.m32, self.m23, m.m33, self.m33, m.m34, self.m43),
            m34: dot4_spec(m.m31, self.m14, m.m32, self.m24, m.m33, self.m34, m.m34, self.m44),
            m41: dot4_spec(m.m41, self.m11, m.m42, self.m21, m.m43, self.m31, m.m44, self.m41),
            m42: dot4_spec(m.m41, self.m12, m.m42, self.m22, m.m43, self.m32, m.m44, self.m42),
            m43: dot4_spec(m.m41, self.m13, m.m42, self.m23, m.m43, self.m33, m.m44, self.m43),
            m44: dot4_spec(m.m41, self.m14, m.m42, self.m24, m.m43, self.m34, m.m44, self.m44),
        }
    }

    /// Every operation of the composition of `self` and `m` is defined.
    pub open spec fn mul_req(self, m: Matrix4D<T>) -> bool {
        &&& dot4_req(m.m11, self.m11, m.m12, self.m21, m.m13, self.m31, m.m14, self.m41)
        &&& dot4_req(m.m11, self.m12, m.m12, self.m22, m.m13, self.m32, m.m14, self.m42)
        &&& dot4_req(m.m11, self.m13, m.m12, self.m23, m.m13, self.m33, m.m14, self.m43)
        &&& dot4_req(m.m11, self.m14, m.m12, self.m24, m.m13, self.m34, m.m14, self.m44)
        &&& dot4_req(m.m21, self.m11, m.m22, self.m21, m.m23, self.m31, m.m24, self.m41)
        &&& dot4_req(m.m21, self.m12, m.m22, self.m22, m.m23, self.m32, m.m24, self.m42)
        &&& dot4_req(m.m21, self.m13, m.m22, self.m23, m.m23, self.m33, m.m24, self.m43)
        &&& dot4_req(m.m21, self.m14, m.m22, self.m24, m.m23, self.m34, m.m24, self.m44)
        &&& dot4_req(m.m31, self.m11, m.m32, self.m21, m.m33, self.m31, m.m34, self.m41)
        &&& dot4_req(m.m31, self.m12, m.m32, self.m22, m.m33, self.m32, m.m34, self.m42)
        &&& dot4_req(m.m31, self.m13, m.m32, self.m23, m.m33, self.m33, m.m34, self.m43)
        &&& dot4_req(m.m31, self.m14, m.m32, self.m24, m.m33, self.m34, m.m34, self.m44)
        &&& dot4_req(m.m41, self.m11, m.m42, self.m21, m.m43, self.m31, m.m44, self.m41)
        &&& dot4_req(m.m41, self.m12, m.m42, self.m22, m.m43, self.m32, m.m44, self.m42)
        &&& dot4_req(m.m41, self.m13, m.m42, self.m23, m.m43, self.m33, m.m44, self.m43)
        &&& dot4_req(m.m41, self.m14, m.m42, self.m24, m.m43, self.m34, m.m44, self.m44)
    }

    /// Where `self` takes the point `p` of the plane.
    pub open spec fn transform2d_spec(self, p: Point2D<T>) -> Point2D<T> {
        Point2D {
            x: affine2_spec(p.x, self.m11, p.y, self.m21, self.m41),
            y: affine2_spec(p.x, self.m12, p.y, self.m22, self.m42),
        }
    }

    /// Every operation of transforming the point `p` of the plane by `self`
    /// is defined.
    pub open spec fn transform2d_req(self, p: Point2D<T>) -> bool {
        &&& affine2_req(p.x, self.m11, p.y, self.m21, self.m41)
        &&& affine2_req(p.x, self.m12, p.y, self.m22, self.m42)
    }

    /// Where `self` takes the point `p`.
    pub open spec fn transform4d_spec(self, p: Point4D<T>) -> Point4D<T> {
        Point4D {
            x: dot4_spec(p.x, self.m11, p.y, self.m21, p.z, self.m31, p.t, self.m41),
            y: dot4_spec(p.x, self.m12, p.y, self.m22, p.z, self.m32, p.t, self.m42),
            z: dot4_spec(p.x, self.m13, p.y, self.m23, p.z, self.m33, p.t, self.m43),
            t: dot4_spec(p.x, self.m14, p.y, self.m24, p.z, self.m34, p.t, self.m44),
        }
    }

    /// Every operation of transforming the point `p` by `self` is defined.
    pub open spec fn transform4d_req(self, p: Point4D<T>) -> bool {
        &&& dot4_req(p.x, self.m11, p.y, self.m21, p.z, self.m31, p.t, self.m41)
        &&& dot4_req(p.x, self.m12, p.y, self.m22, p.z, self.m32, p.t, self.m42)
        &&& dot4_req(p.x, self.m13, p.y, self.m23, p.z, self.m33, p.t, self.m43)
        &&& dot4_req(p.x, self.m14, p.y, self.m24, p.z, self.m34, p.t, self.m44)
    }
}

impl<
    T: Add<T, Output = T> + Sub<T, Output = T> + Mul<T, Output = T> + Div<T, Output = T>
        + Neg<Output = T>,
> Matrix4D<T> {
    /// The orthographic projection of the box between the six planes onto
    /// the cube from -1 to 1. Each axis is scaled by two over its extent (the
    /// depth by minus two, as the view is along the negative third axis), and
    /// the last row moves the middle of the box to the origin: `left` goes to
    /// -1 and `right` to 1, `bottom` to -1 and `top` to 1, the depth `-near`
    /// to -1 and `-far` to 1.
    pub open spec fn ortho_spec(left: T, right: T, bottom: T, top: T, near: T, far: T) -> Matrix4D<
        T,
    > {
        let zero = zero_spec::<T>();
        let one = one_spec::<T>();
        let two = one.add_spec(one);
        Matrix4D {
            m11: ortho_scale_spec(two, right, left),
            m12: zero,
            m13: zero,
            m14: zero,
            m21: zero,
            m22: ortho_scale_spec(two, top, bottom),
            m23: zero,
            m24: zero,
            m31: zero,
            m32: zero,
            m33: ortho_scale_spec(two.neg_spec(), far, near),
            m34: zero,
            m41: ortho_offset_spec(left, right),
            m42: ortho_offset_spec(bottom, top),
            m43: ortho_offset_spec(near, far),
            m44: one,
        }
    }

    /// Every operation of the orthographic projection is defined. For a
    /// payload that cannot divide by zero, no two opposite planes coincide.
    pub open spec fn ortho_req(left: T, right: T, bottom: T, top: T, near: T, far: T) -> bool {
        let one = one_spec::<T>();
        let two = one.add_spec(one);
        &&& T::obeys_add_spec()
        &&& T::obeys_mul_spec()
        &&& T::obeys_neg_spec()
        &&& one.add_req(one)
        &&& two.neg_req()
        &&& ortho_offset_req(left, right)
        &&& ortho_offset_req(bottom, top)
        &&& ortho_offset_req(near, far)
        &&& ortho_scale_req(two, right, left)
        &&& ortho_scale_req(two, top, bottom)
        &&& ortho_scale_req(two.neg_spec(), far, near)
    }
}

impl<T> Matrix4D<T> {
    /// The matrix of the given coefficients, row by row.
    pub fn new(
        m11: T, m12: T, m13: T, m14: T,
        m21: T, m22: T, m23: T, m24: T,
        m31: T, m32: T, m33: T, m34: T,
        m41: T, m42: T, m43: T, m44: T,
    ) -> (r: Matrix4D<T>)
        ensures
            r == (Matrix4D {
                m11, m12, m13, m14,
                m21, m22, m23, m24,
                m31, m32, m33, m34,
                m41, m42, m43, m44,
            }),
    {
        Matrix4D {
            m11: m11, m12: m12, m13: m13, m14: m14,
            m21: m21, m22: m22, m23: m23, m24: m24,
            m31: m31, m32: m32, m33: m33, m34: m34,
            m41: m41, m42: m42, m43: m43, m44: m44,
        }
    }
}

impl<
    T: Copy + Add<T, Output = T> + Sub<T, Output = T> + Mul<T, Output = T> + Div<T, Output = T>
        + Neg<Output = T> + ::num::Zero + ::num::One,
> Matrix4D<T> {
    /// The orthographic projection of the box between the six planes.
    ///
    /// The planes are not tested: where two opposite planes coincide the
    /// projection divides by zero, which a caller has to avoid.
    pub fn ortho(left: T, right: T, bottom: T, top: T, near: T, far: T) -> (r: Matrix4D<T>)
        requires
            Matrix4D::ortho_req(left, right, bottom, top, near, far),
        ensures
            r == Matrix4D::ortho_spec(left, right, bottom, top, near, far),
    {
        let (_0, _1): (T, T) = (zero(), one());
        let _2 = _1 + _1;
        let tx = ortho_offset(left, right);
        let ty = ortho_offset(bottom, top);
        let tz = ortho_offset(near, far);
        Matrix4D::new(
            ortho_scale(_2, right, left), _0, _0, _0,
            _0, ortho_scale(_2, top, bottom), _0, _0,
            _0, _0, ortho_scale(_2.neg(), far, near), _0,
            tx, ty, tz, _1,
        )
    }
}

impl<T: Copy + Add<T, Output = T> + Mul<T, Output = T> + ::num::Zero + ::num::One> Matrix4D<T> {
    /// The transform that changes nothing.
    pub fn indentity() -> (r: Matrix4D<T>)
        ensures
            T::obeys_add_spec() && T::obeys_mul_spec() ==> r == Matrix4D::<T>::identity_spec(),
    {
        let (_0, _1): (T, T) = (zero(), one());
        Matrix4D::new(
            _1, _0, _0, _0,
            _0, _1, _0, _0,
            _0, _0, _1, _0,
            _0, _0, _0, _1,
        )
    }

    /// The transform that moves a point by `(x, y, z)` first and then applies
    /// `self`.
    pub fn translate(&self, x: T, y: T, z: T) -> (r: Matrix4D<T>)
        requires
            self.mul_req(Matrix4D::translation_spec(x, y, z)),
        ensures
            r == self.mul_spec(Matrix4D::translation_spec(x, y, z)),
    {
        let (_0, _1): (T, T) = (zero(), one());
        let matrix = Matrix4D::new(
            _1, _0, _0, _0,
            _0, _1, _0, _0,
            _0, _0, _1, _0,
            x, y, z, _1,
        );
        self.mul(&matrix)
    }
}

impl<T: Copy + Add<T, Output = T> + Mul<T, Output = T>> Matrix4D<T> {
    /// The composition of two transforms: the one that applies `m` first and
    /// `self` to what `m` gives.
    pub fn mul(&self, m: &Matrix4D<T>) -> (r: Matrix4D<T>)
        requires
            self.mul_req(*m),
        ensures
            r == self.mul_spec(*m),
    {
        Matrix4D::new(
            dot4(m.m11, self.m11, m.m12, self.m21, m.m13, self.m31, m.m14, self.m41),
            dot4(m.m11, self.m12, m.m12, self.m22, m.m13, self.m32, m.m14, self.m42),
            dot4(m.m11, self.m13, m.m12, self.m23, m.m13, self.m33, m.m14, self.m43),
            dot4(m.m11, self.m14, m.m12, self.m24, m.m13, self.m34, m.m14, self.m44),
            dot4(m.m21, self.m11, m.m22, self.m21, m.m23, self.m31, m.m24, self.m41),
            dot4(m.m21, self.m12, m.m22, self.m22, m.m23, self.m32, m.m24, self.m42),
            dot4(m.m21, self.m13, m.m22, self.m23, m.m23, self.m33, m.m24, self.m43),
            dot4(m.m21, self.m14, m.m22, self.m24, m.m23, self.m34, m.m24, self.m44),
            dot4(m.m31, self.m11, m.m32, self.m21, m.m33, self.m31, m.m34, self.m41),
            dot4(m.m31, self.m12, m.m32, self.m22, m.m33, self.m32, m.m34, self.m42),
            dot4(m.m31, self.m13, m.m32, self.m23, m.m33, self.m33, m.m34, self.m43),
            dot4(m.m31, self.m14, m.m32, self.m24, m.m33, self.m34, m.m34, self.m44),
            dot4(m.m41, self.m11, m.m42, self.m21, m.m43, self.m31, m.m44, self.m41),
            dot4(m.m41, self.m12, m.m42, self.m22, m.m43, self.m32, m.m44, self.m42),
            dot4(m.m41, self.m13, m.m42, self.m23, m.m43, self.m33, m.m44, self.m43),
            dot4(m.m41, self.m14, m.m42, self.m24, m.m43, self.m34, m.m44, self.m44),
        )
    }

    /// Where the transform takes a point of the plane:
    /// `(x * m11 + y * m21 + m41, x * m12 + y * m22 + m42)`.
    pub fn transform_point2d(&self, point: &Point2D<T>) -> (r: Point2D<T>)
        requires
            self.transform2d_req(*point),
        ensures
            r == self.transform2d_spec(*point),
    {
        Point2D::new(
            affine2(point.x, self.m11, point.y, self.m21, self.m41),
            affine2(point.x, self.m12, point.y, self.m22, self.m42),
        )
    }

    /// Where the transform takes a point: the row `(x, y, z, t)` times the
    /// matrix, so that the first coordinate is
    /// `x * m11 + y * m21 + z * m31 + t * m41`.
    pub fn transform_point4d(&self, point: &Point4D<T>) -> (r: Point4D<T>)
        requires
            self.transform4d_req(*point),
        ensures
            r == self.transform4d_spec(*point),
    {
        let x = dot4(point.x, self.m11, point.y, self.m21, point.z, self.m31, point.t, self.m41);
        let y = dot4(point.x, self.m12, point.y, self.m22, point.z, self.m32, point.t, self.m42);
        let z = dot4(point.x, self.m13, point.y, self.m23, point.z, self.m33, point.t, self.m43);
        let t = dot4(point.x, self.m14, point.y, self.m24, point.z, self.m34, point.t, self.m44);
        Point4D::new(x, y, z, t)
    }
}

impl<T: Copy + Mul<T, Output = T>> Matrix4D<T> {
    /// Every coefficient times `x`.
    pub fn spread(&self, x: T) -> (r: Matrix4D<T>)
        requires
            self.m11.mul_req(x), self.m12.mul_req(x), self.m13.mul_req(x), self.m14.mul_req(x),
            self.m21.mul_req(x), self.m22.mul_req(x), self.m23.mul_req(x), self.m24.mul_req(x),
            self.m31.mul_req(x), self.m32.mul_req(x), self.m33.mul_req(x), self.m34.mul_req(x),
            self.m41.mul_req(x), self.m42.mul_req(x), self.m43.mul_req(x), self.m44.mul_req(x),
        ensures
            T::obeys_mul_spec() ==> r == (Matrix4D {
                m11: self.m11.mul_spec(x),
                m12: self.m12.mul_spec(x),
                m13: self.m13.mul_spec(x),
                m14: self.m14.mul_spec(x),
                m21: self.m21.mul_spec(x),
                m22: self.m22.mul_spec(x),
                m23: self.m23.mul_spec(x),
                m24: self.m24.mul_spec(x),
                m31: self.m31.mul_spec(x),
                m32: self.m32.mul_spec(x),
                m33: self.m33.mul_spec(x),
                m34: self.m34.mul_spec(x),
                m41: self.m41.mul_spec(x),
                m42: self.m42.mul_spec(x),
                m43: self.m43.mul_spec(x),
                m44: self.m44.mul_spec(x),
            }),
    {
        Matrix4D::new(
            self.m11 * x, self.m12 * x, self.m13 * x, self.m14 * x,
            self.m21 * x, self.m22 * x, self.m23 * x, self.m24 * x,
            self.m31 * x, self.m32 * x, self.m33 * x, self.m34 * x,
            self.m41 * x, self.m42 * x, self.m43 * x, self.m44 * x,
        )
    }

    /// The first three coefficients of the diagonal times `x`, `y` and `z`;
    /// every other coefficient stays, the translation and the last column
    /// among them.
    pub fn scale(&self, x: T, y: T, z: T) -> (r: Matrix4D<T>)
        requires
            self.m11.mul_req(x),
            self.m22.mul_req(y),
            self.m33.mul_req(z),
        ensures
            T::obeys_mul_spec() ==> r == (Matrix4D {
                m11: self.m11.mul_spec(x),
                m12: self.m12,
                m13: self.m13,
                m14: self.m14,
                m21: self.m21,
                m22: self.m22.mul_spec(y),
                m23: self.m23,
                m24: self.m24,
                m31: self.m31,
                m32: self.m32,
                m33: self.m33.mul_spec(z),
                m34: self.m34,
                m41: self.m41,
                m42: self.m42,
                m43: self.m43,
                m44: self.m44,
            }),
    {
        Matrix4D::new(
            self.m11 * x, self.m12, self.m13, self.m14,
            self.m21, self.m22 * y, self.m23, self.m24,
            self.m31, self.m32, self.m33 * z, self.m34,
            self.m41, self.m42, self.m43, self.m44,
        )
    }
}

impl<T: Copy> Matrix4D<T> {
    /// The coefficients row by row: `m11, m12, m13, m14, m21, ...` up to
    /// `m44`.
    pub fn to_array(&self) -> (r: [T; 16])
        ensures
            r@ == seq![
                self.m11, self.m12, self.m13, self.m14,
                self.m21, self.m22, self.m23, self.m24,
                self.m31, self.m32, self.m33, self.m34,
                self.m41, self.m42, self.m43, self.m44,
            ],
    {
        [
            self.m11, self.m12, self.m13, self.m14,
            self.m21, self.m22, self.m23, self.m24,
            self.m31, self.m32, self.m33, self.m34,
            self.m41, self.m42, self.m43, self.m44,
        ]
    }
}

impl<
    T: PartialOrd + Add<T, Output = T> + Sub<T, Output = T> + Mul<T, Output = T>
        + Div<T, Output = T>,
> Matrix4D<T> {
    /// Every coefficient of `self` is less than `epsilon` apart from that of
    /// `other`.
    pub open spec fn approx_eq_eps_spec(self, other: Matrix4D<T>, epsilon: T) -> bool {
        &&& approx_eq_eps_spec(self.m11, other.m11, epsilon)
        &&& approx_eq_eps_spec(self.m12, other.m12, epsilon)
        &&& approx_eq_eps_spec(self.m13, other.m13, epsilon)
        &&& approx_eq_eps_spec(self.m14, other.m14, epsilon)
        &&& approx_eq_eps_spec(self.m21, other.m21, epsilon)
        &&& approx_eq_eps_spec(self.m22, other.m22, epsilon)
        &&& approx_eq_eps_spec(self.m23, other.m23, epsilon)
        &&& approx_eq_eps_spec(self.m24, other.m24, epsilon)
        &&& approx_eq_eps_spec(self.m31, other.m31, epsilon)
        &&& approx_eq_eps_spec(self.m32, other.m32, epsilon)
        &&& approx_eq_eps_spec(self.m33, other.m33, epsilon)
        &&& approx_eq_eps_spec(self.m34, other.m34, epsilon)
        &&& approx_eq_eps_spec(self.m41, other.m41, epsilon)
        &&& approx_eq_eps_spec(self.m42, other.m42, epsilon)
        &&& approx_eq_eps_spec(self.m43, other.m43, epsilon)
        &&& approx_eq_eps_spec(self.m44, other.m44, epsilon)
    }

    /// The distance between each coefficient of `self` and that of `other`
    /// can be computed.
    pub open spec fn approx_eq_req(self, other: Matrix4D<T>) -> bool {
        &&& abs_diff_req(self.m11, other.m11)
        &&& abs_diff_req(self.m12, other.m12)
        &&& abs_diff_req(self.m13, other.m13)
        &&& abs_diff_req(self.m14, other.m14)
        &&& abs_diff_req(self.m21, other.m21)
        &&& abs_diff_req(self.m22, other.m22)
        &&& abs_diff_req(self.m23, other.m23)
        &&& abs_diff_req(self.m24, other.m24)
        &&& abs_diff_req(self.m31, other.m31)
        &&& abs_diff_req(self.m32, other.m32)
        &&& abs_diff_req(self.m33, other.m33)
        &&& abs_diff_req(self.m34, other.m34)
        &&& abs_diff_req(self.m41, other.m41)
        &&& abs_diff_req(self.m42, other.m42)
        &&& abs_diff_req(self.m43, other.m43)
        &&& abs_diff_req(self.m44, other.m44)
    }
}

impl<
    T: Copy + PartialOrd + Add<T, Output = T> + Sub<T, Output = T> + Mul<T, Output = T>
        + Div<T, Output = T> + ::num::One,
> Matrix4D<T> {
    /// Whether every coefficient of `self` is approximately equal to that of
    /// `other`: less than the default bound, one millionth, apart.
    pub fn approx_eq(&self, other: &Matrix4D<T>) -> (r: bool)
        requires
            approx_epsilon_req::<T>(),
            self.approx_eq_req(*other),
        ensures
            r == self.approx_eq_eps_spec(*other, approx_epsilon_spec::<T>()),
    {
        let epsilon: T = approx_epsilon();
        approx_eq_eps(&self.m11, &other.m11, &epsilon)
            && approx_eq_eps(&self.m12, &other.m12, &epsilon)
            && approx_eq_eps(&self.m13, &other.m13, &epsilon)
            && approx_eq_eps(&self.m14, &other.m14, &epsilon)
            && approx_eq_eps(&self.m21, &other.m21, &epsilon)
            && approx_eq_eps(&self.m22, &other.m22, &epsilon)
            && approx_eq_eps(&self.m23, &other.m23, &epsilon)
            && approx_eq_eps(&self.m24, &other.m24, &epsilon)
            && approx_eq_eps(&self.m31, &other.m31, &epsilon)
            && approx_eq_eps(&self.m32, &other.m32, &epsilon)
            && approx_eq_eps(&self.m33, &other.m33, &epsilon)
            && approx_eq_eps(&self.m34, &other.m34, &epsilon)
            && approx_eq_eps(&self.m41, &other.m41, &epsilon)
            && approx_eq_eps(&self.m42, &other.m42, &epsilon)
            && approx_eq_eps(&self.m43, &other.m43, &epsilon)
            && approx_eq_eps(&self.m44, &other.m44, &epsilon)
    }
}

/// Composing with the identity changes nothing, on either side, for every
/// integral payload: both compositions are defined whatever the coefficients
/// of `m` are, and both are `m`.
pub proof fn lemma_identity_is_neutral<T: Integral>(m: Matrix4D<T>)
    ensures
        Matrix4D::<T>::identity_spec().mul_req(m),
        Matrix4D::<T>::identity_spec().mul_spec(m) == m,
        m.mul_req(Matrix4D::<T>::identity_spec()),
        m.mul_spec(Matrix4D::<T>::identity_spec()) == m,
{
    T::lemma_integral();
    lemma_zero_value::<T>();
    lemma_one_value::<T>();
    let i = Matrix4D::<T>::identity_spec();
    lemma_dot4_selects(m.m11, m.m12, m.m13, m.m14, i.m11, i.m21, i.m31, i.m41, 1);
    lemma_dot4_selects(m.m11, m.m12, m.m13, m.m14, i.m12, i.m22, i.m32, i.m42, 2);
    lemma_dot4_selects(m.m11, m.m12, m.m13, m.m14, i.m13, i.m23, i.m33, i.m43, 3);
    lemma_dot4_selects(m.m11, m.m12, m.m13, m.m14, i.m14, i.m24, i.m34, i.m44, 4);
    lemma_dot4_selects(m.m21, m.m22, m.m23, m.m24, i.m11, i.m21, i.m31, i.m41, 1);
    lemma_dot4_selects(m.m21, m.m22, m.m23, m.m24, i.m12, i.m22, i.m32, i.m42, 2);
    lemma_dot4_selects(m.m21, m.m22, m.m23, m.m24, i.m13, i.m23, i.m33, i.m43, 3);
    lemma_dot4_selects(m.m21, m.m22, m.m23, m.m24, i.m14, i.m24, i.m34, i.m44, 4);
    lemma_dot4_selects(m.m31, m.m32, m.m33, m.m34, i.m11, i.m21, i.m31, i.m41, 1);
    lemma_dot4_selects(m.m31, m.m32, m.m33, m.m34, i.m12, i.m22, i.m32, i.m42, 2);
    lemma_dot4_selects(m.m31, m.m32, m.m33, m.m34, i.m13, i.m23, i.m33, i.m43, 3);
    lemma_dot4_selects(m.m31, m.m32, m.m33, m.m34, i.m14, i.m24, i.m34, i.m44, 4);
    lemma_dot4_selects(m.m41, m.m42, m.m43, m.m44, i.m11, i.m21, i.m31, i.m41, 1);
    lemma_dot4_selects(m.m41, m.m42, m.m43, m.m44, i.m12, i.m22, i.m32, i.m42, 2);
    lemma_dot4_selects(m.m41, m.m42, m.m43, m.m44, i.m13, i.m23, i.m33, i.m43, 3);
    lemma_dot4_selects(m.m41, m.m42, m.m43, m.m44, i.m14, i.m24, i.m34, i.m44, 4);
    lemma_dot4_selects(m.m11, m.m21, m.m31, m.m41, i.m11, i.m12, i.m13, i.m14, 1);
    lemma_dot4_selects(m.m12, m.m22, m.m32, m.m42, i.m11, i.m12, i.m13, i.m14, 1);
    lemma_dot4_selects(m.m13, m.m23, m.m33, m.m43, i.m11, i.m12, i.m13, i.m14, 1);
    lemma_dot4_selects(m.m14, m.m24, m.m34, m.m44, i.m11, i.m12, i.m13, i.m14, 1);
    lemma_dot4_selects(m.m11, m.m21, m.m31, m.m41, i.m21, i.m22, i.m23, i.m24, 2);
    lemma_dot4_selects(m.m12, m.m22, m.m32, m.m42, i.m21, i.m22, i.m23, i.m24, 2);
    lemma_dot4_selects(m.m13, m.m23, m.m33, m.m43, i.m21, i.m22, i.m23, i.m24, 2);
    lemma_dot4_selects(m.m14, m.m24, m.m34, m.m44, i.m21, i.m22, i.m23, i.m24, 2);
    lemma_dot4_selects(m.m11, m.m21, m.m31, m.m41, i.m31, i.m32, i.m33, i.m34, 3);
    lemma_dot4_selects(m.m12, m.m22, m.m32, m.m42, i.m31, i.m32, i.m33, i.m34, 3);
    lemma_dot4_selects(m.m13, m.m23, m.m33, m.m43, i.m31, i.m32, i.m33, i.m34, 3);
    lemma_dot4_selects(m.m14, m.m24, m.m34, m.m44, i.m31, i.m32, i.m33, i.m34, 3);
    lemma_dot4_selects(m.m11, m.m21, m.m31, m.m41, i.m41, i.m42, i.m43, i.m44, 4);
    lemma_dot4_selects(m.m12, m.m22, m.m32, m.m42, i.m41, i.m42, i.m43, i.m44, 4);
    lemma_dot4_selects(m.m13, m.m23, m.m33, m.m43, i.m41, i.m42, i.m43, i.m44, 4);
    lemma_dot4_selects(m.m14, m.m24, m.m34, m.m44, i.m41, i.m42, i.m43, i.m44, 4);
}

/// The order of composition: `a.mul(&b)` applies `b` first. For every
/// integral payload, transforming a point by the composition gives what
/// transforming it by `b` and then by `a` gives, where all of these are
/// defined.

pub proof fn lemma_mul_applies_argument_first<T: Integral>(
    a: Matrix4D<T>,
    b: Matrix4D<T>,
    p: Point4D<T>,
)
    requires
        a.mul_req(b),
        a.mul_spec(b).transform4d_req(p),
        b.transform4d_req(p),
        a.transform4d_req(b.transform4d_spec(p)),
    ensures
        a.mul_spec(b).transform4d_spec(p) == a.transform4d_spec(b.transform4d_spec(p)),
{
    T::lemma_integral();
    let c = a.mul_spec(b);
    let q = b.transform4d_spec(p);
    lemma_dot4_integral(b.m11, a.m11, b.m12, a.m21, b.m13, a.m31, b.m14, a.m41);
    lemma_dot4_integral(b.m11, a.m12, b.m12, a.m22, b.m13, a.m32, b.m14, a.m42);
    lemma_dot4_integral(b.m11, a.m13, b.m12, a.m23, b.m13, a.m33, b.m14, a.m43);
    lemma_dot4_integral(b.m11, a.m14, b.m12, a.m24, b.m13, a.m34, b.m14, a.m44);
    lemma_dot4_integral(b.m21, a.m11, b.m22, a.m21, b.m23, a.m31, b.m24, a.m41);
    lemma_dot4_integral(b.m21, a.m12, b.m22, a.m22, b.m23, a.m32, b.m24, a.m42);
    lemma_dot4_integral(b.m21, a.m13, b.m22, a.m23, b.m23, a.m33, b.m24, a.m43);
    lemma_dot4_integral(b.m21, a.m14, b.m22, a.m24, b.m23, a.m34, b.m24, a.m44);
    lemma_dot4_integral(b.m31, a.m11, b.m32, a.m21, b.m33, a.m31, b.m34, a.m41);
    lemma_dot4_integral(b.m31, a.m12, b.m32, a.m22, b.m33, a.m32, b.m34, a.m42);
    lemma_dot4_integral(b.m31, a.m13, b.m32, a.m23, b.m33, a.m33, b.m34, a.m43);
    lemma_dot4_integral(b.m31, a.m14, b.m32, a.m24, b.m33, a.m34, b.m34, a.m44);
    lemma_dot4_integral(b.m41, a.m11, b.m42, a.m21, b.m43, a.m31, b.m44, a.m41);
    lemma_dot4_integral(b.m41, a.m12, b.m42, a.m22, b.m43, a.m32, b.m44, a.m42);
    lemma_dot4_integral(b.m41, a.m13, b.m42, a.m23, b.m43, a.m33, b.m44, a.m43);
    lemma_dot4_integral(b.m41, a.m14, b.m42, a.m24, b.m43, a.m34, b.m44, a.m44);
    lemma_dot4_integral(p.x, b.m11, p.y, b.m21, p.z, b.m31, p.t, b.m41);
    lemma_dot4_integral(p.x, b.m12, p.y, b.m22, p.z, b.m32, p.t, b.m42);
    lemma_dot4_integral(p.x, b.m13, p.y, b.m23, p.z, b.m33, p.t, b.m43);
    lemma_dot4_integral(p.x, b.m14, p.y, b.m24, p.z, b.m34, p.t, b.m44);
    lemma_dot4_integral(p.x, c.m11, p.y, c.m21, p.z, c.m31, p.t, c.m41);
    lemma_dot4_integral(p.x, c.m12, p.y, c.m22, p.z, c.m32, p.t, c.m42);
    lemma_dot4_integral(p.x, c.m13, p.y, c.m23, p.z, c.m33, p.t, c.m43);
    lemma_dot4_integral(p.x, c.m14, p.y, c.m24, p.z, c.m34, p.t, c.m44);
    lemma_dot4_integral(q.x, a.m11, q.y, a.m21, q.z, a.m31, q.t, a.m41);
    lemma_dot4_integral(q.x, a.m12, q.y, a.m22, q.z, a.m32, q.t, a.m42);
    lemma_dot4_integral(q.x, a.m13, q.y, a.m23, q.z, a.m33, q.t, a.m43);
    lemma_dot4_integral(q.x, a.m14, q.y, a.m24, q.z, a.m34, q.t, a.m44);
    lemma_column_of_composition(a, b, p, 1);
    lemma_column_of_composition(a, b, p, 2);
    lemma_column_of_composition(a, b, p, 3);
    lemma_column_of_composition(a, b, p, 4);
}

/// The arithmetic behind the order of composition, for the column `j` of the
/// result: the row `p` times the column `j` of the product of `b` and `a` is
/// the row `p` times `b`, times the column `j` of `a`.
proof fn lemma_column_of_composition<T: Integral>(
    a: Matrix4D<T>,
    b: Matrix4D<T>,
    p: Point4D<T>,
    j: int,
)
    requires
        1 <= j <= 4,
    ensures
        ({
            let (a1, a2, a3, a4) = column_values(a, j);
            let (p1, p2, p3, p4) = (p.x.value(), p.y.value(), p.z.value(), p.t.value());
            let (b11, b12, b13, b14) = row_values(b, 1);
            let (b21, b22, b23, b24) = row_values(b, 2);
            let (b31, b32, b33, b34) = row_values(b, 3);
            let (b41, b42, b43, b44) = row_values(b, 4);
            p1 * (b11 * a1 + b12 * a2 + b13 * a3 + b14 * a4) + p2 * (b21 * a1 + b22 * a2 + b23
                * a3 + b24 * a4) + p3 * (b31 * a1 + b32 * a2 + b33 * a3 + b34 * a4) + p4 * (b41
                * a1 + b42 * a2 + b43 * a3 + b44 * a4) == (p1 * b11 + p2 * b21 + p3 * b31 + p4
                * b41) * a1 + (p1 * b12 + p2 * b22 + p3 * b32 + p4 * b42) * a2 + (p1 * b13 + p2
                * b23 + p3 * b33 + p4 * b43) * a3 + (p1 * b14 + p2 * b24 + p3 * b34 + p4 * b44)
                * a4
        }),
{
    let (a1, a2, a3, a4) = column_values(a, j);
    let (p1, p2, p3, p4) = (p.x.value(), p.y.value(), p.z.value(), p.t.value());
    let (b11, b12, b13, b14) = row_values(b, 1);
    let (b21, b22, b23, b24) = row_values(b, 2);
    let (b31, b32, b33, b34) = row_values(b, 3);
    let (b41, b42, b43, b44) = row_values(b, 4);
    lemma_scale_dot4(p1, b11, a1, b12, a2, b13, a3, b14, a4);
    lemma_scale_dot4(p2, b21, a1, b22, a2, b23, a3, b24, a4);
    lemma_scale_dot4(p3, b31, a1, b32, a2, b33, a3, b34, a4);
    lemma_scale_dot4(p4, b41, a1, b42, a2, b43, a3, b44, a4);
    lemma_sum4_times(p1 * b11, p2 * b21, p3 * b31, p4 * b41, a1);
    lemma_sum4_times(p1 * b12, p2 * b22, p3 * b32, p4 * b42, a2);
    lemma_sum4_times(p1 * b13, p2 * b23, p3 * b33, p4 * b43, a3);
    lemma_sum4_times(p1 * b14, p2 * b24, p3 * b34, p4 * b44, a4);
}

/// The integers that the row `i` of `m` stands for.
pub open spec fn row_values<T: Integral>(m: Matrix4D<T>, i: int) -> (int, int, int, int) {
    if i == 1 {
        (m.m11.value(), m.m12.value(), m.m13.value(), m.m14.value())
    } else if i == 2 {
        (m.m21.value(), m.m22.value(), m.m23.value(), m.m24.value())
    } else if i == 3 {
        (m.m31.value(), m.m32.value(), m.m33.value(), m.m34.value())
    } else {
        (m.m41.value(), m.m42.value(), m.m43.value(), m.m44.value())
    }
}

/// The integers that the column `j` of `m` stands for.
pub open spec fn column_values<T: Integral>(m: Matrix4D<T>, j: int) -> (int, int, int, int) {
    if j == 1 {
        (m.m11.value(), m.m21.value(), m.m31.value(), m.m41.value())
    } else if j == 2 {
        (m.m12.value(), m.m22.value(), m.m32.value(), m.m42.value())
    } else if j == 3 {
        (m.m13.value(), m.m23.value(), m.m33.value(), m.m43.value())
    } else {
        (m.m14.value(), m.m24.value(), m.m34.value(), m.m44.value())
    }
}

} // verus!
