use matrix::matrix2d::Matrix2D;
use matrix::point::Point2D;

#[test]
fn matrix2d_new_keeps_the_order_of_its_coefficients() {
    let m = Matrix2D::new(1, 2, 3, 4, 5, 6);
    assert_eq!(m.to_array(), [1, 2, 3, 4, 5, 6]);
    assert_eq!(m.m11, 1);
    assert_eq!(m.m12, 2);
    assert_eq!(m.m21, 3);
    assert_eq!(m.m22, 4);
    assert_eq!(m.m31, 5);
    assert_eq!(m.m32, 6);
}

#[test]
fn matrix2d_identity_coefficients() {
    let i: Matrix2D<i32> = Matrix2D::indentity();
    assert_eq!(i.to_array(), [1, 0, 0, 1, 0, 0]);
    let f: Matrix2D<f32> = Matrix2D::indentity();
    assert_eq!(f.to_array(), [1.0, 0.0, 0.0, 1.0, 0.0, 0.0]);
}

#[test]
fn matrix2d_mul_hand_computed() {
    let a = Matrix2D::new(1, 2, 3, 4, 5, 6);
    let b = Matrix2D::new(7, 8, 9, 10, 11, 12);
    assert_eq!(a.mul(&b).to_array(), [31, 46, 39, 58, 52, 76]);
}

#[test]
fn matrix2d_mul_is_not_commutative() {
    let a = Matrix2D::new(1, 2, 3, 4, 5, 6);
    let b = Matrix2D::new(7, 8, 9, 10, 11, 12);
    assert_eq!(b.mul(&a).to_array(), [25, 28, 57, 64, 100, 112]);
    assert_ne!(a.mul(&b).to_array(), b.mul(&a).to_array());
}

#[test]
fn matrix2d_identity_is_neutral() {
    let m = Matrix2D::new(1, 2, 3, 4, 5, 6);
    let i = Matrix2D::indentity();
    assert_eq!(i.mul(&m).to_array(), m.to_array());
    assert_eq!(m.mul(&i).to_array(), m.to_array());
}

#[test]
fn matrix2d_identity_is_neutral_at_the_limits() {
    let m = Matrix2D::new(i8::MAX, i8::MIN, i8::MIN, i8::MAX, i8::MAX, i8::MIN);
    let i = Matrix2D::indentity();
    assert_eq!(i.mul(&m).to_array(), m.to_array());
    assert_eq!(m.mul(&i).to_array(), m.to_array());
}

#[test]
fn matrix2d_transform_point_formula() {
    let a = Matrix2D::new(1, 2, 3, 4, 5, 6);
    let p = a.transform_point(&Point2D::new(2, 3));
    assert_eq!(p, Point2D::new(16, 22));
}

#[test]
fn matrix2d_transform_point_uses_m22() {
    let a = Matrix2D::new(0.0, 0.0, 0.0, 2.5, 0.0, 0.0);
    let p = a.transform_point(&Point2D::new(7.0, 4.0));
    assert_eq!(p, Point2D::new(0.0, 10.0));
}

#[test]
fn matrix2d_mul_applies_its_argument_first() {
    let a = Matrix2D::new(1, 2, 3, 4, 5, 6);
    let b = Matrix2D::new(7, 8, 9, 10, 11, 12);
    let p = Point2D::new(2, 3);
    let by_b = b.transform_point(&p);
    assert_eq!(by_b, Point2D::new(52, 58));
    let by_b_then_a = a.transform_point(&by_b);
    assert_eq!(by_b_then_a, Point2D::new(231, 342));
    assert_eq!(a.mul(&b).transform_point(&p), by_b_then_a);
}

#[test]
fn matrix2d_translate_hand_computed() {
    let a = Matrix2D::new(1, 2, 3, 4, 5, 6);
    assert_eq!(a.translate(10, 20).to_array(), [1, 2, 3, 4, 75, 106]);
}

#[test]
fn matrix2d_translate_moves_the_point_first() {
    let a = Matrix2D::new(1, 2, 3, 4, 5, 6);
    let p = Point2D::new(2, 3);
    let moved = Point2D::new(12, 23);
    assert_eq!(a.translate(10, 20).transform_point(&p), a.transform_point(&moved));
}

#[test]
fn matrix2d_translate_of_identity() {
    let t: Matrix2D<f64> = Matrix2D::indentity().translate(1.5, -2.0);
    assert_eq!(t.to_array(), [1.0, 0.0, 0.0, 1.0, 1.5, -2.0]);
    assert_eq!(t.transform_point(&Point2D::new(1.0, 1.0)), Point2D::new(2.5, -1.0));
}

#[test]
fn matrix2d_scale_hand_computed() {
    let a = Matrix2D::new(1, 2, 3, 4, 5, 6);
    assert_eq!(a.scale(2, 3).to_array(), [2, 4, 9, 12, 5, 6]);
}

#[test]
fn matrix2d_scale_stretches_the_point_first() {
    let a = Matrix2D::new(1, 2, 3, 4, 5, 6);
    let p = Point2D::new(2, 3);
    let stretched = Point2D::new(4, 9);
    assert_eq!(a.scale(2, 3).transform_point(&p), a.transform_point(&stretched));
}

#[test]
fn matrix2d_scale_of_identity() {
    let s: Matrix2D<f32> = Matrix2D::indentity().scale(2.0, 4.0);
    assert_eq!(s.to_array(), [2.0, 0.0, 0.0, 4.0, 0.0, 0.0]);
    assert_eq!(s.transform_point(&Point2D::new(3.0, 5.0)), Point2D::new(6.0, 20.0));
}
