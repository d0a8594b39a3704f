use matrix::matrix4d::Matrix4D;
use matrix::point::{Point2D, Point4D};

fn sample() -> Matrix4D<i64> {
    Matrix4D::new(1, 2, 3, 4, 5, 6, 7, 8, 9, 10, 11, 12, 13, 14, 15, 16)
}

fn other() -> Matrix4D<i64> {
    Matrix4D::new(2, 0, 1, 3, 1, 1, 0, 2, 0, 4, 1, 1, 3, 2, 2, 1)
}

fn sample_f32() -> Matrix4D<f32> {
    Matrix4D::new(
        1.5, -2.0, 3.25, 4.0, 5.0, 6.5, -7.0, 8.0, 9.0, 10.0, 11.75, -12.0, 13.0, 14.0, 15.0, 16.5,
    )
}

#[test]
fn matrix4d_new_keeps_the_order_of_its_coefficients() {
    let m = sample();
    assert_eq!(m.to_array(), [1, 2, 3, 4, 5, 6, 7, 8, 9, 10, 11, 12, 13, 14, 15, 16]);
    assert_eq!(m.m12, 2);
    assert_eq!(m.m21, 5);
    assert_eq!(m.m34, 12);
    assert_eq!(m.m43, 15);
}

#[test]
fn matrix4d_identity_coefficients() {
    let i: Matrix4D<f32> = Matrix4D::indentity();
    assert_eq!(
        i.to_array(),
        [1.0, 0.0, 0.0, 0.0, 0.0, 1.0, 0.0, 0.0, 0.0, 0.0, 1.0, 0.0, 0.0, 0.0, 0.0, 1.0]
    );
    let n: Matrix4D<u8> = Matrix4D::indentity();
    assert_eq!(n.to_array(), [1, 0, 0, 0, 0, 1, 0, 0, 0, 0, 1, 0, 0, 0, 0, 1]);
}

#[test]
fn matrix4d_mul_hand_computed() {
    let a = sample();
    let b = other();
    assert_eq!(
        a.mul(&b).to_array(),
        [50, 56, 62, 68, 32, 36, 40, 44, 42, 48, 54, 60, 44, 52, 60, 68]
    );
    assert_eq!(
        b.mul(&a).to_array(),
        [16, 22, 12, 14, 40, 50, 28, 42, 64, 78, 44, 70, 88, 106, 60, 98]
    );
}

#[test]
fn matrix4d_identity_is_neutral() {
    let m = sample();
    let i = Matrix4D::indentity();
    assert_eq!(i.mul(&m), m);
    assert_eq!(m.mul(&i), m);
}

#[test]
fn matrix4d_identity_is_neutral_for_floats() {
    let m = sample_f32();
    let i = Matrix4D::indentity();
    assert_eq!(i.mul(&m), m);
    assert_eq!(m.mul(&i), m);
    assert!(i.mul(&m).approx_eq(&m));
    assert!(m.mul(&i).approx_eq(&m));
}

#[test]
fn matrix4d_identity_is_neutral_at_the_limits() {
    let m = Matrix4D::new(
        i16::MAX,
        i16::MIN,
        i16::MAX,
        i16::MIN,
        i16::MIN,
        i16::MAX,
        i16::MIN,
        i16::MAX,
        i16::MAX,
        i16::MAX,
        i16::MIN,
        i16::MIN,
        i16::MIN,
        i16::MIN,
        i16::MAX,
        i16::MAX,
    );
    let i = Matrix4D::indentity();
    assert_eq!(i.mul(&m), m);
    assert_eq!(m.mul(&i), m);
}

#[test]
fn matrix4d_transform_point4d_is_the_row_times_the_matrix() {
    let a = sample();
    let p = Point4D::new(1, 2, 3, 4);
    assert_eq!(a.transform_point4d(&p), Point4D::new(90, 100, 110, 120));
}

#[test]
fn matrix4d_transform_point4d_by_identity() {
    let i: Matrix4D<f32> = Matrix4D::indentity();
    let p = Point4D::new(1.5, -2.5, 3.0, 1.0);
    assert_eq!(i.transform_point4d(&p), p);
}

#[test]
fn matrix4d_mul_applies_its_argument_first() {
    let a = sample();
    let b = other();
    let p = Point4D::new(1, 2, 3, 4);
    let by_b = b.transform_point4d(&p);
    assert_eq!(by_b, Point4D::new(16, 22, 12, 14));
    let by_b_then_a = a.transform_point4d(&by_b);
    assert_eq!(by_b_then_a, Point4D::new(416, 480, 544, 608));
    assert_eq!(a.mul(&b).transform_point4d(&p), by_b_then_a);
}

#[test]
fn matrix4d_transform_point2d_formula() {
    let a = sample();
    assert_eq!(a.transform_point2d(&Point2D::new(2, 3)), Point2D::new(30, 36));
}

#[test]
fn matrix4d_transform_point2d_agrees_with_point4d() {
    let a = sample();
    let flat = a.transform_point2d(&Point2D::new(2, 3));
    let full = a.transform_point4d(&Point4D::new(2, 3, 0, 1));
    assert_eq!(flat.x, full.x);
    assert_eq!(flat.y, full.y);
}

#[test]
fn matrix4d_translate_hand_computed() {
    let a = sample();
    assert_eq!(
        a.translate(5, 6, 7).to_array(),
        [1, 2, 3, 4, 5, 6, 7, 8, 9, 10, 11, 12, 111, 130, 149, 168]
    );
}

#[test]
fn matrix4d_translate_of_identity_moves_points() {
    let t: Matrix4D<f32> = Matrix4D::indentity().translate(5.0, 6.0, 7.0);
    assert_eq!(
        t.to_array(),
        [1.0, 0.0, 0.0, 0.0, 0.0, 1.0, 0.0, 0.0, 0.0, 0.0, 1.0, 0.0, 5.0, 6.0, 7.0, 1.0]
    );
    assert_eq!(t.transform_point2d(&Point2D::new(1.0, 2.0)), Point2D::new(6.0, 8.0));
    assert_eq!(
        t.transform_point4d(&Point4D::new(1.0, 2.0, 3.0, 1.0)),
        Point4D::new(6.0, 8.0, 10.0, 1.0)
    );
}

#[test]
fn matrix4d_spread_scales_every_coefficient() {
    let a = sample();
    assert_eq!(
        a.spread(3).to_array(),
        [3, 6, 9, 12, 15, 18, 21, 24, 27, 30, 33, 36, 39, 42, 45, 48]
    );
}

#[test]
fn matrix4d_scale_touches_only_the_diagonal() {
    let a = sample();
    assert_eq!(
        a.scale(2, 3, 4).to_array(),
        [2, 2, 3, 4, 5, 18, 7, 8, 9, 10, 44, 12, 13, 14, 15, 16]
    );
}

#[test]
fn matrix4d_ortho_of_the_unit_cube() {
    let o: Matrix4D<f32> = Matrix4D::ortho(-1.0, 1.0, -1.0, 1.0, -1.0, 1.0);
    assert_eq!(
        o.to_array(),
        [1.0, 0.0, 0.0, 0.0, 0.0, 1.0, 0.0, 0.0, 0.0, 0.0, -1.0, 0.0, 0.0, 0.0, 0.0, 1.0]
    );
}

#[test]
fn matrix4d_ortho_hand_computed() {
    let o: Matrix4D<f32> = Matrix4D::ortho(0.0, 4.0, 0.0, 2.0, 1.0, 9.0);
    assert_eq!(
        o.to_array(),
        [0.5, 0.0, 0.0, 0.0, 0.0, 1.0, 0.0, 0.0, 0.0, 0.0, -0.25, 0.0, -1.0, -1.0, -1.25, 1.0]
    );
}

#[test]
fn matrix4d_ortho_takes_the_box_to_the_cube() {
    let o: Matrix4D<f32> = Matrix4D::ortho(0.0, 4.0, 0.0, 2.0, 1.0, 9.0);
    let low = o.transform_point4d(&Point4D::new(0.0, 0.0, -1.0, 1.0));
    assert_eq!(low, Point4D::new(-1.0, -1.0, -1.0, 1.0));
    let high = o.transform_point4d(&Point4D::new(4.0, 2.0, -9.0, 1.0));
    assert_eq!(high, Point4D::new(1.0, 1.0, 1.0, 1.0));
    let middle = o.transform_point4d(&Point4D::new(2.0, 1.0, -5.0, 1.0));
    assert_eq!(middle, Point4D::new(0.0, 0.0, 0.0, 1.0));
    let flat = o.transform_point2d(&Point2D::new(3.0, 0.5));
    assert_eq!(flat, Point2D::new(0.5, -0.5));
}

#[test]
fn matrix4d_ortho_of_integers() {
    let o: Matrix4D<i32> = Matrix4D::ortho(0, 2, 0, 2, 0, 2);
    assert_eq!(o.to_array(), [1, 0, 0, 0, 0, 1, 0, 0, 0, 0, -1, 0, -1, -1, -1, 1]);
}

#[test]
fn matrix4d_ortho_of_coinciding_planes_is_not_finite() {
    let o: Matrix4D<f32> = Matrix4D::ortho(1.0, 1.0, 0.0, 2.0, 0.0, 2.0);
    assert!(!o.m11.is_finite());
    assert!(!o.m41.is_finite());
    assert!(o.m22.is_finite());
    let flat: Matrix4D<f32> = Matrix4D::ortho(0.0, 2.0, 3.0, 3.0, 0.0, 2.0);
    assert!(!flat.m22.is_finite());
    let thin: Matrix4D<f32> = Matrix4D::ortho(0.0, 2.0, 0.0, 2.0, 5.0, 5.0);
    assert!(!thin.m33.is_finite());
}

#[test]
fn matrix4d_approx_eq_needs_every_coefficient() {
    let m = sample_f32();
    assert!(m.approx_eq(&m));
    let mut near = m;
    near.m11 += 0.0000005;
    assert!(near != m);
    assert!(m.approx_eq(&near));
    assert!(near.approx_eq(&m));
    let mut off = m;
    off.m44 += 0.5;
    assert!(!m.approx_eq(&off));
    let mut just_off = m;
    just_off.m11 += 0.000002;
    assert!(!m.approx_eq(&just_off));
    let mut first = m;
    first.m11 -= 0.25;
    assert!(!m.approx_eq(&first));
    assert!(!first.approx_eq(&m));
}

#[test]
fn matrix4d_equality_is_exact() {
    let m = sample_f32();
    let mut near = m;
    near.m11 += 0.5;
    assert!(m == m);
    assert!(m != near);
}
