use matrix::arith::{
    affine2, cross2, dot2, dot3, dot4, max_of, min_of,
};
use matrix::length::Length;
use matrix::point::{Point2D, Point3D, Point4D, TypedPoint2D};
use matrix::size::{Size2D, TypedSize2D};

#[derive(Debug, Copy, Clone)]
enum Mm {}

#[test]
fn point_new_keeps_its_coordinates() {
    let p = Point2D::new(1, 2);
    assert_eq!((p.x, p.y), (1, 2));
    let q = Point3D::new(1, 2, 3);
    assert_eq!((q.x, q.y, q.z), (1, 2, 3));
    let r = Point4D::new(1, 2, 3, 4);
    assert_eq!((r.x, r.y, r.z, r.t), (1, 2, 3, 4));
}

#[test]
fn point_zero_is_the_origin() {
    assert_eq!(Point2D::<i32>::zero(), Point2D::new(0, 0));
    assert_eq!(Point3D::<f32>::zero(), Point3D::new(0.0, 0.0, 0.0));
    assert_eq!(Point4D::<u8>::zero(), Point4D::new(0, 0, 0, 0));
}

#[test]
fn point_equality_is_by_coordinate() {
    assert!(Point2D::new(1, 2) == Point2D::new(1, 2));
    assert!(Point2D::new(1, 2) != Point2D::new(2, 1));
    assert!(Point2D::new(1, 2) != Point2D::new(1, 3));
    assert!(Point3D::new(1, 2, 3) != Point3D::new(1, 2, 4));
    assert!(Point4D::new(1, 2, 3, 4) != Point4D::new(1, 2, 3, 5));
    assert!(Point4D::new(1, 2, 3, 4) == Point4D::new(1, 2, 3, 4));
    assert!(Point2D::new(f32::NAN, 0.0) != Point2D::new(f32::NAN, 0.0));
}

#[test]
fn point2d_dot_and_cross_of_integers() {
    assert_eq!(Point2D::new(2, 7).dot(Point2D::new(13, 11)), 103);
    assert_eq!(Point2D::new(4, 7).cross(Point2D::new(13, 8)), -59);
    assert_eq!(Point2D::new(13, 8).cross(Point2D::new(4, 7)), 59);
    assert_eq!(Point2D::new(3, 4).cross(Point2D::new(6, 8)), 0);
}

#[test]
fn point3d_dot_and_cross_of_integers() {
    assert_eq!(Point3D::new(7, 21, 32).dot(Point3D::new(43, 5, 16)), 918);
    let a = Point3D::new(4, 7, 9);
    let b = Point3D::new(13, 8, 3);
    assert_eq!(a.cross(b), Point3D::new(-51, 105, -59));
    assert_eq!(b.cross(a), Point3D::new(51, -105, 59));
    assert_eq!(a.cross(b).dot(a), 0);
    assert_eq!(a.cross(b).dot(b), 0);
}

#[test]
fn point3d_cross_of_the_axes() {
    let x = Point3D::new(1, 0, 0);
    let y = Point3D::new(0, 1, 0);
    let z = Point3D::new(0, 0, 1);
    assert_eq!(x.cross(y), z);
    assert_eq!(y.cross(z), x);
    assert_eq!(z.cross(x), y);
    assert_eq!(x.cross(x), Point3D::new(0, 0, 0));
}

#[test]
fn point_add_sub_neg() {
    let p = Point2D::new(1, 2);
    let q = Point2D::new(10, 20);
    assert_eq!(p + q, Point2D::new(11, 22));
    assert_eq!(q - p, Point2D::new(9, 18));
    assert_eq!(-p, Point2D::new(-1, -2));
    let a = Point3D::new(1.5, 2.0, -3.0);
    let b = Point3D::new(0.5, 2.0, 3.0);
    assert_eq!(a + b, Point3D::new(2.0, 4.0, 0.0));
    assert_eq!(a - b, Point3D::new(1.0, 0.0, -6.0));
    assert_eq!(-a, Point3D::new(-1.5, -2.0, 3.0));
    assert_eq!(-Point4D::new(1, -2, 3, -4), Point4D::new(-1, 2, -3, 4));
}

#[test]
fn point_add_size() {
    let p = Point2D::new(1, 2);
    let s = Size2D::new(30, 40);
    assert_eq!(p.add_size(&s), Point2D::new(31, 42));
    assert_eq!(p + s, Point2D::new(31, 42));
}

#[test]
fn point_scalar_div() {
    assert_eq!(Point2D::new(15.0, 25.0) / 5.0, Point2D::new(3.0, 5.0));
    assert_eq!(Point2D::new(15, 26) / 5, Point2D::new(3, 5));
    assert_eq!(Point2D::new(3, 5) * 5, Point2D::new(15, 25));
}

#[test]
fn point_min_max_of_integers() {
    let p = Point2D::new(1, 3);
    let q = Point2D::new(2, 2);
    assert_eq!(p.min(q), Point2D::new(1, 2));
    assert_eq!(p.max(q), Point2D::new(2, 3));
    assert_eq!(q.min(p), Point2D::new(1, 2));
    assert_eq!(q.max(p), Point2D::new(2, 3));
    assert_eq!(p.min(p), p);
    assert_eq!(p.max(p), p);
}

#[test]
fn point_min_max_pass_over_what_is_no_number() {
    let p = Point2D::new(f32::NAN, 3.0);
    let q = Point2D::new(2.0, f32::NAN);
    assert_eq!(p.min(q), Point2D::new(2.0, 3.0));
    assert_eq!(p.max(q), Point2D::new(2.0, 3.0));
    assert_eq!(q.min(p), Point2D::new(2.0, 3.0));
    assert_eq!(q.max(p), Point2D::new(2.0, 3.0));
    let both = Point2D::new(f64::NAN, 1.0).min(Point2D::new(f64::NAN, 2.0));
    assert!(both.x.is_nan());
    assert_eq!(both.y, 1.0);
}

#[test]
fn lesser_and_greater() {
    assert_eq!(min_of(3, 5), 3);
    assert_eq!(min_of(5, 3), 3);
    assert_eq!(max_of(3, 5), 5);
    assert_eq!(max_of(5, 3), 5);
    assert_eq!(min_of(4, 4), 4);
    assert_eq!(max_of(-1.5, -2.5), -1.5);
    assert_eq!(min_of(f32::NAN, 1.0), 1.0);
    assert_eq!(max_of(1.0, f32::NAN), 1.0);
}

#[test]
fn sums_of_products() {
    assert_eq!(dot2(2, 3, 4, 5), 26);
    assert_eq!(dot3(2, 3, 4, 5, 6, 7), 68);
    assert_eq!(dot4(2, 3, 4, 5, 6, 7, 8, 9), 140);
    assert_eq!(affine2(2, 3, 4, 5, 100), 126);
    assert_eq!(cross2(2, 3, 4, 5), -14);
    assert_eq!(dot2(0.5, 4.0, 0.25, 8.0), 4.0);
}

#[test]
fn typed_point_round_trip() {
    let typed: TypedPoint2D<Mm, i32> = TypedPoint2D::typed(3, 5);
    assert_eq!(typed.x, Length::new(3));
    assert_eq!(typed.y, Length::new(5));
    let plain = typed.to_untyped();
    assert_eq!(plain, Point2D::new(3, 5));
    let again: TypedPoint2D<Mm, i32> = TypedPoint2D::from_untyped(&plain);
    assert_eq!(again, typed);
}

#[test]
fn typed_point_arithmetic_keeps_the_unit() {
    let p: TypedPoint2D<Mm, i32> = TypedPoint2D::typed(1, 2);
    let q: TypedPoint2D<Mm, i32> = TypedPoint2D::typed(3, 4);
    assert_eq!(q - p, TypedPoint2D::typed(2, 2));
    assert_eq!(-p, TypedPoint2D::typed(-1, -2));
    assert_eq!(p.min(q), p);
    assert_eq!(p.max(q), q);
}

#[test]
fn size_zero_has_no_area() {
    let s: Size2D<i32> = Size2D::zero();
    assert_eq!(s.width, 0);
    assert_eq!(s.height, 0);
    assert_eq!(s.area(), 0);
    let f: Size2D<f64> = Size2D::zero();
    assert_eq!(f.area(), 0.0);
}

#[test]
fn size_equality_is_by_side() {
    assert!(Size2D::new(3, 5) == Size2D::new(3, 5));
    assert!(Size2D::new(3, 5) != Size2D::new(5, 3));
    assert!(Size2D::new(3, 5) != Size2D::new(3, 6));
}

#[test]
fn typed_size_round_trip() {
    let typed: TypedSize2D<Mm, f32> = TypedSize2D::typed(3.0, 5.0);
    assert_eq!(typed.untyped().area(), 15.0);
    let plain = typed.untyped();
    assert!(plain == Size2D::new(3.0, 5.0));
    let again: TypedSize2D<Mm, f32> = TypedSize2D::from_untyped(&plain);
    assert!(again == typed);
}

#[test]
fn size_times_ten_has_a_hundredfold_area() {
    assert_eq!(Size2D::new(3, 5).area(), 15);
    assert_eq!((Size2D::new(3, 5) * 10).area(), 1500);
}
