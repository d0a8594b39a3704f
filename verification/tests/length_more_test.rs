use matrix::length::Length;
use matrix::scale_factor::ScaleFactor;

#[derive(Debug, Copy, Clone)]
enum Inch {}

#[derive(Debug, Copy, Clone)]
enum Mm {}

#[derive(Debug, Copy, Clone)]
enum Cm {}

#[test]
fn length_add_then_sub_gives_the_first_back() {
    let a: Length<Inch, i32> = Length::new(12);
    let b: Length<Inch, i32> = Length::new(-30);
    assert_eq!((a + b) - b, a);
    let top: Length<Inch, i8> = Length::new(i8::MAX);
    let none: Length<Inch, i8> = Length::new(0);
    assert_eq!((top + none) - none, top);
    let low: Length<Inch, u8> = Length::new(200);
    let rest: Length<Inch, u8> = Length::new(55);
    assert_eq!((low + rest) - rest, low);
    assert_eq!((low + rest).get(), 255);
}

#[test]
fn length_neg_twice_gives_the_length_back() {
    let a: Length<Inch, i32> = Length::new(12);
    assert_eq!(-(-a), a);
    assert_eq!((-a).get(), -12);
    let least_negatable: Length<Inch, i8> = Length::new(i8::MIN + 1);
    assert_eq!((-least_negatable).get(), i8::MAX);
    assert_eq!(-(-least_negatable), least_negatable);
    let f: Length<Inch, f64> = Length::new(2.5);
    assert_eq!(-(-f), f);
}

#[test]
fn length_neg_of_zero_equals_zero() {
    let zero: Length<Inch, f32> = Length::new(0.0);
    assert_eq!(-zero, Length::new(0.0));
    assert_eq!(-zero, zero);
    let whole: Length<Inch, i16> = Length::new(0);
    assert_eq!(-whole, whole);
}

#[test]
fn length_zero_is_the_payloads_zero() {
    let z: Length<Mm, i32> = Length::zero();
    assert_eq!(z.get(), 0);
    let f: Length<Mm, f32> = Length::zero();
    assert_eq!(f.get(), 0.0);
    let a: Length<Mm, i32> = Length::new(9);
    assert_eq!(a + z, a);
    assert_eq!(z + a, a);
}

#[test]
fn length_new_and_get() {
    let a: Length<Mm, u64> = Length::new(77);
    assert_eq!(a.get(), 77);
    assert_eq!(a.0, 77);
    assert_eq!(a.clone().get(), 77);
}

#[test]
fn length_orders_as_its_number() {
    let a: Length<Mm, i32> = Length::new(-4);
    let b: Length<Mm, i32> = Length::new(3);
    assert!(a < b);
    assert!(b > a);
    assert!(a <= a);
    assert!(a != b);
    let nothing: Length<Mm, f32> = Length::new(f32::NAN);
    let one: Length<Mm, f32> = Length::new(1.0);
    assert!(!(nothing < one));
    assert!(!(nothing > one));
    assert!(nothing != nothing);
}

#[test]
fn length_times_scale_changes_the_unit() {
    let feet: Length<Inch, i32> = Length::new(12);
    let mm_per_inch: ScaleFactor<Inch, Mm, i32> = ScaleFactor::new(25);
    let in_mm: Length<Mm, i32> = feet * mm_per_inch;
    assert_eq!(in_mm.get(), 300);
    let back: Length<Inch, i32> = in_mm / mm_per_inch;
    assert_eq!(back, feet);
    let ratio: ScaleFactor<Inch, Mm, i32> = in_mm / feet;
    assert_eq!(ratio, mm_per_inch);
}

#[test]
fn length_divided_by_length_is_a_ratio() {
    let a: Length<Mm, f64> = Length::new(10.0);
    let b: Length<Cm, f64> = Length::new(4.0);
    let mm_per_cm: ScaleFactor<Cm, Mm, f64> = a / b;
    assert_eq!(mm_per_cm.get(), 2.5);
    let whole: Length<Mm, i32> = Length::new(7);
    let part: Length<Cm, i32> = Length::new(2);
    let cut: ScaleFactor<Cm, Mm, i32> = whole / part;
    assert_eq!(cut.get(), 3);
}

#[test]
fn scale_factor_new_and_get() {
    let s: ScaleFactor<Inch, Mm, f32> = ScaleFactor::new(25.4);
    assert_eq!(s.get(), 25.4);
    assert_eq!(s.0, 25.4);
    assert_eq!(s.clone(), s);
}

#[test]
fn scale_factor_inv_is_one_over_the_ratio() {
    let s: ScaleFactor<Inch, Mm, f64> = ScaleFactor::new(4.0);
    let back: ScaleFactor<Mm, Inch, f64> = s.inv();
    assert_eq!(back.get(), 0.25);
    let unit: ScaleFactor<Inch, Mm, i32> = ScaleFactor::new(1);
    assert_eq!(unit.inv().get(), 1);
    let minus: ScaleFactor<Inch, Mm, i32> = ScaleFactor::new(-1);
    assert_eq!(minus.inv().get(), -1);
    let two: ScaleFactor<Inch, Mm, i32> = ScaleFactor::new(2);
    assert_eq!(two.inv().get(), 0);
}

#[test]
fn scale_factor_inv_of_zero_is_not_finite() {
    let s: ScaleFactor<Inch, Mm, f32> = ScaleFactor::new(0.0);
    assert!(s.inv().get().is_infinite());
}

#[test]
fn scale_factor_times_its_inverse_is_about_one() {
    let ratios = [25.4f64, 0.1, 3.0, -7.5, 1.0e-3, 12345.678];
    for ratio in ratios {
        let s: ScaleFactor<Inch, Mm, f64> = ScaleFactor::new(ratio);
        let product: ScaleFactor<Inch, Inch, f64> = s * s.inv();
        assert!((product.get() - 1.0).abs() < 1.0e-6);
        let twice: ScaleFactor<Inch, Mm, f64> = s.inv().inv();
        assert!((twice.get() - ratio).abs() < 1.0e-6 * ratio.abs());
    }
}

#[test]
fn scale_factor_chain_within_tolerance() {
    let mm_per_inch: ScaleFactor<Inch, Mm, f32> = ScaleFactor::new(25.4);
    let cm_per_mm: ScaleFactor<Mm, Cm, f32> = ScaleFactor::new(0.1);
    let cm_per_inch: ScaleFactor<Inch, Cm, f32> = mm_per_inch * cm_per_mm;
    assert!((cm_per_inch.get() - 2.54).abs() < 1.0e-6);
}

#[test]
fn scale_factor_composition_is_associative() {
    let ab: ScaleFactor<Inch, Mm, i64> = ScaleFactor::new(25);
    let bc: ScaleFactor<Mm, Cm, i64> = ScaleFactor::new(-3);
    let ca: ScaleFactor<Cm, Inch, i64> = ScaleFactor::new(7);
    let left: ScaleFactor<Inch, Inch, i64> = (ab * bc) * ca;
    let right: ScaleFactor<Inch, Inch, i64> = ab * (bc * ca);
    assert_eq!(left, right);
    assert_eq!(left.get(), -525);
}

#[test]
fn scale_factor_add_and_sub() {
    let a: ScaleFactor<Inch, Mm, f32> = ScaleFactor::new(1.5);
    let b: ScaleFactor<Inch, Mm, f32> = ScaleFactor::new(0.25);
    assert_eq!((a + b).get(), 1.75);
    assert_eq!((a - b).get(), 1.25);
    assert!(a != b);
}
