use matrix::num::{one, zero};

#[test]
fn zero_is_the_additive_identity() {
    let z: i32 = zero();
    assert_eq!(z, 0);
    assert_eq!(41 + z, 41);
    assert_eq!(z + 41, 41);
    let u: u64 = zero();
    assert_eq!(u, 0);
    let f: f32 = zero();
    assert_eq!(f, 0.0);
    assert_eq!(2.5 + f, 2.5);
    let d: f64 = zero();
    assert_eq!(d, 0.0);
}

#[test]
fn one_is_the_multiplicative_identity() {
    let o: i32 = one();
    assert_eq!(o, 1);
    assert_eq!(41 * o, 41);
    assert_eq!(o * 41, 41);
    let u: u8 = one();
    assert_eq!(u, 1);
    let f: f32 = one();
    assert_eq!(f, 1.0);
    assert_eq!(2.5 * f, 2.5);
    let d: f64 = one();
    assert_eq!(d, 1.0);
}

#[test]
fn zero_and_one_differ() {
    let z: i8 = zero();
    let o: i8 = one();
    assert_ne!(z, o);
    assert_eq!(z * o, z);
    assert_eq!(z + o, o);
}
