use partmesh::scalar::Scalar;
use partmesh::vector::Vector;

fn s(v: f64) -> Scalar {
    Scalar::from_bits(v.to_bits())
}

fn f(sc: Scalar) -> f64 {
    f64::from_bits(sc.bits())
}

fn v3(x: f64, y: f64, z: f64) -> Vector {
    Vector::new(s(x), s(y), s(z))
}

fn feq(a: f64, b: f64) -> bool {
    let diff = (a - b).abs();
    diff <= f64::EPSILON || diff <= f64::EPSILON * a.abs().max(b.abs())
}

#[test]
fn test_vector_magnitude() {
    let vector = v3(1.0, 2.0, 2.0);
    let result = vector.magnitude();
    assert_eq!(f(result) as u64, 3);
}

#[test]
fn test_vector_normalize() {
    let vector = v3(1.0, 2.0, 2.0);
    let result = vector.normalize();

    // capture the first 4 trailing digits
    let k = 10000.0;
    let v0 = (f(result.x) * k).round();
    let v1 = (f(result.y) * k).round();
    let v2 = (f(result.z) * k).round();

    // verify that they are expected values
    assert_eq!(v0, 3333.0);
    assert_eq!(v1, 6667.0);
    assert_eq!(v2, 6667.0);
}

#[test]
fn test_vector_sub() {
    let vector1 = v3(2.0, 2.0, 2.0);
    let vector2 = v3(1.0, 1.0, 1.0);
    let vector3 = vector1.sub(&vector2);

    assert_eq!(f(vector3.x), 1.0);
    assert_eq!(f(vector3.y), 1.0);
    assert_eq!(f(vector3.z), 1.0);
}

#[test]
fn normalized_vectors_have_unit_magnitude() {
    let samples = [
        v3(1.0, 2.0, 2.0),
        v3(-5.0, 0.25, 4.0),
        v3(0.001, -0.002, 0.003),
        v3(1e100, -2e100, 0.5e100),
    ];
    for v in samples {
        let m = f(v.normalize().magnitude());
        assert!(feq(m, 1.0), "magnitude {m} is not close to 1");
    }
}

#[test]
fn normalizing_zero_returns_zero() {
    let zero = v3(0.0, 0.0, 0.0);
    let r = zero.normalize();
    assert_eq!(r, zero);

    let negative_zero = v3(-0.0, -0.0, -0.0);
    let r = negative_zero.normalize();
    assert_eq!(r, negative_zero);
}

#[test]
fn scalar_arithmetic_matches_hardware_doubles() {
    let a = s(2.5);
    let b = s(3.25);
    assert_eq!(f(a.add(&b)), 2.5 + 3.25);
    assert_eq!(f(a.sub(&b)), 2.5 - 3.25);
    assert_eq!(f(a.mul(&b)), 2.5 * 3.25);
    assert_eq!(f(a.div(&b)), 2.5 / 3.25);
    assert_eq!(f(s(9.0).sqrt()), 3.0);
    assert_eq!(f(s(2.0).sqrt()), 2.0f64.sqrt());
    assert_eq!(f(a.neg()), -2.5);
    assert_eq!(f(Scalar::from_count(7)), 7.0);
}

#[test]
fn scalar_inexact_arithmetic_matches_hardware_doubles() {
    let a = s(0.1);
    let b = s(0.2);
    assert_eq!(f(a.add(&b)), 0.1 + 0.2);
    assert_eq!(f(a.mul(&b)), 0.1 * 0.2);
    assert_eq!(f(a.div(&b)), 0.1 / 0.2);
    assert_eq!(f(s(0.3).sqrt()), 0.3f64.sqrt());
}

#[test]
fn scalar_zero_tests_match_double_comparisons() {
    assert!(s(0.0).is_zero());
    assert!(s(-0.0).is_zero());
    assert!(!s(1.0e-300).is_zero());
    assert!(s(1.5).gt_zero());
    assert!(!s(-1.5).gt_zero());
    assert!(!s(0.0).gt_zero());
    assert!(!s(-0.0).gt_zero());
    assert!(!s(f64::NAN).gt_zero());
    assert!(s(f64::INFINITY).gt_zero());
}

#[test]
fn vector_distance_is_magnitude_of_difference() {
    let a = v3(1.0, 2.0, 3.0);
    let b = v3(4.0, 6.0, 3.0);
    assert_eq!(f(a.distance(&b)), 5.0);
}

#[test]
fn vector_scaled_multiplies_each_component() {
    let v = v3(1.0, -2.0, 0.5).scaled(&s(2.0));
    assert_eq!(f(v.x), 2.0);
    assert_eq!(f(v.y), -4.0);
    assert_eq!(f(v.z), 1.0);
}

#[test]
fn vector_unpack_returns_components() {
    let v = v3(1.0, 2.0, 3.0);
    let (x, y, z) = v.unpack();
    assert_eq!(f(x), 1.0);
    assert_eq!(f(y), 2.0);
    assert_eq!(f(z), 3.0);
}
