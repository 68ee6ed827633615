use boxman::scalar::{Rotation, Scalar, Vector2, Vector3};

fn s(value: f32) -> Scalar {
    Scalar::from_bits(value.to_bits())
}

fn samples() -> Vec<f32> {
    vec![
        0.0,
        -0.0,
        1.0,
        -1.0,
        0.01,
        0.010000001,
        -0.01,
        3.8,
        8.0,
        f32::MIN_POSITIVE,
        -f32::MIN_POSITIVE,
        f32::from_bits(1),
        f32::from_bits(0x8000_0001),
        f32::MAX,
        f32::MIN,
        f32::INFINITY,
        f32::NEG_INFINITY,
        f32::NAN,
        f32::from_bits(0xffc0_0000),
        f32::from_bits(0x7f80_0001),
    ]
}

#[test]
fn same_agrees_with_float_equality() {
    for a in samples() {
        for b in samples() {
            assert_eq!(s(a).same(&s(b)), a == b, "{:?} == {:?}", a, b);
        }
    }
}

#[test]
fn less_agrees_with_float_order() {
    for a in samples() {
        for b in samples() {
            assert_eq!(s(a).less(&s(b)), a < b, "{:?} < {:?}", a, b);
        }
    }
}

#[test]
fn nan_agrees_with_float_classification() {
    for a in samples() {
        assert_eq!(s(a).nan(), a.is_nan(), "{:?}", a);
    }
}

#[test]
fn from_bits_keeps_the_pattern() {
    assert_eq!(Scalar::from_bits(0x4073_3333).bits, 3.8f32.to_bits());
    assert_eq!(Scalar::zero().bits, 0.0f32.to_bits());
}

#[test]
fn zero_vectors_are_positive_zero() {
    assert_eq!(Vector2::zero(), Vector2 { x: s(0.0), y: s(0.0) });
    assert_eq!(Vector3::zero(), Vector3 { x: s(0.0), y: s(0.0), z: s(0.0) });
}

#[test]
fn identity_rotation_is_the_unit_quaternion() {
    let identity = Rotation::identity();
    assert_eq!(f32::from_bits(identity.x.bits), 0.0);
    assert_eq!(f32::from_bits(identity.y.bits), 0.0);
    assert_eq!(f32::from_bits(identity.z.bits), 0.0);
    assert_eq!(f32::from_bits(identity.w.bits), 1.0);
}

#[test]
fn vectors_compare_component_by_component() {
    let a = Vector3 { x: s(1.0), y: s(0.0), z: s(-2.0) };
    let b = Vector3 { x: s(1.0), y: s(-0.0), z: s(-2.0) };
    let c = Vector3 { x: s(1.0), y: s(0.0), z: s(-2.5) };
    let d = Vector3 { x: s(f32::NAN), y: s(0.0), z: s(-2.0) };
    assert!(a.same(&a));
    assert!(a.same(&b));
    assert!(!a.same(&c));
    assert!(!d.same(&d));
}
