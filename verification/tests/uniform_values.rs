//! Conversion of native values into uniforms: every supported type maps to
//! the variant of its shape and every element round-trips exactly.

use shade::uniform::{F32Bits, ToUniform, UniformValue};

fn bits(v: f32) -> F32Bits {
    F32Bits { bits: v.to_bits() }
}

#[test]
fn i32_to_uniform() {
    assert_eq!((-7i32).to_uniform(), UniformValue::I32(-7));
    assert_eq!(0i32.to_uniform(), UniformValue::I32(0));
    assert_eq!(i32::MAX.to_uniform(), UniformValue::I32(i32::MAX));
}

#[test]
fn f32_to_uniform_round_trips() {
    let v = 1.25f32;
    let u = bits(v).to_uniform();
    match u {
        UniformValue::F32(b) => assert_eq!(f32::from_bits(b.bits), 1.25f32),
        _ => panic!("wrong variant"),
    }
}

#[test]
fn i32_vectors_to_uniform() {
    assert_eq!([1i32, 2].to_uniform(), UniformValue::I32Vector2([1, 2]));
    assert_eq!([1i32, 2, 3].to_uniform(), UniformValue::I32Vector3([1, 2, 3]));
    assert_eq!([1i32, 2, 3, 4].to_uniform(), UniformValue::I32Vector4([1, 2, 3, 4]));
}

#[test]
fn f32_vectors_to_uniform() {
    let v2 = [bits(0.5), bits(-1.5)];
    assert_eq!(v2.to_uniform(), UniformValue::F32Vector2(v2));
    let v3 = [bits(0.5), bits(-1.5), bits(2.0)];
    assert_eq!(v3.to_uniform(), UniformValue::F32Vector3(v3));
    let v4 = [bits(0.5), bits(-1.5), bits(2.0), bits(3.5)];
    assert_eq!(v4.to_uniform(), UniformValue::F32Vector4(v4));
}

#[test]
fn f32_vector_elements_round_trip() {
    let u = [bits(0.5), bits(-1.5), bits(2.0)].to_uniform();
    match u {
        UniformValue::F32Vector3(b) => {
            assert_eq!(f32::from_bits(b[0].bits), 0.5f32);
            assert_eq!(f32::from_bits(b[1].bits), -1.5f32);
            assert_eq!(f32::from_bits(b[2].bits), 2.0f32);
        },
        _ => panic!("wrong variant"),
    }
}

#[test]
fn f32_matrices_to_uniform() {
    let m2 = [[bits(1.0), bits(2.0)], [bits(3.0), bits(4.0)]];
    assert_eq!(m2.to_uniform(), UniformValue::F32Matrix2(m2));

    let r3 = [bits(1.0), bits(2.0), bits(3.0)];
    let m3 = [r3, r3, r3];
    assert_eq!(m3.to_uniform(), UniformValue::F32Matrix3(m3));

    let r4 = [bits(1.0), bits(2.0), bits(3.0), bits(4.0)];
    let m4 = [r4, r4, r4, r4];
    assert_eq!(m4.to_uniform(), UniformValue::F32Matrix4(m4));
}

#[test]
fn to_uniform_is_deterministic() {
    assert_eq!(5i32.to_uniform(), 5i32.to_uniform());
    assert_eq!(bits(2.5).to_uniform(), bits(2.5).to_uniform());
    assert_eq!([9i32, 8].to_uniform(), [9i32, 8].to_uniform());
}

#[test]
fn distinct_values_stay_distinct() {
    assert_ne!(1i32.to_uniform(), 2i32.to_uniform());
    assert_ne!(bits(1.0).to_uniform(), bits(-1.0).to_uniform());
    assert_ne!([1i32, 2].to_uniform(), [2i32, 1].to_uniform());
}
