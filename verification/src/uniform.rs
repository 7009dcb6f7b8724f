//! The typed value representation unifying all uniform kinds, and the
//! conversion from native values into it.

use vstd::prelude::*;

verus! {

/// A 32-bit IEEE 754 value carried opaquely as its bit pattern.
///
/// The parameter machinery never interprets the number: it stores the value
/// and forwards it to the device layer unchanged, so the bit pattern is the
/// exact representation.
#[derive(Clone, Copy, PartialEq, Eq, Structural, Debug)]
pub struct F32Bits {
    /// The raw bit pattern of the floating-point value.
    pub bits: u32,
}

/// A single shader-uniform value: one active variant among the fixed set of
/// scalar, vector and matrix payload kinds. Immutable once constructed and
/// copied by value.
#[derive(Clone, Copy, PartialEq, Debug)]
pub enum UniformValue {
    /// 32-bit signed integer scalar.
    I32(i32),
    /// 32-bit float scalar.
    F32(F32Bits),
    /// Integer vector of length 2.
    I32Vector2([i32; 2]),
    /// Integer vector of length 3.
    I32Vector3([i32; 3]),
    /// Integer vector of length 4.
    I32Vector4([i32; 4]),
    /// Float vector of length 2.
    F32Vector2([F32Bits; 2]),
    /// Float vector of length 3.
    F32Vector3([F32Bits; 3]),
    /// Float vector of length 4.
    F32Vector4([F32Bits; 4]),
    /// Float matrix of size 2x2.
    F32Matrix2([[F32Bits; 2]; 2]),
    /// Float matrix of size 3x3.
    F32Matrix3([[F32Bits; 3]; 3]),
    /// Float matrix of size 4x4.
    F32Matrix4([[F32Bits; 4]; 4]),
}

/// Helper trait to transform base types into their corresponding uniforms.
///
/// The conversion is pure and total: each supported native type maps to
/// exactly one variant of [`UniformValue`], and no element of the payload is
/// altered on the way. Unsupported types simply do not implement the trait,
/// so a mistaken conversion is rejected when the program is built, not at
/// run time.
pub trait ToUniform: Sized {
    /// The uniform this value converts to.
    spec fn uniform_spec(&self) -> UniformValue;

    /// Create a `UniformValue` representing this value.
    fn to_uniform(&self) -> (r: UniformValue)
        ensures
            r == self.uniform_spec(),
    ;

    /// The conversion loses no precision or shape: two values that convert
    /// to the same uniform were equal to begin with.
    proof fn lemma_to_uniform_lossless(a: Self, b: Self)
        requires
            a.uniform_spec() == b.uniform_spec(),
        ensures
            a == b,
    ;
}

impl ToUniform for i32 {
    open spec fn uniform_spec(&self) -> UniformValue {
        UniformValue::I32(*self)
    }

    fn to_uniform(&self) -> (r: UniformValue) {
        UniformValue::I32(*self)
    }

    proof fn lemma_to_uniform_lossless(a: Self, b: Self) {
    }
}

impl ToUniform for F32Bits {
    open spec fn uniform_spec(&self) -> UniformValue {
        UniformValue::F32(*self)
    }

    fn to_uniform(&self) -> (r: UniformValue) {
        UniformValue::F32(*self)
    }

    proof fn lemma_to_uniform_lossless(a: Self, b: Self) {
    }
}

impl ToUniform for [i32; 2] {
    open spec fn uniform_spec(&self) -> UniformValue {
        UniformValue::I32Vector2(*self)
    }

    fn to_uniform(&self) -> (r: UniformValue) {
        UniformValue::I32Vector2(*self)
    }

    proof fn lemma_to_uniform_lossless(a: Self, b: Self) {
    }
}

impl ToUniform for [i32; 3] {
    open spec fn uniform_spec(&self) -> UniformValue {
        UniformValue::I32Vector3(*self)
    }

    fn to_uniform(&self) -> (r: UniformValue) {
        UniformValue::I32Vector3(*self)
    }

    proof fn lemma_to_uniform_lossless(a: Self, b: Self) {
    }
}

impl ToUniform for [i32; 4] {
    open spec fn uniform_spec(&self) -> UniformValue {
        UniformValue::I32Vector4(*self)
    }

    fn to_uniform(&self) -> (r: UniformValue) {
        UniformValue::I32Vector4(*self)
    }

    proof fn lemma_to_uniform_lossless(a: Self, b: Self) {
    }
}

impl ToUniform for [F32Bits; 2] {
    open spec fn uniform_spec(&self) -> UniformValue {
        UniformValue::F32Vector2(*self)
    }

    fn to_uniform(&self) -> (r: UniformValue) {
        UniformValue::F32Vector2(*self)
    }

    proof fn lemma_to_uniform_lossless(a: Self, b: Self) {
    }
}

impl ToUniform for [F32Bits; 3] {
    open spec fn uniform_spec(&self) -> UniformValue {
        UniformValue::F32Vector3(*self)
    }

    fn to_uniform(&self) -> (r: UniformValue) {
        UniformValue::F32Vector3(*self)
    }

    proof fn lemma_to_uniform_lossless(a: Self, b: Self) {
    }
}

impl ToUniform for [F32Bits; 4] {
    open spec fn uniform_spec(&self) -> UniformValue {
        UniformValue::F32Vector4(*self)
    }

    fn to_uniform(&self) -> (r: UniformValue) {
        UniformValue::F32Vector4(*self)
    }

    proof fn lemma_to_uniform_lossless(a: Self, b: Self) {
    }
}

impl ToUniform for [[F32Bits; 2]; 2] {
    open spec fn uniform_spec(&self) -> UniformValue {
        UniformValue::F32Matrix2(*self)
    }

    fn to_uniform(&self) -> (r: UniformValue) {
        UniformValue::F32Matrix2(*self)
    }

    proof fn lemma_to_uniform_lossless(a: Self, b: Self) {
    }
}

impl ToUniform for [[F32Bits; 3]; 3] {
    open spec fn uniform_spec(&self) -> UniformValue {
        UniformValue::F32Matrix3(*self)
    }

    fn to_uniform(&self) -> (r: UniformValue) {
        UniformValue::F32Matrix3(*self)
    }

    proof fn lemma_to_uniform_lossless(a: Self, b: Self) {
    }
}

impl ToUniform for [[F32Bits; 4]; 4] {
    open spec fn uniform_spec(&self) -> UniformValue {
        UniformValue::F32Matrix4(*self)
    }

    fn to_uniform(&self) -> (r: UniformValue) {
        UniformValue::F32Matrix4(*self)
    }

    proof fn lemma_to_uniform_lossless(a: Self, b: Self) {
    }
}

} // verus!
