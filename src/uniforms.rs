//! The values that can be uploaded to a uniform.
//!
//! Floating-point components are held as their IEEE-754 bit patterns (`f32::to_bits`), so two
//! values are equal when their bits are.
use vstd::prelude::*;

verus! {

/// A value uploaded to a uniform.
#[derive(Clone, Copy, Debug)]
pub enum UniformValue {
    SignedInt(i32),
    UnsignedInt(u32),
    Float(u32),
    /// A 2x2 matrix, column by column.
    Mat2([u32; 4]),
    /// A 3x3 matrix, column by column.
    Mat3([u32; 9]),
    /// A 4x4 matrix, column by column.
    Mat4([u32; 16]),
    Vec2([u32; 2]),
    Vec3([u32; 3]),
    Vec4([u32; 4]),
    /// A texture binding, by the texture's native name. Such values are never compared.
    Texture(u32),
}

/// Whether a value can be compared with the one uploaded before.
pub open spec fn is_comparable(v: UniformValue) -> bool {
    !(v is Texture)
}

/// Whether two values are of the same kind and hold the same numbers. Texture bindings are
/// never the same.
pub open spec fn same_value(a: UniformValue, b: UniformValue) -> bool {
    match (a, b) {
        (UniformValue::SignedInt(x), UniformValue::SignedInt(y)) => x == y,
        (UniformValue::UnsignedInt(x), UniformValue::UnsignedInt(y)) => x == y,
        (UniformValue::Float(x), UniformValue::Float(y)) => x == y,
        (UniformValue::Mat2(x), UniformValue::Mat2(y)) => x@ == y@,
        (UniformValue::Mat3(x), UniformValue::Mat3(y)) => x@ == y@,
        (UniformValue::Mat4(x), UniformValue::Mat4(y)) => x@ == y@,
        (UniformValue::Vec2(x), UniformValue::Vec2(y)) => x@ == y@,
        (UniformValue::Vec3(x), UniformValue::Vec3(y)) => x@ == y@,
        (UniformValue::Vec4(x), UniformValue::Vec4(y)) => x@ == y@,
        _ => false,
    }
}

fn same_components<const N: usize>(a: &[u32; N], b: &[u32; N]) -> (r: bool)
    ensures
        r == (a@ == b@),
{
    let mut i: usize = 0;
    while i < N
        invariant
            i <= N,
            a@.len() == N,
            b@.len() == N,
            forall|j: int| 0 <= j < i ==> a@[j] == b@[j],
        decreases N - i,
    {
        if a[i] != b[i] {
            return false;
        }
        i += 1;
    }
    assert(a@ =~= b@);
    true
}

impl UniformValue {
    /// Whether `self` and `other` are of the same kind and hold the same numbers.
    pub fn same_as(&self, other: &UniformValue) -> (r: bool)
        ensures
            r == same_value(*self, *other),
    {
        match (self, other) {
            (UniformValue::SignedInt(x), UniformValue::SignedInt(y)) => *x == *y,
            (UniformValue::UnsignedInt(x), UniformValue::UnsignedInt(y)) => *x == *y,
            (UniformValue::Float(x), UniformValue::Float(y)) => *x == *y,
            (UniformValue::Mat2(x), UniformValue::Mat2(y)) => same_components(x, y),
            (UniformValue::Mat3(x), UniformValue::Mat3(y)) => same_components(x, y),
            (UniformValue::Mat4(x), UniformValue::Mat4(y)) => same_components(x, y),
            (UniformValue::Vec2(x), UniformValue::Vec2(y)) => same_components(x, y),
            (UniformValue::Vec3(x), UniformValue::Vec3(y)) => same_components(x, y),
            (UniformValue::Vec4(x), UniformValue::Vec4(y)) => same_components(x, y),
            _ => false,
        }
    }
}

} // verus!
