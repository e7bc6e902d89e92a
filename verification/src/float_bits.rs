//! Single-precision floats as they travel on the wire: their IEEE 754 bit
//! patterns. Sign in bit 31, biased exponent in bits 23 to 30, fraction in
//! bits 0 to 22.

use vstd::prelude::*;

verus! {

/// The IEEE 754 binary32 bit pattern of a float field.
pub type F32Bits = u32;

/// The biased exponent of a binary32 bit pattern.
pub open spec fn f32_exponent(b: F32Bits) -> u32 {
    (b >> 23u32) & 0xffu32
}

/// A binary32 value is finite (neither infinite nor NaN) exactly when its
/// exponent is not all ones.
pub open spec fn f32_finite(b: F32Bits) -> bool {
    f32_exponent(b) != 0xffu32
}

/// Whether the float with bit pattern `b` is finite.
pub fn is_finite(b: F32Bits) -> (r: bool)
    ensures
        r == f32_finite(b),
{
    (b >> 23u32) & 0xffu32 != 0xffu32
}

/// Whether all three floats with bit patterns in `v` are finite.
pub fn all_finite3(v: &[F32Bits; 3]) -> (r: bool)
    ensures
        r == (f32_finite(v[0]) && f32_finite(v[1]) && f32_finite(v[2])),
{
    is_finite(v[0]) && is_finite(v[1]) && is_finite(v[2])
}

/// A binary32 value is NaN when its exponent is all ones and its fraction is
/// not zero.
pub open spec fn f32_is_nan(b: F32Bits) -> bool {
    f32_exponent(b) == 0xffu32 && b & 0x7f_ffffu32 != 0u32
}

/// IEEE 754 equality of two binary32 values: neither is NaN, and they have
/// the same bits or are both zeros (of either sign).
pub open spec fn f32_eq(a: F32Bits, b: F32Bits) -> bool {
    !f32_is_nan(a) && !f32_is_nan(b) && (a == b || (a & 0x7fff_ffffu32 == 0u32 && b & 0x7fff_ffffu32
        == 0u32))
}

/// Whether the floats with bit patterns `a` and `b` compare equal.
pub fn float_eq(a: F32Bits, b: F32Bits) -> (r: bool)
    ensures
        r == f32_eq(a, b),
{
    let a_nan = (a >> 23u32) & 0xffu32 == 0xffu32 && a & 0x7f_ffffu32 != 0u32;
    let b_nan = (b >> 23u32) & 0xffu32 == 0xffu32 && b & 0x7f_ffffu32 != 0u32;
    !a_nan && !b_nan && (a == b || (a & 0x7fff_ffffu32 == 0u32 && b & 0x7fff_ffffu32 == 0u32))
}

/// Float equality is symmetric, and a value equals itself exactly when it is
/// not NaN; so a command equals itself exactly when none of its floats is NaN.
pub proof fn lemma_f32_eq_laws(a: F32Bits, b: F32Bits)
    ensures
        f32_eq(a, b) == f32_eq(b, a),
        f32_eq(a, a) == !f32_is_nan(a),
{
}

} // verus!
