//! Narrowing of integers, and floating point numbers taken apart.

use vstd::prelude::*;
use crate::value::FloatParts;

verus! {

/// The lowest eight bits.
pub(crate) fn low_u8(n: u32) -> (r: u8)
    ensures
        r == n % 0x100,
{
    assert(n as u8 == n % 0x100) by (bit_vector);
    n as u8
}

/// The lowest sixteen bits.
pub(crate) fn low_u16(n: u32) -> (r: u16)
    ensures
        r == n % 0x1_0000,
{
    assert(n as u16 == n % 0x1_0000) by (bit_vector);
    n as u16
}

/// The mantissa, exponent of two and sign of the single precision number with the bits `bits`.
///
/// The number is mantissa times two to the exponent times sign, unless it is infinite or not a
/// number; those carry the largest exponent, 105.
pub open spec fn parts32(bits: u32) -> FloatParts {
    let field = (bits / 0x80_0000) % 0x100;
    let fraction = bits % 0x80_0000;
    (
        if field == 0 {
            (2 * fraction) as u64
        } else {
            (fraction + 0x80_0000) as u64
        },
        (field - 150) as i16,
        if bits < 0x8000_0000 {
            1i8
        } else {
            -1i8
        },
    )
}

/// The mantissa, exponent of two and sign of the double precision number with the bits `bits`.
///
/// The number is mantissa times two to the exponent times sign, unless it is infinite or not a
/// number; those carry the largest exponent, 972.
pub open spec fn parts64(bits: u64) -> FloatParts {
    let field = (bits / 0x10_0000_0000_0000) % 0x800;
    let fraction = bits % 0x10_0000_0000_0000;
    (
        if field == 0 {
            (2 * fraction) as u64
        } else {
            (fraction + 0x10_0000_0000_0000) as u64
        },
        (field - 1075) as i16,
        if bits < 0x8000_0000_0000_0000 {
            1i8
        } else {
            -1i8
        },
    )
}

/// Takes a single precision number apart.
pub fn decode_f32_bits(bits: u32) -> (parts: FloatParts)
    ensures
        parts == parts32(bits),
{
    let field: u32 = (bits / 0x80_0000) % 0x100;
    let fraction: u32 = bits % 0x80_0000;
    let mantissa: u32 = if field == 0 { 2 * fraction } else { fraction + 0x80_0000 };
    let sign: i8 = if bits < 0x8000_0000 { 1 } else { -1 };
    (mantissa as u64, field as i16 - 150, sign)
}

/// Takes a double precision number apart.
pub fn decode_f64_bits(bits: u64) -> (parts: FloatParts)
    ensures
        parts == parts64(bits),
{
    let field: u64 = (bits / 0x10_0000_0000_0000) % 0x800;
    let fraction: u64 = bits % 0x10_0000_0000_0000;
    let mantissa: u64 = if field == 0 { 2 * fraction } else { fraction + 0x10_0000_0000_0000 };
    let sign: i8 = if bits < 0x8000_0000_0000_0000 { 1 } else { -1 };
    (mantissa, field as i16 - 1075, sign)
}

/// Taking a single precision number apart loses nothing: different numbers have different parts.
pub proof fn law_parts32_injective(a: u32, b: u32)
    requires
        parts32(a) == parts32(b),
    ensures
        a == b,
{
}

/// Taking a double precision number apart loses nothing: different numbers have different parts.
pub proof fn law_parts64_injective(a: u64, b: u64)
    requires
        parts64(a) == parts64(b),
    ensures
        a == b,
{
}

/// The parts of a single precision number are those of which its bits are made: the sign, the
/// exponent above its lowest value, and the mantissa without its leading bit. Where the exponent is
/// lowest there is no leading bit, and the mantissa is doubled.
pub proof fn law_bits_are_made_of_parts32(bits: u32)
    ensures
        ({
            let (mantissa, exponent, sign) = parts32(bits);
            &&& sign == 1 || sign == -1
            &&& -150 <= exponent <= 105
            &&& exponent > -150 ==> 0x80_0000 <= mantissa < 0x100_0000
            &&& exponent == -150 ==> mantissa % 2 == 0 && mantissa < 0x100_0000
            &&& bits == (if sign == 1 {
                0int
            } else {
                0x8000_0000
            }) + (exponent + 150) * 0x80_0000 + (if exponent == -150 {
                mantissa as int / 2
            } else {
                mantissa - 0x80_0000
            })
        }),
{
}

/// The parts of a double precision number are those of which its bits are made: the sign, the
/// exponent above its lowest value, and the mantissa without its leading bit. Where the exponent is
/// lowest there is no leading bit, and the mantissa is doubled.
pub proof fn law_bits_are_made_of_parts64(bits: u64)
    ensures
        ({
            let (mantissa, exponent, sign) = parts64(bits);
            &&& sign == 1 || sign == -1
            &&& -1075 <= exponent <= 972
            &&& exponent > -1075 ==> 0x10_0000_0000_0000 <= mantissa < 0x20_0000_0000_0000
            &&& exponent == -1075 ==> mantissa % 2 == 0 && mantissa < 0x20_0000_0000_0000
            &&& bits == (if sign == 1 {
                0int
            } else {
                0x8000_0000_0000_0000
            }) + (exponent + 1075) * 0x10_0000_0000_0000 + (if exponent == -1075 {
                mantissa as int / 2
            } else {
                mantissa - 0x10_0000_0000_0000
            })
        }),
{
}

} // verus!
