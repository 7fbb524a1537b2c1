//! Bit-level helpers on which the flag translations are built.
use vstd::prelude::*;

verus! {

/// Bit `n` (counted from the least significant bit) of a 16-bit word.
pub open spec fn bit16(bv: u16, n: u16) -> bool {
    bv & (1u16 << n) != 0u16
}

/// Bit `n` (counted from the least significant bit) of a 32-bit word.
pub open spec fn bit32(bv: u32, n: u32) -> bool {
    bv & (1u32 << n) != 0u32
}

/// Whether bit `n` of `bv` is set.
pub fn nth_bit_set(bv: u16, n: i32) -> (r: bool)
    requires
        0 <= n < 16,
    ensures
        r == bit16(bv, n as u16),
{
    bv & (1u16 << (n as u16)) != 0
}

/// Whether bit `n` of the 32-bit word `bv` is set.
pub fn nth_bit_set_u32(bv: u32, n: u32) -> (r: bool)
    requires
        n < 32,
    ensures
        r == bit32(bv, n),
{
    bv & (1u32 << n) != 0
}

/// `bv` with bit `n` set.
pub fn with_nth_bit_set(bv: u16, n: i32) -> (r: u16)
    requires
        0 <= n < 16,
    ensures
        r == bv | (1u16 << (n as u16)),
{
    bv | (1u16 << (n as u16))
}

/// Whether every bit of `flag` is set in `bv`.
pub fn flag_set(bv: i32, flag: i32) -> (r: bool)
    ensures
        r == ((bv & flag) == flag),
{
    (bv & flag) == flag
}

pub fn bitwise_and(bv1: i32, bv2: i32) -> (r: i32)
    ensures
        r == bv1 & bv2,
{
    bv1 & bv2
}

pub fn bitwise_and_i16(bv1: i16, bv2: i16) -> (r: i16)
    ensures
        r == bv1 & bv2,
{
    bv1 & bv2
}

pub fn bitwise_and_u16(bv1: u16, bv2: u16) -> (r: u16)
    ensures
        r == bv1 & bv2,
{
    bv1 & bv2
}

pub fn bitwise_and_u32(bv1: u32, bv2: u32) -> (r: u32)
    ensures
        r == bv1 & bv2,
{
    bv1 & bv2
}

pub fn bitwise_and_u64(bv1: u64, bv2: u64) -> (r: u64)
    ensures
        r == bv1 & bv2,
{
    bv1 & bv2
}

pub fn bitwise_or(bv1: i32, bv2: i32) -> (r: i32)
    ensures
        r == bv1 | bv2,
{
    bv1 | bv2
}

pub fn bitwise_or_u32(bv1: u32, bv2: u32) -> (r: u32)
    ensures
        r == bv1 | bv2,
{
    bv1 | bv2
}

} // verus!
