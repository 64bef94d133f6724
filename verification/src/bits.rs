//! Bit-level facts about the xor encoding and the `&` of non-maximal values.

use vstd::prelude::*;

verus! {

/// Xor with a fixed pattern undoes itself and gives zero exactly on the
/// pattern; `&` is at most either operand.
pub proof fn lemma_u8_bits(a: u8, b: u8)
    by (bit_vector)
    ensures
        (a ^ b) ^ b == a,
        (a ^ b == 0) <==> (a == b),
        (a ^ b == b) <==> (a == 0),
        (a & b) <= a,
        (a & b) <= b,
{
}

/// Xor with a fixed pattern undoes itself and gives zero exactly on the
/// pattern; `&` is at most either operand.
pub proof fn lemma_u16_bits(a: u16, b: u16)
    by (bit_vector)
    ensures
        (a ^ b) ^ b == a,
        (a ^ b == 0) <==> (a == b),
        (a ^ b == b) <==> (a == 0),
        (a & b) <= a,
        (a & b) <= b,
{
}

/// Xor with a fixed pattern undoes itself and gives zero exactly on the
/// pattern; `&` is at most either operand.
pub proof fn lemma_u32_bits(a: u32, b: u32)
    by (bit_vector)
    ensures
        (a ^ b) ^ b == a,
        (a ^ b == 0) <==> (a == b),
        (a ^ b == b) <==> (a == 0),
        (a & b) <= a,
        (a & b) <= b,
{
}

/// Xor with a fixed pattern undoes itself and gives zero exactly on the
/// pattern; `&` is at most either operand.
pub proof fn lemma_u64_bits(a: u64, b: u64)
    by (bit_vector)
    ensures
        (a ^ b) ^ b == a,
        (a ^ b == 0) <==> (a == b),
        (a ^ b == b) <==> (a == 0),
        (a & b) <= a,
        (a & b) <= b,
{
}

/// Xor with a fixed pattern undoes itself and gives zero exactly on the
/// pattern; `&` is at most either operand.
pub proof fn lemma_u128_bits(a: u128, b: u128)
    by (bit_vector)
    ensures
        (a ^ b) ^ b == a,
        (a ^ b == 0) <==> (a == b),
        (a ^ b == b) <==> (a == 0),
        (a & b) <= a,
        (a & b) <= b,
{
}

/// Xor with a fixed pattern undoes itself and gives zero exactly on the
/// pattern; `&` is at most either operand.
pub proof fn lemma_usize_bits(a: usize, b: usize)
    by (bit_vector)
    ensures
        (a ^ b) ^ b == a,
        (a ^ b == 0) <==> (a == b),
        (a ^ b == b) <==> (a == 0),
        (a & b) <= a,
        (a & b) <= b,
{
}

/// The xor encoding of an `i8` through its `u8` bit pattern.
pub proof fn lemma_i8_pattern(v: i8, x: u8, b: u8)
    by (bit_vector)
    ensures
        (((v as u8) ^ b) ^ b) as i8 == v,
        (((v as u8) ^ b) == 0) <==> (v == b as i8),
        ((x ^ b) as i8 == v) ==> x == (v as u8) ^ b,
        ((x ^ b) as i8 == b as i8) <==> (x == 0),
        ((x ^ b) as i8) as u8 == x ^ b,
{
}

/// `&` of a non-negative operand lies between zero and it; `&` of two
/// negative operands is negative.
pub proof fn lemma_i8_and(a: i8, c: i8)
    by (bit_vector)
    ensures
        a >= 0 ==> 0 <= (a & c) && (a & c) <= a,
        c >= 0 ==> 0 <= (a & c) && (a & c) <= c,
        (a < 0 && c < 0) ==> (a & c) < 0,
{
}

/// The xor encoding of an `i16` through its `u16` bit pattern.
pub proof fn lemma_i16_pattern(v: i16, x: u16, b: u16)
    by (bit_vector)
    ensures
        (((v as u16) ^ b) ^ b) as i16 == v,
        (((v as u16) ^ b) == 0) <==> (v == b as i16),
        ((x ^ b) as i16 == v) ==> x == (v as u16) ^ b,
        ((x ^ b) as i16 == b as i16) <==> (x == 0),
        ((x ^ b) as i16) as u16 == x ^ b,
{
}

/// `&` of a non-negative operand lies between zero and it; `&` of two
/// negative operands is negative.
pub proof fn lemma_i16_and(a: i16, c: i16)
    by (bit_vector)
    ensures
        a >= 0 ==> 0 <= (a & c) && (a & c) <= a,
        c >= 0 ==> 0 <= (a & c) && (a & c) <= c,
        (a < 0 && c < 0) ==> (a & c) < 0,
{
}

/// The xor encoding of an `i32` through its `u32` bit pattern.
pub proof fn lemma_i32_pattern(v: i32, x: u32, b: u32)
    by (bit_vector)
    ensures
        (((v as u32) ^ b) ^ b) as i32 == v,
        (((v as u32) ^ b) == 0) <==> (v == b as i32),
        ((x ^ b) as i32 == v) ==> x == (v as u32) ^ b,
        ((x ^ b) as i32 == b as i32) <==> (x == 0),
        ((x ^ b) as i32) as u32 == x ^ b,
{
}

/// `&` of a non-negative operand lies between zero and it; `&` of two
/// negative operands is negative.
pub proof fn lemma_i32_and(a: i32, c: i32)
    by (bit_vector)
    ensures
        a >= 0 ==> 0 <= (a & c) && (a & c) <= a,
        c >= 0 ==> 0 <= (a & c) && (a & c) <= c,
        (a < 0 && c < 0) ==> (a & c) < 0,
{
}

/// The xor encoding of an `i64` through its `u64` bit pattern.
pub proof fn lemma_i64_pattern(v: i64, x: u64, b: u64)
    by (bit_vector)
    ensures
        (((v as u64) ^ b) ^ b) as i64 == v,
        (((v as u64) ^ b) == 0) <==> (v == b as i64),
        ((x ^ b) as i64 == v) ==> x == (v as u64) ^ b,
        ((x ^ b) as i64 == b as i64) <==> (x == 0),
        ((x ^ b) as i64) as u64 == x ^ b,
{
}

/// `&` of a non-negative operand lies between zero and it; `&` of two
/// negative operands is negative.
pub proof fn lemma_i64_and(a: i64, c: i64)
    by (bit_vector)
    ensures
        a >= 0 ==> 0 <= (a & c) && (a & c) <= a,
        c >= 0 ==> 0 <= (a & c) && (a & c) <= c,
        (a < 0 && c < 0) ==> (a & c) < 0,
{
}

/// The xor encoding of an `i128` through its `u128` bit pattern.
pub proof fn lemma_i128_pattern(v: i128, x: u128, b: u128)
    by (bit_vector)
    ensures
        (((v as u128) ^ b) ^ b) as i128 == v,
        (((v as u128) ^ b) == 0) <==> (v == b as i128),
        ((x ^ b) as i128 == v) ==> x == (v as u128) ^ b,
        ((x ^ b) as i128 == b as i128) <==> (x == 0),
        ((x ^ b) as i128) as u128 == x ^ b,
{
}

/// `&` of a non-negative operand lies between zero and it; `&` of two
/// negative operands is negative.
pub proof fn lemma_i128_and(a: i128, c: i128)
    by (bit_vector)
    ensures
        a >= 0 ==> 0 <= (a & c) && (a & c) <= a,
        c >= 0 ==> 0 <= (a & c) && (a & c) <= c,
        (a < 0 && c < 0) ==> (a & c) < 0,
{
}

/// The xor encoding of an `isize` through its `usize` bit pattern.
pub proof fn lemma_isize_pattern(v: isize, x: usize, b: usize)
    by (bit_vector)
    ensures
        (((v as usize) ^ b) ^ b) as isize == v,
        (((v as usize) ^ b) == 0) <==> (v == b as isize),
        ((x ^ b) as isize == v) ==> x == (v as usize) ^ b,
        ((x ^ b) as isize == b as isize) <==> (x == 0),
        ((x ^ b) as isize) as usize == x ^ b,
{
}

/// `&` of a non-negative operand lies between zero and it; `&` of two
/// negative operands is negative.
pub proof fn lemma_isize_and(a: isize, c: isize)
    by (bit_vector)
    ensures
        a >= 0 ==> 0 <= (a & c) && (a & c) <= a,
        c >= 0 ==> 0 <= (a & c) && (a & c) <= c,
        (a < 0 && c < 0) ==> (a & c) < 0,
{
}

} // verus!
