//! Widening conversions into `NonMax` types: a smaller type's value is always
//! below the larger type's maximum, so the conversion cannot fail.

use vstd::prelude::*;
use vstd::std_specs::convert::FromSpecImpl;
use crate::nonvalue_i128::NonMaxI128;
use crate::nonvalue_i16::NonMaxI16;
use crate::nonvalue_i32::NonMaxI32;
use crate::nonvalue_i64::NonMaxI64;
use crate::nonvalue_i8::NonMaxI8;
use crate::nonvalue_isize::NonMaxIsize;
use crate::nonvalue_u128::NonMaxU128;
use crate::nonvalue_u16::NonMaxU16;
use crate::nonvalue_u32::NonMaxU32;
use crate::nonvalue_u64::NonMaxU64;
use crate::nonvalue_u8::NonMaxU8;
use crate::nonvalue_usize::NonMaxUsize;
use crate::nonvalue_isize::{NonValueIsize, ISIZE_MAX_BITS};

verus! {

impl From<NonMaxU8> for NonMaxU16 {
    fn from(small: NonMaxU8) -> (r: Self)
        ensures
            r@ == small@ as u16,
    {
        Self::new_unchecked(small.get() as u16)
    }
}

impl FromSpecImpl<NonMaxU8> for NonMaxU16 {
    open spec fn obeys_from_spec() -> bool {
        true
    }

    open spec fn from_spec(small: NonMaxU8) -> Self {
        NonMaxU16::of(small@ as u16)
    }
}

impl From<NonMaxU8> for NonMaxU32 {
    fn from(small: NonMaxU8) -> (r: Self)
        ensures
            r@ == small@ as u32,
    {
        Self::new_unchecked(small.get() as u32)
    }
}

impl FromSpecImpl<NonMaxU8> for NonMaxU32 {
    open spec fn obeys_from_spec() -> bool {
        true
    }

    open spec fn from_spec(small: NonMaxU8) -> Self {
        NonMaxU32::of(small@ as u32)
    }
}

impl From<NonMaxU8> for NonMaxU64 {
    fn from(small: NonMaxU8) -> (r: Self)
        ensures
            r@ == small@ as u64,
    {
        Self::new_unchecked(small.get() as u64)
    }
}

impl FromSpecImpl<NonMaxU8> for NonMaxU64 {
    open spec fn obeys_from_spec() -> bool {
        true
    }

    open spec fn from_spec(small: NonMaxU8) -> Self {
        NonMaxU64::of(small@ as u64)
    }
}

impl From<NonMaxU8> for NonMaxU128 {
    fn from(small: NonMaxU8) -> (r: Self)
        ensures
            r@ == small@ as u128,
    {
        Self::new_unchecked(small.get() as u128)
    }
}

impl FromSpecImpl<NonMaxU8> for NonMaxU128 {
    open spec fn obeys_from_spec() -> bool {
        true
    }

    open spec fn from_spec(small: NonMaxU8) -> Self {
        NonMaxU128::of(small@ as u128)
    }
}

impl From<NonMaxU8> for NonMaxUsize {
    fn from(small: NonMaxU8) -> (r: Self)
        ensures
            r@ == small@ as usize,
    {
        Self::new_unchecked(small.get() as usize)
    }
}

impl FromSpecImpl<NonMaxU8> for NonMaxUsize {
    open spec fn obeys_from_spec() -> bool {
        true
    }

    open spec fn from_spec(small: NonMaxU8) -> Self {
        NonMaxUsize::of(small@ as usize)
    }
}

impl From<NonMaxU16> for NonMaxU32 {
    fn from(small: NonMaxU16) -> (r: Self)
        ensures
            r@ == small@ as u32,
    {
        Self::new_unchecked(small.get() as u32)
    }
}

impl FromSpecImpl<NonMaxU16> for NonMaxU32 {
    open spec fn obeys_from_spec() -> bool {
        true
    }

    open spec fn from_spec(small: NonMaxU16) -> Self {
        NonMaxU32::of(small@ as u32)
    }
}

impl From<NonMaxU16> for NonMaxU64 {
    fn from(small: NonMaxU16) -> (r: Self)
        ensures
            r@ == small@ as u64,
    {
        Self::new_unchecked(small.get() as u64)
    }
}

impl FromSpecImpl<NonMaxU16> for NonMaxU64 {
    open spec fn obeys_from_spec() -> bool {
        true
    }

    open spec fn from_spec(small: NonMaxU16) -> Self {
        NonMaxU64::of(small@ as u64)
    }
}

impl From<NonMaxU16> for NonMaxU128 {
    fn from(small: NonMaxU16) -> (r: Self)
        ensures
            r@ == small@ as u128,
    {
        Self::new_unchecked(small.get() as u128)
    }
}

impl FromSpecImpl<NonMaxU16> for NonMaxU128 {
    open spec fn obeys_from_spec() -> bool {
        true
    }

    open spec fn from_spec(small: NonMaxU16) -> Self {
        NonMaxU128::of(small@ as u128)
    }
}

impl From<NonMaxU16> for NonMaxUsize {
    fn from(small: NonMaxU16) -> (r: Self)
        ensures
            r@ == small@ as usize,
    {
        Self::new_unchecked(small.get() as usize)
    }
}

impl FromSpecImpl<NonMaxU16> for NonMaxUsize {
    open spec fn obeys_from_spec() -> bool {
        true
    }

    open spec fn from_spec(small: NonMaxU16) -> Self {
        NonMaxUsize::of(small@ as usize)
    }
}

impl From<NonMaxU32> for NonMaxU64 {
    fn from(small: NonMaxU32) -> (r: Self)
        ensures
            r@ == small@ as u64,
    {
        Self::new_unchecked(small.get() as u64)
    }
}

impl FromSpecImpl<NonMaxU32> for NonMaxU64 {
    open spec fn obeys_from_spec() -> bool {
        true
    }

    open spec fn from_spec(small: NonMaxU32) -> Self {
        NonMaxU64::of(small@ as u64)
    }
}

impl From<NonMaxU32> for NonMaxU128 {
    fn from(small: NonMaxU32) -> (r: Self)
        ensures
            r@ == small@ as u128,
    {
        Self::new_unchecked(small.get() as u128)
    }
}

impl FromSpecImpl<NonMaxU32> for NonMaxU128 {
    open spec fn obeys_from_spec() -> bool {
        true
    }

    open spec fn from_spec(small: NonMaxU32) -> Self {
        NonMaxU128::of(small@ as u128)
    }
}

impl From<NonMaxU64> for NonMaxU128 {
    fn from(small: NonMaxU64) -> (r: Self)
        ensures
            r@ == small@ as u128,
    {
        Self::new_unchecked(small.get() as u128)
    }
}

impl FromSpecImpl<NonMaxU64> for NonMaxU128 {
    open spec fn obeys_from_spec() -> bool {
        true
    }

    open spec fn from_spec(small: NonMaxU64) -> Self {
        NonMaxU128::of(small@ as u128)
    }
}

impl From<NonMaxI8> for NonMaxI16 {
    fn from(small: NonMaxI8) -> (r: Self)
        ensures
            r@ == small@ as i16,
    {
        Self::new_unchecked(small.get() as i16)
    }
}

impl FromSpecImpl<NonMaxI8> for NonMaxI16 {
    open spec fn obeys_from_spec() -> bool {
        true
    }

    open spec fn from_spec(small: NonMaxI8) -> Self {
        NonMaxI16::of(small@ as i16)
    }
}

impl From<NonMaxI8> for NonMaxI32 {
    fn from(small: NonMaxI8) -> (r: Self)
        ensures
            r@ == small@ as i32,
    {
        Self::new_unchecked(small.get() as i32)
    }
}

impl FromSpecImpl<NonMaxI8> for NonMaxI32 {
    open spec fn obeys_from_spec() -> bool {
        true
    }

    open spec fn from_spec(small: NonMaxI8) -> Self {
        NonMaxI32::of(small@ as i32)
    }
}

impl From<NonMaxI8> for NonMaxI64 {
    fn from(small: NonMaxI8) -> (r: Self)
        ensures
            r@ == small@ as i64,
    {
        Self::new_unchecked(small.get() as i64)
    }
}

impl FromSpecImpl<NonMaxI8> for NonMaxI64 {
    open spec fn obeys_from_spec() -> bool {
        true
    }

    open spec fn from_spec(small: NonMaxI8) -> Self {
        NonMaxI64::of(small@ as i64)
    }
}

impl From<NonMaxI8> for NonMaxI128 {
    fn from(small: NonMaxI8) -> (r: Self)
        ensures
            r@ == small@ as i128,
    {
        Self::new_unchecked(small.get() as i128)
    }
}

impl FromSpecImpl<NonMaxI8> for NonMaxI128 {
    open spec fn obeys_from_spec() -> bool {
        true
    }

    open spec fn from_spec(small: NonMaxI8) -> Self {
        NonMaxI128::of(small@ as i128)
    }
}

impl From<NonMaxI8> for NonMaxIsize {
    fn from(small: NonMaxI8) -> (r: Self)
        ensures
            r@ == small@ as isize,
    {
        proof {
            NonValueIsize::<ISIZE_MAX_BITS>::lemma_bits_in_range();
        }
        Self::new_unchecked(small.get() as isize)
    }
}

impl FromSpecImpl<NonMaxI8> for NonMaxIsize {
    open spec fn obeys_from_spec() -> bool {
        true
    }

    open spec fn from_spec(small: NonMaxI8) -> Self {
        NonMaxIsize::of(small@ as isize)
    }
}

impl From<NonMaxI16> for NonMaxI32 {
    fn from(small: NonMaxI16) -> (r: Self)
        ensures
            r@ == small@ as i32,
    {
        Self::new_unchecked(small.get() as i32)
    }
}

impl FromSpecImpl<NonMaxI16> for NonMaxI32 {
    open spec fn obeys_from_spec() -> bool {
        true
    }

    open spec fn from_spec(small: NonMaxI16) -> Self {
        NonMaxI32::of(small@ as i32)
    }
}

impl From<NonMaxI16> for NonMaxI64 {
    fn from(small: NonMaxI16) -> (r: Self)
        ensures
            r@ == small@ as i64,
    {
        Self::new_unchecked(small.get() as i64)
    }
}

impl FromSpecImpl<NonMaxI16> for NonMaxI64 {
    open spec fn obeys_from_spec() -> bool {
        true
    }

    open spec fn from_spec(small: NonMaxI16) -> Self {
        NonMaxI64::of(small@ as i64)
    }
}

impl From<NonMaxI16> for NonMaxI128 {
    fn from(small: NonMaxI16) -> (r: Self)
        ensures
            r@ == small@ as i128,
    {
        Self::new_unchecked(small.get() as i128)
    }
}

impl FromSpecImpl<NonMaxI16> for NonMaxI128 {
    open spec fn obeys_from_spec() -> bool {
        true
    }

    open spec fn from_spec(small: NonMaxI16) -> Self {
        NonMaxI128::of(small@ as i128)
    }
}

impl From<NonMaxI16> for NonMaxIsize {
    fn from(small: NonMaxI16) -> (r: Self)
        ensures
            r@ == small@ as isize,
    {
        proof {
            NonValueIsize::<ISIZE_MAX_BITS>::lemma_bits_in_range();
        }
        Self::new_unchecked(small.get() as isize)
    }
}

impl FromSpecImpl<NonMaxI16> for NonMaxIsize {
    open spec fn obeys_from_spec() -> bool {
        true
    }

    open spec fn from_spec(small: NonMaxI16) -> Self {
        NonMaxIsize::of(small@ as isize)
    }
}

impl From<NonMaxI32> for NonMaxI64 {
    fn from(small: NonMaxI32) -> (r: Self)
        ensures
            r@ == small@ as i64,
    {
        Self::new_unchecked(small.get() as i64)
    }
}

impl FromSpecImpl<NonMaxI32> for NonMaxI64 {
    open spec fn obeys_from_spec() -> bool {
        true
    }

    open spec fn from_spec(small: NonMaxI32) -> Self {
        NonMaxI64::of(small@ as i64)
    }
}

impl From<NonMaxI32> for NonMaxI128 {
    fn from(small: NonMaxI32) -> (r: Self)
        ensures
            r@ == small@ as i128,
    {
        Self::new_unchecked(small.get() as i128)
    }
}

impl FromSpecImpl<NonMaxI32> for NonMaxI128 {
    open spec fn obeys_from_spec() -> bool {
        true
    }

    open spec fn from_spec(small: NonMaxI32) -> Self {
        NonMaxI128::of(small@ as i128)
    }
}

impl From<NonMaxI64> for NonMaxI128 {
    fn from(small: NonMaxI64) -> (r: Self)
        ensures
            r@ == small@ as i128,
    {
        Self::new_unchecked(small.get() as i128)
    }
}

impl FromSpecImpl<NonMaxI64> for NonMaxI128 {
    open spec fn obeys_from_spec() -> bool {
        true
    }

    open spec fn from_spec(small: NonMaxI64) -> Self {
        NonMaxI128::of(small@ as i128)
    }
}

impl From<NonMaxU8> for NonMaxI16 {
    fn from(small: NonMaxU8) -> (r: Self)
        ensures
            r@ == small@ as i16,
    {
        Self::new_unchecked(small.get() as i16)
    }
}

impl FromSpecImpl<NonMaxU8> for NonMaxI16 {
    open spec fn obeys_from_spec() -> bool {
        true
    }

    open spec fn from_spec(small: NonMaxU8) -> Self {
        NonMaxI16::of(small@ as i16)
    }
}

impl From<NonMaxU8> for NonMaxI32 {
    fn from(small: NonMaxU8) -> (r: Self)
        ensures
            r@ == small@ as i32,
    {
        Self::new_unchecked(small.get() as i32)
    }
}

impl FromSpecImpl<NonMaxU8> for NonMaxI32 {
    open spec fn obeys_from_spec() -> bool {
        true
    }

    open spec fn from_spec(small: NonMaxU8) -> Self {
        NonMaxI32::of(small@ as i32)
    }
}

impl From<NonMaxU8> for NonMaxI64 {
    fn from(small: NonMaxU8) -> (r: Self)
        ensures
            r@ == small@ as i64,
    {
        Self::new_unchecked(small.get() as i64)
    }
}

impl FromSpecImpl<NonMaxU8> for NonMaxI64 {
    open spec fn obeys_from_spec() -> bool {
        true
    }

    open spec fn from_spec(small: NonMaxU8) -> Self {
        NonMaxI64::of(small@ as i64)
    }
}

impl From<NonMaxU8> for NonMaxI128 {
    fn from(small: NonMaxU8) -> (r: Self)
        ensures
            r@ == small@ as i128,
    {
        Self::new_unchecked(small.get() as i128)
    }
}

impl FromSpecImpl<NonMaxU8> for NonMaxI128 {
    open spec fn obeys_from_spec() -> bool {
        true
    }

    open spec fn from_spec(small: NonMaxU8) -> Self {
        NonMaxI128::of(small@ as i128)
    }
}

impl From<NonMaxU8> for NonMaxIsize {
    fn from(small: NonMaxU8) -> (r: Self)
        ensures
            r@ == small@ as isize,
    {
        proof {
            NonValueIsize::<ISIZE_MAX_BITS>::lemma_bits_in_range();
        }
        Self::new_unchecked(small.get() as isize)
    }
}

impl FromSpecImpl<NonMaxU8> for NonMaxIsize {
    open spec fn obeys_from_spec() -> bool {
        true
    }

    open spec fn from_spec(small: NonMaxU8) -> Self {
        NonMaxIsize::of(small@ as isize)
    }
}

impl From<NonMaxU16> for NonMaxI32 {
    fn from(small: NonMaxU16) -> (r: Self)
        ensures
            r@ == small@ as i32,
    {
        Self::new_unchecked(small.get() as i32)
    }
}

impl FromSpecImpl<NonMaxU16> for NonMaxI32 {
    open spec fn obeys_from_spec() -> bool {
        true
    }

    open spec fn from_spec(small: NonMaxU16) -> Self {
        NonMaxI32::of(small@ as i32)
    }
}

impl From<NonMaxU16> for NonMaxI64 {
    fn from(small: NonMaxU16) -> (r: Self)
        ensures
            r@ == small@ as i64,
    {
        Self::new_unchecked(small.get() as i64)
    }
}

impl FromSpecImpl<NonMaxU16> for NonMaxI64 {
    open spec fn obeys_from_spec() -> bool {
        true
    }

    open spec fn from_spec(small: NonMaxU16) -> Self {
        NonMaxI64::of(small@ as i64)
    }
}

impl From<NonMaxU16> for NonMaxI128 {
    fn from(small: NonMaxU16) -> (r: Self)
        ensures
            r@ == small@ as i128,
    {
        Self::new_unchecked(small.get() as i128)
    }
}

impl FromSpecImpl<NonMaxU16> for NonMaxI128 {
    open spec fn obeys_from_spec() -> bool {
        true
    }

    open spec fn from_spec(small: NonMaxU16) -> Self {
        NonMaxI128::of(small@ as i128)
    }
}

impl From<NonMaxU32> for NonMaxI64 {
    fn from(small: NonMaxU32) -> (r: Self)
        ensures
            r@ == small@ as i64,
    {
        Self::new_unchecked(small.get() as i64)
    }
}

impl FromSpecImpl<NonMaxU32> for NonMaxI64 {
    open spec fn obeys_from_spec() -> bool {
        true
    }

    open spec fn from_spec(small: NonMaxU32) -> Self {
        NonMaxI64::of(small@ as i64)
    }
}

impl From<NonMaxU32> for NonMaxI128 {
    fn from(small: NonMaxU32) -> (r: Self)
        ensures
            r@ == small@ as i128,
    {
        Self::new_unchecked(small.get() as i128)
    }
}

impl FromSpecImpl<NonMaxU32> for NonMaxI128 {
    open spec fn obeys_from_spec() -> bool {
        true
    }

    open spec fn from_spec(small: NonMaxU32) -> Self {
        NonMaxI128::of(small@ as i128)
    }
}

impl From<NonMaxU64> for NonMaxI128 {
    fn from(small: NonMaxU64) -> (r: Self)
        ensures
            r@ == small@ as i128,
    {
        Self::new_unchecked(small.get() as i128)
    }
}

impl FromSpecImpl<NonMaxU64> for NonMaxI128 {
    open spec fn obeys_from_spec() -> bool {
        true
    }

    open spec fn from_spec(small: NonMaxU64) -> Self {
        NonMaxI128::of(small@ as i128)
    }
}

impl From<u8> for NonMaxU16 {
    fn from(small: u8) -> (r: Self)
        ensures
            r@ == small as u16,
    {
        Self::new_unchecked(small as u16)
    }
}

impl FromSpecImpl<u8> for NonMaxU16 {
    open spec fn obeys_from_spec() -> bool {
        true
    }

    open spec fn from_spec(small: u8) -> Self {
        NonMaxU16::of(small as u16)
    }
}

impl From<u8> for NonMaxU32 {
    fn from(small: u8) -> (r: Self)
        ensures
            r@ == small as u32,
    {
        Self::new_unchecked(small as u32)
    }
}

impl FromSpecImpl<u8> for NonMaxU32 {
    open spec fn obeys_from_spec() -> bool {
        true
    }

    open spec fn from_spec(small: u8) -> Self {
        NonMaxU32::of(small as u32)
    }
}

impl From<u8> for NonMaxU64 {
    fn from(small: u8) -> (r: Self)
        ensures
            r@ == small as u64,
    {
        Self::new_unchecked(small as u64)
    }
}

impl FromSpecImpl<u8> for NonMaxU64 {
    open spec fn obeys_from_spec() -> bool {
        true
    }

    open spec fn from_spec(small: u8) -> Self {
        NonMaxU64::of(small as u64)
    }
}

impl From<u8> for NonMaxU128 {
    fn from(small: u8) -> (r: Self)
        ensures
            r@ == small as u128,
    {
        Self::new_unchecked(small as u128)
    }
}

impl FromSpecImpl<u8> for NonMaxU128 {
    open spec fn obeys_from_spec() -> bool {
        true
    }

    open spec fn from_spec(small: u8) -> Self {
        NonMaxU128::of(small as u128)
    }
}

impl From<u8> for NonMaxUsize {
    fn from(small: u8) -> (r: Self)
        ensures
            r@ == small as usize,
    {
        Self::new_unchecked(small as usize)
    }
}

impl FromSpecImpl<u8> for NonMaxUsize {
    open spec fn obeys_from_spec() -> bool {
        true
    }

    open spec fn from_spec(small: u8) -> Self {
        NonMaxUsize::of(small as usize)
    }
}

impl From<u16> for NonMaxU32 {
    fn from(small: u16) -> (r: Self)
        ensures
            r@ == small as u32,
    {
        Self::new_unchecked(small as u32)
    }
}

impl FromSpecImpl<u16> for NonMaxU32 {
    open spec fn obeys_from_spec() -> bool {
        true
    }

    open spec fn from_spec(small: u16) -> Self {
        NonMaxU32::of(small as u32)
    }
}

impl From<u16> for NonMaxU64 {
    fn from(small: u16) -> (r: Self)
        ensures
            r@ == small as u64,
    {
        Self::new_unchecked(small as u64)
    }
}

impl FromSpecImpl<u16> for NonMaxU64 {
    open spec fn obeys_from_spec() -> bool {
        true
    }

    open spec fn from_spec(small: u16) -> Self {
        NonMaxU64::of(small as u64)
    }
}

impl From<u16> for NonMaxU128 {
    fn from(small: u16) -> (r: Self)
        ensures
            r@ == small as u128,
    {
        Self::new_unchecked(small as u128)
    }
}

impl FromSpecImpl<u16> for NonMaxU128 {
    open spec fn obeys_from_spec() -> bool {
        true
    }

    open spec fn from_spec(small: u16) -> Self {
        NonMaxU128::of(small as u128)
    }
}

impl From<u16> for NonMaxUsize {
    fn from(small: u16) -> (r: Self)
        ensures
            r@ == small as usize,
    {
        Self::new_unchecked(small as usize)
    }
}

impl FromSpecImpl<u16> for NonMaxUsize {
    open spec fn obeys_from_spec() -> bool {
        true
    }

    open spec fn from_spec(small: u16) -> Self {
        NonMaxUsize::of(small as usize)
    }
}

impl From<u32> for NonMaxU64 {
    fn from(small: u32) -> (r: Self)
        ensures
            r@ == small as u64,
    {
        Self::new_unchecked(small as u64)
    }
}

impl FromSpecImpl<u32> for NonMaxU64 {
    open spec fn obeys_from_spec() -> bool {
        true
    }

    open spec fn from_spec(small: u32) -> Self {
        NonMaxU64::of(small as u64)
    }
}

impl From<u32> for NonMaxU128 {
    fn from(small: u32) -> (r: Self)
        ensures
            r@ == small as u128,
    {
        Self::new_unchecked(small as u128)
    }
}

impl FromSpecImpl<u32> for NonMaxU128 {
    open spec fn obeys_from_spec() -> bool {
        true
    }

    open spec fn from_spec(small: u32) -> Self {
        NonMaxU128::of(small as u128)
    }
}

impl From<u64> for NonMaxU128 {
    fn from(small: u64) -> (r: Self)
        ensures
            r@ == small as u128,
    {
        Self::new_unchecked(small as u128)
    }
}

impl FromSpecImpl<u64> for NonMaxU128 {
    open spec fn obeys_from_spec() -> bool {
        true
    }

    open spec fn from_spec(small: u64) -> Self {
        NonMaxU128::of(small as u128)
    }
}

impl From<i8> for NonMaxI16 {
    fn from(small: i8) -> (r: Self)
        ensures
            r@ == small as i16,
    {
        Self::new_unchecked(small as i16)
    }
}

impl FromSpecImpl<i8> for NonMaxI16 {
    open spec fn obeys_from_spec() -> bool {
        true
    }

    open spec fn from_spec(small: i8) -> Self {
        NonMaxI16::of(small as i16)
    }
}

impl From<i8> for NonMaxI32 {
    fn from(small: i8) -> (r: Self)
        ensures
            r@ == small as i32,
    {
        Self::new_unchecked(small as i32)
    }
}

impl FromSpecImpl<i8> for NonMaxI32 {
    open spec fn obeys_from_spec() -> bool {
        true
    }

    open spec fn from_spec(small: i8) -> Self {
        NonMaxI32::of(small as i32)
    }
}

impl From<i8> for NonMaxI64 {
    fn from(small: i8) -> (r: Self)
        ensures
            r@ == small as i64,
    {
        Self::new_unchecked(small as i64)
    }
}

impl FromSpecImpl<i8> for NonMaxI64 {
    open spec fn obeys_from_spec() -> bool {
        true
    }

    open spec fn from_spec(small: i8) -> Self {
        NonMaxI64::of(small as i64)
    }
}

impl From<i8> for NonMaxI128 {
    fn from(small: i8) -> (r: Self)
        ensures
            r@ == small as i128,
    {
        Self::new_unchecked(small as i128)
    }
}

impl FromSpecImpl<i8> for NonMaxI128 {
    open spec fn obeys_from_spec() -> bool {
        true
    }

    open spec fn from_spec(small: i8) -> Self {
        NonMaxI128::of(small as i128)
    }
}

impl From<i8> for NonMaxIsize {
    fn from(small: i8) -> (r: Self)
        ensures
            r@ == small as isize,
    {
        proof {
            NonValueIsize::<ISIZE_MAX_BITS>::lemma_bits_in_range();
        }
        Self::new_unchecked(small as isize)
    }
}

impl FromSpecImpl<i8> for NonMaxIsize {
    open spec fn obeys_from_spec() -> bool {
        true
    }

    open spec fn from_spec(small: i8) -> Self {
        NonMaxIsize::of(small as isize)
    }
}

impl From<i16> for NonMaxI32 {
    fn from(small: i16) -> (r: Self)
        ensures
            r@ == small as i32,
    {
        Self::new_unchecked(small as i32)
    }
}

impl FromSpecImpl<i16> for NonMaxI32 {
    open spec fn obeys_from_spec() -> bool {
        true
    }

    open spec fn from_spec(small: i16) -> Self {
        NonMaxI32::of(small as i32)
    }
}

impl From<i16> for NonMaxI64 {
    fn from(small: i16) -> (r: Self)
        ensures
            r@ == small as i64,
    {
        Self::new_unchecked(small as i64)
    }
}

impl FromSpecImpl<i16> for NonMaxI64 {
    open spec fn obeys_from_spec() -> bool {
        true
    }

    open spec fn from_spec(small: i16) -> Self {
        NonMaxI64::of(small as i64)
    }
}

impl From<i16> for NonMaxI128 {
    fn from(small: i16) -> (r: Self)
        ensures
            r@ == small as i128,
    {
        Self::new_unchecked(small as i128)
    }
}

impl FromSpecImpl<i16> for NonMaxI128 {
    open spec fn obeys_from_spec() -> bool {
        true
    }

    open spec fn from_spec(small: i16) -> Self {
        NonMaxI128::of(small as i128)
    }
}

impl From<i16> for NonMaxIsize {
    fn from(small: i16) -> (r: Self)
        ensures
            r@ == small as isize,
    {
        proof {
            NonValueIsize::<ISIZE_MAX_BITS>::lemma_bits_in_range();
        }
        Self::new_unchecked(small as isize)
    }
}

impl FromSpecImpl<i16> for NonMaxIsize {
    open spec fn obeys_from_spec() -> bool {
        true
    }

    open spec fn from_spec(small: i16) -> Self {
        NonMaxIsize::of(small as isize)
    }
}

impl From<i32> for NonMaxI64 {
    fn from(small: i32) -> (r: Self)
        ensures
            r@ == small as i64,
    {
        Self::new_unchecked(small as i64)
    }
}

impl FromSpecImpl<i32> for NonMaxI64 {
    open spec fn obeys_from_spec() -> bool {
        true
    }

    open spec fn from_spec(small: i32) -> Self {
        NonMaxI64::of(small as i64)
    }
}

impl From<i32> for NonMaxI128 {
    fn from(small: i32) -> (r: Self)
        ensures
            r@ == small as i128,
    {
        Self::new_unchecked(small as i128)
    }
}

impl FromSpecImpl<i32> for NonMaxI128 {
    open spec fn obeys_from_spec() -> bool {
        true
    }

    open spec fn from_spec(small: i32) -> Self {
        NonMaxI128::of(small as i128)
    }
}

impl From<i64> for NonMaxI128 {
    fn from(small: i64) -> (r: Self)
        ensures
            r@ == small as i128,
    {
        Self::new_unchecked(small as i128)
    }
}

impl FromSpecImpl<i64> for NonMaxI128 {
    open spec fn obeys_from_spec() -> bool {
        true
    }

    open spec fn from_spec(small: i64) -> Self {
        NonMaxI128::of(small as i128)
    }
}

impl From<u8> for NonMaxI16 {
    fn from(small: u8) -> (r: Self)
        ensures
            r@ == small as i16,
    {
        Self::new_unchecked(small as i16)
    }
}

impl FromSpecImpl<u8> for NonMaxI16 {
    open spec fn obeys_from_spec() -> bool {
        true
    }

    open spec fn from_spec(small: u8) -> Self {
        NonMaxI16::of(small as i16)
    }
}

impl From<u8> for NonMaxI32 {
    fn from(small: u8) -> (r: Self)
        ensures
            r@ == small as i32,
    {
        Self::new_unchecked(small as i32)
    }
}

impl FromSpecImpl<u8> for NonMaxI32 {
    open spec fn obeys_from_spec() -> bool {
        true
    }

    open spec fn from_spec(small: u8) -> Self {
        NonMaxI32::of(small as i32)
    }
}

impl From<u8> for NonMaxI64 {
    fn from(small: u8) -> (r: Self)
        ensures
            r@ == small as i64,
    {
        Self::new_unchecked(small as i64)
    }
}

impl FromSpecImpl<u8> for NonMaxI64 {
    open spec fn obeys_from_spec() -> bool {
        true
    }

    open spec fn from_spec(small: u8) -> Self {
        NonMaxI64::of(small as i64)
    }
}

impl From<u8> for NonMaxI128 {
    fn from(small: u8) -> (r: Self)
        ensures
            r@ == small as i128,
    {
        Self::new_unchecked(small as i128)
    }
}

impl FromSpecImpl<u8> for NonMaxI128 {
    open spec fn obeys_from_spec() -> bool {
        true
    }

    open spec fn from_spec(small: u8) -> Self {
        NonMaxI128::of(small as i128)
    }
}

impl From<u8> for NonMaxIsize {
    fn from(small: u8) -> (r: Self)
        ensures
            r@ == small as isize,
    {
        proof {
            NonValueIsize::<ISIZE_MAX_BITS>::lemma_bits_in_range();
        }
        Self::new_unchecked(small as isize)
    }
}

impl FromSpecImpl<u8> for NonMaxIsize {
    open spec fn obeys_from_spec() -> bool {
        true
    }

    open spec fn from_spec(small: u8) -> Self {
        NonMaxIsize::of(small as isize)
    }
}

impl From<u16> for NonMaxI32 {
    fn from(small: u16) -> (r: Self)
        ensures
            r@ == small as i32,
    {
        Self::new_unchecked(small as i32)
    }
}

impl FromSpecImpl<u16> for NonMaxI32 {
    open spec fn obeys_from_spec() -> bool {
        true
    }

    open spec fn from_spec(small: u16) -> Self {
        NonMaxI32::of(small as i32)
    }
}

impl From<u16> for NonMaxI64 {
    fn from(small: u16) -> (r: Self)
        ensures
            r@ == small as i64,
    {
        Self::new_unchecked(small as i64)
    }
}

impl FromSpecImpl<u16> for NonMaxI64 {
    open spec fn obeys_from_spec() -> bool {
        true
    }

    open spec fn from_spec(small: u16) -> Self {
        NonMaxI64::of(small as i64)
    }
}

impl From<u16> for NonMaxI128 {
    fn from(small: u16) -> (r: Self)
        ensures
            r@ == small as i128,
    {
        Self::new_unchecked(small as i128)
    }
}

impl FromSpecImpl<u16> for NonMaxI128 {
    open spec fn obeys_from_spec() -> bool {
        true
    }

    open spec fn from_spec(small: u16) -> Self {
        NonMaxI128::of(small as i128)
    }
}

impl From<u32> for NonMaxI64 {
    fn from(small: u32) -> (r: Self)
        ensures
            r@ == small as i64,
    {
        Self::new_unchecked(small as i64)
    }
}

impl FromSpecImpl<u32> for NonMaxI64 {
    open spec fn obeys_from_spec() -> bool {
        true
    }

    open spec fn from_spec(small: u32) -> Self {
        NonMaxI64::of(small as i64)
    }
}

impl From<u32> for NonMaxI128 {
    fn from(small: u32) -> (r: Self)
        ensures
            r@ == small as i128,
    {
        Self::new_unchecked(small as i128)
    }
}

impl FromSpecImpl<u32> for NonMaxI128 {
    open spec fn obeys_from_spec() -> bool {
        true
    }

    open spec fn from_spec(small: u32) -> Self {
        NonMaxI128::of(small as i128)
    }
}

impl From<u64> for NonMaxI128 {
    fn from(small: u64) -> (r: Self)
        ensures
            r@ == small as i128,
    {
        Self::new_unchecked(small as i128)
    }
}

impl FromSpecImpl<u64> for NonMaxI128 {
    open spec fn obeys_from_spec() -> bool {
        true
    }

    open spec fn from_spec(small: u64) -> Self {
        NonMaxI128::of(small as i128)
    }
}

} // verus!
