//! The non-zero cells that give every niche type its niche.
//!
//! Each cell is an opaque value that holds a `core::num::NonZero` of one
//! unsigned width in a private field. A cell is known by its value, named
//! below, and by what `NonZero::new` and `NonZero::get` return for it.

use vstd::prelude::*;

verus! {

/// Holds a `core::num::NonZeroU8`, which can never be zero.
#[verifier::external_body]
#[derive(Copy, Hash, Debug)]
pub struct NonZeroCellU8 {
    inner: core::num::NonZeroU8,
}

impl Clone for NonZeroCellU8 {
    /// Copies the cell (the type is `Copy`), so the copy equals its source.
    #[verifier::external_body]
    fn clone(&self) -> (r: Self)
        ensures
            r == *self,
    {
        *self
    }
}

/// The value that `core::num::NonZeroU8::get` returns for the cell's content.
pub uninterp spec fn nonzero_u8_value(cell: NonZeroCellU8) -> u8;

/// Calls `core::num::NonZeroU8::new`: it gives `Some` exactly when `value`
/// is not zero, and then a cell whose value is `value`. A `NonZero` is
/// determined by its value, so every cell of that value is this one.
#[verifier::external_body]
pub(crate) fn nonzero_u8_new(value: u8) -> (r: Option<NonZeroCellU8>)
    ensures
        r is Some <==> value != 0,
        r matches Some(cell) ==> nonzero_u8_value(cell) == value && forall|other: NonZeroCellU8|
            #[trigger] nonzero_u8_value(other) == value ==> other == cell,
{
    match core::num::NonZeroU8::new(value) {
        None => None,
        Some(inner) => Some(NonZeroCellU8 { inner }),
    }
}

/// Calls `core::num::NonZeroU8::get`, which returns the cell's value.
#[verifier::external_body]
pub(crate) fn nonzero_u8_get(cell: &NonZeroCellU8) -> (r: u8)
    ensures
        r == nonzero_u8_value(*cell),
{
    cell.inner.get()
}

/// Holds a `core::num::NonZeroU16`, which can never be zero.
#[verifier::external_body]
#[derive(Copy, Hash, Debug)]
pub struct NonZeroCellU16 {
    inner: core::num::NonZeroU16,
}

impl Clone for NonZeroCellU16 {
    /// Copies the cell (the type is `Copy`), so the copy equals its source.
    #[verifier::external_body]
    fn clone(&self) -> (r: Self)
        ensures
            r == *self,
    {
        *self
    }
}

/// The value that `core::num::NonZeroU16::get` returns for the cell's content.
pub uninterp spec fn nonzero_u16_value(cell: NonZeroCellU16) -> u16;

/// Calls `core::num::NonZeroU16::new`: it gives `Some` exactly when `value`
/// is not zero, and then a cell whose value is `value`. A `NonZero` is
/// determined by its value, so every cell of that value is this one.
#[verifier::external_body]
pub(crate) fn nonzero_u16_new(value: u16) -> (r: Option<NonZeroCellU16>)
    ensures
        r is Some <==> value != 0,
        r matches Some(cell) ==> nonzero_u16_value(cell) == value && forall|other: NonZeroCellU16|
            #[trigger] nonzero_u16_value(other) == value ==> other == cell,
{
    match core::num::NonZeroU16::new(value) {
        None => None,
        Some(inner) => Some(NonZeroCellU16 { inner }),
    }
}

/// Calls `core::num::NonZeroU16::get`, which returns the cell's value.
#[verifier::external_body]
pub(crate) fn nonzero_u16_get(cell: &NonZeroCellU16) -> (r: u16)
    ensures
        r == nonzero_u16_value(*cell),
{
    cell.inner.get()
}

/// Holds a `core::num::NonZeroU32`, which can never be zero.
#[verifier::external_body]
#[derive(Copy, Hash, Debug)]
pub struct NonZeroCellU32 {
    inner: core::num::NonZeroU32,
}

impl Clone for NonZeroCellU32 {
    /// Copies the cell (the type is `Copy`), so the copy equals its source.
    #[verifier::external_body]
    fn clone(&self) -> (r: Self)
        ensures
            r == *self,
    {
        *self
    }
}

/// The value that `core::num::NonZeroU32::get` returns for the cell's content.
pub uninterp spec fn nonzero_u32_value(cell: NonZeroCellU32) -> u32;

/// Calls `core::num::NonZeroU32::new`: it gives `Some` exactly when `value`
/// is not zero, and then a cell whose value is `value`. A `NonZero` is
/// determined by its value, so every cell of that value is this one.
#[verifier::external_body]
pub(crate) fn nonzero_u32_new(value: u32) -> (r: Option<NonZeroCellU32>)
    ensures
        r is Some <==> value != 0,
        r matches Some(cell) ==> nonzero_u32_value(cell) == value && forall|other: NonZeroCellU32|
            #[trigger] nonzero_u32_value(other) == value ==> other == cell,
{
    match core::num::NonZeroU32::new(value) {
        None => None,
        Some(inner) => Some(NonZeroCellU32 { inner }),
    }
}

/// Calls `core::num::NonZeroU32::get`, which returns the cell's value.
#[verifier::external_body]
pub(crate) fn nonzero_u32_get(cell: &NonZeroCellU32) -> (r: u32)
    ensures
        r == nonzero_u32_value(*cell),
{
    cell.inner.get()
}

/// Holds a `core::num::NonZeroU64`, which can never be zero.
#[verifier::external_body]
#[derive(Copy, Hash, Debug)]
pub struct NonZeroCellU64 {
    inner: core::num::NonZeroU64,
}

impl Clone for NonZeroCellU64 {
    /// Copies the cell (the type is `Copy`), so the copy equals its source.
    #[verifier::external_body]
    fn clone(&self) -> (r: Self)
        ensures
            r == *self,
    {
        *self
    }
}

/// The value that `core::num::NonZeroU64::get` returns for the cell's content.
pub uninterp spec fn nonzero_u64_value(cell: NonZeroCellU64) -> u64;

/// Calls `core::num::NonZeroU64::new`: it gives `Some` exactly when `value`
/// is not zero, and then a cell whose value is `value`. A `NonZero` is
/// determined by its value, so every cell of that value is this one.
#[verifier::external_body]
pub(crate) fn nonzero_u64_new(value: u64) -> (r: Option<NonZeroCellU64>)
    ensures
        r is Some <==> value != 0,
        r matches Some(cell) ==> nonzero_u64_value(cell) == value && forall|other: NonZeroCellU64|
            #[trigger] nonzero_u64_value(other) == value ==> other == cell,
{
    match core::num::NonZeroU64::new(value) {
        None => None,
        Some(inner) => Some(NonZeroCellU64 { inner }),
    }
}

/// Calls `core::num::NonZeroU64::get`, which returns the cell's value.
#[verifier::external_body]
pub(crate) fn nonzero_u64_get(cell: &NonZeroCellU64) -> (r: u64)
    ensures
        r == nonzero_u64_value(*cell),
{
    cell.inner.get()
}

/// Holds a `core::num::NonZeroU128`, which can never be zero.
#[verifier::external_body]
#[derive(Copy, Hash, Debug)]
pub struct NonZeroCellU128 {
    inner: core::num::NonZeroU128,
}

impl Clone for NonZeroCellU128 {
    /// Copies the cell (the type is `Copy`), so the copy equals its source.
    #[verifier::external_body]
    fn clone(&self) -> (r: Self)
        ensures
            r == *self,
    {
        *self
    }
}

/// The value that `core::num::NonZeroU128::get` returns for the cell's content.
pub uninterp spec fn nonzero_u128_value(cell: NonZeroCellU128) -> u128;

/// Calls `core::num::NonZeroU128::new`: it gives `Some` exactly when `value`
/// is not zero, and then a cell whose value is `value`. A `NonZero` is
/// determined by its value, so every cell of that value is this one.
#[verifier::external_body]
pub(crate) fn nonzero_u128_new(value: u128) -> (r: Option<NonZeroCellU128>)
    ensures
        r is Some <==> value != 0,
        r matches Some(cell) ==> nonzero_u128_value(cell) == value && forall|other: NonZeroCellU128|
            #[trigger] nonzero_u128_value(other) == value ==> other == cell,
{
    match core::num::NonZeroU128::new(value) {
        None => None,
        Some(inner) => Some(NonZeroCellU128 { inner }),
    }
}

/// Calls `core::num::NonZeroU128::get`, which returns the cell's value.
#[verifier::external_body]
pub(crate) fn nonzero_u128_get(cell: &NonZeroCellU128) -> (r: u128)
    ensures
        r == nonzero_u128_value(*cell),
{
    cell.inner.get()
}

/// Holds a `core::num::NonZeroUsize`, which can never be zero.
#[verifier::external_body]
#[derive(Copy, Hash, Debug)]
pub struct NonZeroCellUsize {
    inner: core::num::NonZeroUsize,
}

impl Clone for NonZeroCellUsize {
    /// Copies the cell (the type is `Copy`), so the copy equals its source.
    #[verifier::external_body]
    fn clone(&self) -> (r: Self)
        ensures
            r == *self,
    {
        *self
    }
}

/// The value that `core::num::NonZeroUsize::get` returns for the cell's content.
pub uninterp spec fn nonzero_usize_value(cell: NonZeroCellUsize) -> usize;

/// Calls `core::num::NonZeroUsize::new`: it gives `Some` exactly when `value`
/// is not zero, and then a cell whose value is `value`. A `NonZero` is
/// determined by its value, so every cell of that value is this one.
#[verifier::external_body]
pub(crate) fn nonzero_usize_new(value: usize) -> (r: Option<NonZeroCellUsize>)
    ensures
        r is Some <==> value != 0,
        r matches Some(cell) ==> nonzero_usize_value(cell) == value && forall|other: NonZeroCellUsize|
            #[trigger] nonzero_usize_value(other) == value ==> other == cell,
{
    match core::num::NonZeroUsize::new(value) {
        None => None,
        Some(inner) => Some(NonZeroCellUsize { inner }),
    }
}

/// Calls `core::num::NonZeroUsize::get`, which returns the cell's value.
#[verifier::external_body]
pub(crate) fn nonzero_usize_get(cell: &NonZeroCellUsize) -> (r: usize)
    ensures
        r == nonzero_usize_value(*cell),
{
    cell.inner.get()
}

} // verus!
