//! `niche_value` provides numeric types that are known **not** to hold one
//! chosen value, so that `Option<T>` is no larger than `T`.
//!
//! Every type stores a `core::num::NonZero` of `value_bits ^ forbidden_bits`.
//! Because the stored value can never equal the forbidden bit pattern, the
//! xor is never zero, so the `NonZero` niche survives and `Option<T>` reuses
//! it. Each type's view (`v@`) is the value it holds, and its type invariant
//! says that the stored encoding is never zero.
//!
//! * Integers: `NonValueU8<N>` … `NonValueUsize<N>` forbid the value `N`;
//!   the signed `NonValueI8<BITS>` … `NonValueIsize<BITS>` forbid the value
//!   whose two's-complement bit pattern is `BITS`. Each width has the
//!   aliases `NonMax*` and `NonMin*`.
//! * Floats (modules `float32` and `float64`) are handled by their IEEE-754
//!   bit pattern: the bit-exact `NonValueF32<BITS>` and the class-based
//!   `NonNanF32`, `NonInfF32`, `NonZeroF32`, `FiniteF32`, `NonSubnormalF32`
//!   and their 64-bit counterparts.
//! * `text` states the digits that the formatting methods give and the
//!   integer syntax that parsing accepts; `order` holds the ordering impls
//!   and the laws about them; `bits` holds the bit-level lemmas.

pub mod bits;
pub mod text;
mod error;
pub mod float32;
pub mod float64;
mod nonzero;
pub mod order;
mod widen;
mod nonvalue_u8;
mod nonvalue_u16;
mod nonvalue_u32;
mod nonvalue_u64;
mod nonvalue_u128;
mod nonvalue_usize;
mod nonvalue_i8;
mod nonvalue_i16;
mod nonvalue_i32;
mod nonvalue_i64;
mod nonvalue_i128;
mod nonvalue_isize;

pub use error::{ParseFloatError, ParseIntError, TryFromFloatError, TryFromIntError};
pub use nonvalue_u8::{NonValueU8, NonMaxU8, NonMinU8};
pub use nonvalue_u16::{NonValueU16, NonMaxU16, NonMinU16};
pub use nonvalue_u32::{NonValueU32, NonMaxU32, NonMinU32};
pub use nonvalue_u64::{NonValueU64, NonMaxU64, NonMinU64};
pub use nonvalue_u128::{NonValueU128, NonMaxU128, NonMinU128};
pub use nonvalue_usize::{NonValueUsize, NonMaxUsize, NonMinUsize};
pub use nonvalue_i8::{NonValueI8, NonMaxI8, NonMinI8};
pub use nonvalue_i16::{NonValueI16, NonMaxI16, NonMinI16};
pub use nonvalue_i32::{NonValueI32, NonMaxI32, NonMinI32};
pub use nonvalue_i64::{NonValueI64, NonMaxI64, NonMinI64};
pub use nonvalue_i128::{NonValueI128, NonMaxI128, NonMinI128};
pub use nonvalue_isize::{NonValueIsize, NonMaxIsize, NonMinIsize};
pub use float32::{NonValueF32, NonMaxF32, NonMinF32, NonNanF32, NonInfF32, NonZeroF32, FiniteF32, NonSubnormalF32};
pub use float64::{NonValueF64, NonMaxF64, NonMinF64, NonNanF64, NonInfF64, NonZeroF64, FiniteF64, NonSubnormalF64};
