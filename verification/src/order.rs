//! Ordering of the niche integers: by value, never by the stored encoding.

use vstd::prelude::*;
use core::cmp::Ordering;
use vstd::std_specs::cmp::{PartialEqSpec, PartialOrdSpec, PartialOrdSpecImpl};
use crate::nonvalue_u8::NonValueU8;
use crate::nonvalue_u16::NonValueU16;
use crate::nonvalue_u32::NonValueU32;
use crate::nonvalue_u64::NonValueU64;
use crate::nonvalue_u128::NonValueU128;
use crate::nonvalue_usize::NonValueUsize;
use crate::nonvalue_i8::NonValueI8;
use crate::nonvalue_i16::NonValueI16;
use crate::nonvalue_i32::NonValueI32;
use crate::nonvalue_i64::NonValueI64;
use crate::nonvalue_i128::NonValueI128;
use crate::nonvalue_isize::NonValueIsize;
use crate::float32::{
    NonValueF32, NonNanF32, NonInfF32, NonZeroF32, FiniteF32, NonSubnormalF32, is_nan32, nan32,
    order_key32, order_key_of32, hash_bits32, lemma_patterns32, lemma_order_key_by_value32,
};
use crate::float64::{
    NonValueF64, NonNanF64, NonInfF64, NonZeroF64, FiniteF64, NonSubnormalF64, is_nan64, nan64,
    order_key64, order_key_of64, hash_bits64, lemma_patterns64, lemma_order_key_by_value64,
};

verus! {

/// The ordering of two mathematical integers.
pub open spec fn order_of(a: int, b: int) -> Ordering {
    if a < b {
        Ordering::Less
    } else if a > b {
        Ordering::Greater
    } else {
        Ordering::Equal
    }
}

impl<const N: u8> PartialOrd for NonValueU8<N> {
    fn partial_cmp(&self, other: &Self) -> (r: Option<Ordering>)
        ensures
            r == Some(order_of(self.value(), other.value())),
    {
        let a = self.get();
        let b = other.get();
        if a < b {
            Some(Ordering::Less)
        } else if a > b {
            Some(Ordering::Greater)
        } else {
            Some(Ordering::Equal)
        }
    }
}

impl<const N: u8> PartialOrdSpecImpl for NonValueU8<N> {
    open spec fn obeys_partial_cmp_spec() -> bool {
        true
    }

    open spec fn partial_cmp_spec(&self, other: &Self) -> Option<Ordering> {
        Some(order_of(self.value(), other.value()))
    }
}

impl<const N: u8> NonValueU8<N> {
    /// The total order of the values held, as `Ord::cmp` of the primitive
    /// orders them.
    pub fn compare(&self, other: &Self) -> (r: Ordering)
        ensures
            r == order_of(self.value(), other.value()),
    {
        let a = self.get();
        let b = other.get();
        if a < b {
            Ordering::Less
        } else if a > b {
            Ordering::Greater
        } else {
            Ordering::Equal
        }
    }
}

/// Niche integers compare by the values they hold, never by the stored
/// encoding, and they compare `Equal` exactly when they are equal.
pub proof fn lemma_order_by_value_u8<const N: u8>(a: NonValueU8<N>, b: NonValueU8<N>)
    ensures
        PartialOrdSpec::partial_cmp_spec(&a, &b) == Some(Ordering::Less) <==> a@ < b@,
        PartialOrdSpec::partial_cmp_spec(&a, &b) == Some(Ordering::Equal) <==> a@ == b@,
        PartialOrdSpec::partial_cmp_spec(&a, &b) == Some(Ordering::Greater) <==> a@ > b@,
{
}

impl<const N: u16> PartialOrd for NonValueU16<N> {
    fn partial_cmp(&self, other: &Self) -> (r: Option<Ordering>)
        ensures
            r == Some(order_of(self.value(), other.value())),
    {
        let a = self.get();
        let b = other.get();
        if a < b {
            Some(Ordering::Less)
        } else if a > b {
            Some(Ordering::Greater)
        } else {
            Some(Ordering::Equal)
        }
    }
}

impl<const N: u16> PartialOrdSpecImpl for NonValueU16<N> {
    open spec fn obeys_partial_cmp_spec() -> bool {
        true
    }

    open spec fn partial_cmp_spec(&self, other: &Self) -> Option<Ordering> {
        Some(order_of(self.value(), other.value()))
    }
}

impl<const N: u16> NonValueU16<N> {
    /// The total order of the values held, as `Ord::cmp` of the primitive
    /// orders them.
    pub fn compare(&self, other: &Self) -> (r: Ordering)
        ensures
            r == order_of(self.value(), other.value()),
    {
        let a = self.get();
        let b = other.get();
        if a < b {
            Ordering::Less
        } else if a > b {
            Ordering::Greater
        } else {
            Ordering::Equal
        }
    }
}

/// Niche integers compare by the values they hold, never by the stored
/// encoding, and they compare `Equal` exactly when they are equal.
pub proof fn lemma_order_by_value_u16<const N: u16>(a: NonValueU16<N>, b: NonValueU16<N>)
    ensures
        PartialOrdSpec::partial_cmp_spec(&a, &b) == Some(Ordering::Less) <==> a@ < b@,
        PartialOrdSpec::partial_cmp_spec(&a, &b) == Some(Ordering::Equal) <==> a@ == b@,
        PartialOrdSpec::partial_cmp_spec(&a, &b) == Some(Ordering::Greater) <==> a@ > b@,
{
}

impl<const N: u32> PartialOrd for NonValueU32<N> {
    fn partial_cmp(&self, other: &Self) -> (r: Option<Ordering>)
        ensures
            r == Some(order_of(self.value(), other.value())),
    {
        let a = self.get();
        let b = other.get();
        if a < b {
            Some(Ordering::Less)
        } else if a > b {
            Some(Ordering::Greater)
        } else {
            Some(Ordering::Equal)
        }
    }
}

impl<const N: u32> PartialOrdSpecImpl for NonValueU32<N> {
    open spec fn obeys_partial_cmp_spec() -> bool {
        true
    }

    open spec fn partial_cmp_spec(&self, other: &Self) -> Option<Ordering> {
        Some(order_of(self.value(), other.value()))
    }
}

impl<const N: u32> NonValueU32<N> {
    /// The total order of the values held, as `Ord::cmp` of the primitive
    /// orders them.
    pub fn compare(&self, other: &Self) -> (r: Ordering)
        ensures
            r == order_of(self.value(), other.value()),
    {
        let a = self.get();
        let b = other.get();
        if a < b {
            Ordering::Less
        } else if a > b {
            Ordering::Greater
        } else {
            Ordering::Equal
        }
    }
}

/// Niche integers compare by the values they hold, never by the stored
/// encoding, and they compare `Equal` exactly when they are equal.
pub proof fn lemma_order_by_value_u32<const N: u32>(a: NonValueU32<N>, b: NonValueU32<N>)
    ensures
        PartialOrdSpec::partial_cmp_spec(&a, &b) == Some(Ordering::Less) <==> a@ < b@,
        PartialOrdSpec::partial_cmp_spec(&a, &b) == Some(Ordering::Equal) <==> a@ == b@,
        PartialOrdSpec::partial_cmp_spec(&a, &b) == Some(Ordering::Greater) <==> a@ > b@,
{
}

impl<const N: u64> PartialOrd for NonValueU64<N> {
    fn partial_cmp(&self, other: &Self) -> (r: Option<Ordering>)
        ensures
            r == Some(order_of(self.value(), other.value())),
    {
        let a = self.get();
        let b = other.get();
        if a < b {
            Some(Ordering::Less)
        } else if a > b {
            Some(Ordering::Greater)
        } else {
            Some(Ordering::Equal)
        }
    }
}

impl<const N: u64> PartialOrdSpecImpl for NonValueU64<N> {
    open spec fn obeys_partial_cmp_spec() -> bool {
        true
    }

    open spec fn partial_cmp_spec(&self, other: &Self) -> Option<Ordering> {
        Some(order_of(self.value(), other.value()))
    }
}

impl<const N: u64> NonValueU64<N> {
    /// The total order of the values held, as `Ord::cmp` of the primitive
    /// orders them.
    pub fn compare(&self, other: &Self) -> (r: Ordering)
        ensures
            r == order_of(self.value(), other.value()),
    {
        let a = self.get();
        let b = other.get();
        if a < b {
            Ordering::Less
        } else if a > b {
            Ordering::Greater
        } else {
            Ordering::Equal
        }
    }
}

/// Niche integers compare by the values they hold, never by the stored
/// encoding, and they compare `Equal` exactly when they are equal.
pub proof fn lemma_order_by_value_u64<const N: u64>(a: NonValueU64<N>, b: NonValueU64<N>)
    ensures
        PartialOrdSpec::partial_cmp_spec(&a, &b) == Some(Ordering::Less) <==> a@ < b@,
        PartialOrdSpec::partial_cmp_spec(&a, &b) == Some(Ordering::Equal) <==> a@ == b@,
        PartialOrdSpec::partial_cmp_spec(&a, &b) == Some(Ordering::Greater) <==> a@ > b@,
{
}

impl<const N: u128> PartialOrd for NonValueU128<N> {
    fn partial_cmp(&self, other: &Self) -> (r: Option<Ordering>)
        ensures
            r == Some(order_of(self.value(), other.value())),
    {
        let a = self.get();
        let b = other.get();
        if a < b {
            Some(Ordering::Less)
        } else if a > b {
            Some(Ordering::Greater)
        } else {
            Some(Ordering::Equal)
        }
    }
}

impl<const N: u128> PartialOrdSpecImpl for NonValueU128<N> {
    open spec fn obeys_partial_cmp_spec() -> bool {
        true
    }

    open spec fn partial_cmp_spec(&self, other: &Self) -> Option<Ordering> {
        Some(order_of(self.value(), other.value()))
    }
}

impl<const N: u128> NonValueU128<N> {
    /// The total order of the values held, as `Ord::cmp` of the primitive
    /// orders them.
    pub fn compare(&self, other: &Self) -> (r: Ordering)
        ensures
            r == order_of(self.value(), other.value()),
    {
        let a = self.get();
        let b = other.get();
        if a < b {
            Ordering::Less
        } else if a > b {
            Ordering::Greater
        } else {
            Ordering::Equal
        }
    }
}

/// Niche integers compare by the values they hold, never by the stored
/// encoding, and they compare `Equal` exactly when they are equal.
pub proof fn lemma_order_by_value_u128<const N: u128>(a: NonValueU128<N>, b: NonValueU128<N>)
    ensures
        PartialOrdSpec::partial_cmp_spec(&a, &b) == Some(Ordering::Less) <==> a@ < b@,
        PartialOrdSpec::partial_cmp_spec(&a, &b) == Some(Ordering::Equal) <==> a@ == b@,
        PartialOrdSpec::partial_cmp_spec(&a, &b) == Some(Ordering::Greater) <==> a@ > b@,
{
}

impl<const N: usize> PartialOrd for NonValueUsize<N> {
    fn partial_cmp(&self, other: &Self) -> (r: Option<Ordering>)
        ensures
            r == Some(order_of(self.value(), other.value())),
    {
        let a = self.get();
        let b = other.get();
        if a < b {
            Some(Ordering::Less)
        } else if a > b {
            Some(Ordering::Greater)
        } else {
            Some(Ordering::Equal)
        }
    }
}

impl<const N: usize> PartialOrdSpecImpl for NonValueUsize<N> {
    open spec fn obeys_partial_cmp_spec() -> bool {
        true
    }

    open spec fn partial_cmp_spec(&self, other: &Self) -> Option<Ordering> {
        Some(order_of(self.value(), other.value()))
    }
}

impl<const N: usize> NonValueUsize<N> {
    /// The total order of the values held, as `Ord::cmp` of the primitive
    /// orders them.
    pub fn compare(&self, other: &Self) -> (r: Ordering)
        ensures
            r == order_of(self.value(), other.value()),
    {
        let a = self.get();
        let b = other.get();
        if a < b {
            Ordering::Less
        } else if a > b {
            Ordering::Greater
        } else {
            Ordering::Equal
        }
    }
}

/// Niche integers compare by the values they hold, never by the stored
/// encoding, and they compare `Equal` exactly when they are equal.
pub proof fn lemma_order_by_value_usize<const N: usize>(a: NonValueUsize<N>, b: NonValueUsize<N>)
    ensures
        PartialOrdSpec::partial_cmp_spec(&a, &b) == Some(Ordering::Less) <==> a@ < b@,
        PartialOrdSpec::partial_cmp_spec(&a, &b) == Some(Ordering::Equal) <==> a@ == b@,
        PartialOrdSpec::partial_cmp_spec(&a, &b) == Some(Ordering::Greater) <==> a@ > b@,
{
}

impl<const BITS: u8> PartialOrd for NonValueI8<BITS> {
    fn partial_cmp(&self, other: &Self) -> (r: Option<Ordering>)
        ensures
            r == Some(order_of(self.value(), other.value())),
    {
        let a = self.get();
        let b = other.get();
        if a < b {
            Some(Ordering::Less)
        } else if a > b {
            Some(Ordering::Greater)
        } else {
            Some(Ordering::Equal)
        }
    }
}

impl<const BITS: u8> PartialOrdSpecImpl for NonValueI8<BITS> {
    open spec fn obeys_partial_cmp_spec() -> bool {
        true
    }

    open spec fn partial_cmp_spec(&self, other: &Self) -> Option<Ordering> {
        Some(order_of(self.value(), other.value()))
    }
}

impl<const BITS: u8> NonValueI8<BITS> {
    /// The total order of the values held, as `Ord::cmp` of the primitive
    /// orders them.
    pub fn compare(&self, other: &Self) -> (r: Ordering)
        ensures
            r == order_of(self.value(), other.value()),
    {
        let a = self.get();
        let b = other.get();
        if a < b {
            Ordering::Less
        } else if a > b {
            Ordering::Greater
        } else {
            Ordering::Equal
        }
    }
}

/// Niche integers compare by the values they hold, never by the stored
/// encoding, and they compare `Equal` exactly when they are equal.
pub proof fn lemma_order_by_value_i8<const BITS: u8>(a: NonValueI8<BITS>, b: NonValueI8<BITS>)
    ensures
        PartialOrdSpec::partial_cmp_spec(&a, &b) == Some(Ordering::Less) <==> a@ < b@,
        PartialOrdSpec::partial_cmp_spec(&a, &b) == Some(Ordering::Equal) <==> a@ == b@,
        PartialOrdSpec::partial_cmp_spec(&a, &b) == Some(Ordering::Greater) <==> a@ > b@,
{
}

impl<const BITS: u16> PartialOrd for NonValueI16<BITS> {
    fn partial_cmp(&self, other: &Self) -> (r: Option<Ordering>)
        ensures
            r == Some(order_of(self.value(), other.value())),
    {
        let a = self.get();
        let b = other.get();
        if a < b {
            Some(Ordering::Less)
        } else if a > b {
            Some(Ordering::Greater)
        } else {
            Some(Ordering::Equal)
        }
    }
}

impl<const BITS: u16> PartialOrdSpecImpl for NonValueI16<BITS> {
    open spec fn obeys_partial_cmp_spec() -> bool {
        true
    }

    open spec fn partial_cmp_spec(&self, other: &Self) -> Option<Ordering> {
        Some(order_of(self.value(), other.value()))
    }
}

impl<const BITS: u16> NonValueI16<BITS> {
    /// The total order of the values held, as `Ord::cmp` of the primitive
    /// orders them.
    pub fn compare(&self, other: &Self) -> (r: Ordering)
        ensures
            r == order_of(self.value(), other.value()),
    {
        let a = self.get();
        let b = other.get();
        if a < b {
            Ordering::Less
        } else if a > b {
            Ordering::Greater
        } else {
            Ordering::Equal
        }
    }
}

/// Niche integers compare by the values they hold, never by the stored
/// encoding, and they compare `Equal` exactly when they are equal.
pub proof fn lemma_order_by_value_i16<const BITS: u16>(a: NonValueI16<BITS>, b: NonValueI16<BITS>)
    ensures
        PartialOrdSpec::partial_cmp_spec(&a, &b) == Some(Ordering::Less) <==> a@ < b@,
        PartialOrdSpec::partial_cmp_spec(&a, &b) == Some(Ordering::Equal) <==> a@ == b@,
        PartialOrdSpec::partial_cmp_spec(&a, &b) == Some(Ordering::Greater) <==> a@ > b@,
{
}

impl<const BITS: u32> PartialOrd for NonValueI32<BITS> {
    fn partial_cmp(&self, other: &Self) -> (r: Option<Ordering>)
        ensures
            r == Some(order_of(self.value(), other.value())),
    {
        let a = self.get();
        let b = other.get();
        if a < b {
            Some(Ordering::Less)
        } else if a > b {
            Some(Ordering::Greater)
        } else {
            Some(Ordering::Equal)
        }
    }
}

impl<const BITS: u32> PartialOrdSpecImpl for NonValueI32<BITS> {
    open spec fn obeys_partial_cmp_spec() -> bool {
        true
    }

    open spec fn partial_cmp_spec(&self, other: &Self) -> Option<Ordering> {
        Some(order_of(self.value(), other.value()))
    }
}

impl<const BITS: u32> NonValueI32<BITS> {
    /// The total order of the values held, as `Ord::cmp` of the primitive
    /// orders them.
    pub fn compare(&self, other: &Self) -> (r: Ordering)
        ensures
            r == order_of(self.value(), other.value()),
    {
        let a = self.get();
        let b = other.get();
        if a < b {
            Ordering::Less
        } else if a > b {
            Ordering::Greater
        } else {
            Ordering::Equal
        }
    }
}

/// Niche integers compare by the values they hold, never by the stored
/// encoding, and they compare `Equal` exactly when they are equal.
pub proof fn lemma_order_by_value_i32<const BITS: u32>(a: NonValueI32<BITS>, b: NonValueI32<BITS>)
    ensures
        PartialOrdSpec::partial_cmp_spec(&a, &b) == Some(Ordering::Less) <==> a@ < b@,
        PartialOrdSpec::partial_cmp_spec(&a, &b) == Some(Ordering::Equal) <==> a@ == b@,
        PartialOrdSpec::partial_cmp_spec(&a, &b) == Some(Ordering::Greater) <==> a@ > b@,
{
}

impl<const BITS: u64> PartialOrd for NonValueI64<BITS> {
    fn partial_cmp(&self, other: &Self) -> (r: Option<Ordering>)
        ensures
            r == Some(order_of(self.value(), other.value())),
    {
        let a = self.get();
        let b = other.get();
        if a < b {
            Some(Ordering::Less)
        } else if a > b {
            Some(Ordering::Greater)
        } else {
            Some(Ordering::Equal)
        }
    }
}

impl<const BITS: u64> PartialOrdSpecImpl for NonValueI64<BITS> {
    open spec fn obeys_partial_cmp_spec() -> bool {
        true
    }

    open spec fn partial_cmp_spec(&self, other: &Self) -> Option<Ordering> {
        Some(order_of(self.value(), other.value()))
    }
}

impl<const BITS: u64> NonValueI64<BITS> {
    /// The total order of the values held, as `Ord::cmp` of the primitive
    /// orders them.
    pub fn compare(&self, other: &Self) -> (r: Ordering)
        ensures
            r == order_of(self.value(), other.value()),
    {
        let a = self.get();
        let b = other.get();
        if a < b {
            Ordering::Less
        } else if a > b {
            Ordering::Greater
        } else {
            Ordering::Equal
        }
    }
}

/// Niche integers compare by the values they hold, never by the stored
/// encoding, and they compare `Equal` exactly when they are equal.
pub proof fn lemma_order_by_value_i64<const BITS: u64>(a: NonValueI64<BITS>, b: NonValueI64<BITS>)
    ensures
        PartialOrdSpec::partial_cmp_spec(&a, &b) == Some(Ordering::Less) <==> a@ < b@,
        PartialOrdSpec::partial_cmp_spec(&a, &b) == Some(Ordering::Equal) <==> a@ == b@,
        PartialOrdSpec::partial_cmp_spec(&a, &b) == Some(Ordering::Greater) <==> a@ > b@,
{
}

impl<const BITS: u128> PartialOrd for NonValueI128<BITS> {
    fn partial_cmp(&self, other: &Self) -> (r: Option<Ordering>)
        ensures
            r == Some(order_of(self.value(), other.value())),
    {
        let a = self.get();
        let b = other.get();
        if a < b {
            Some(Ordering::Less)
        } else if a > b {
            Some(Ordering::Greater)
        } else {
            Some(Ordering::Equal)
        }
    }
}

impl<const BITS: u128> PartialOrdSpecImpl for NonValueI128<BITS> {
    open spec fn obeys_partial_cmp_spec() -> bool {
        true
    }

    open spec fn partial_cmp_spec(&self, other: &Self) -> Option<Ordering> {
        Some(order_of(self.value(), other.value()))
    }
}

impl<const BITS: u128> NonValueI128<BITS> {
    /// The total order of the values held, as `Ord::cmp` of the primitive
    /// orders them.
    pub fn compare(&self, other: &Self) -> (r: Ordering)
        ensures
            r == order_of(self.value(), other.value()),
    {
        let a = self.get();
        let b = other.get();
        if a < b {
            Ordering::Less
        } else if a > b {
            Ordering::Greater
        } else {
            Ordering::Equal
        }
    }
}

/// Niche integers compare by the values they hold, never by the stored
/// encoding, and they compare `Equal` exactly when they are equal.
pub proof fn lemma_order_by_value_i128<const BITS: u128>(a: NonValueI128<BITS>, b: NonValueI128<BITS>)
    ensures
        PartialOrdSpec::partial_cmp_spec(&a, &b) == Some(Ordering::Less) <==> a@ < b@,
        PartialOrdSpec::partial_cmp_spec(&a, &b) == Some(Ordering::Equal) <==> a@ == b@,
        PartialOrdSpec::partial_cmp_spec(&a, &b) == Some(Ordering::Greater) <==> a@ > b@,
{
}

impl<const BITS: usize> PartialOrd for NonValueIsize<BITS> {
    fn partial_cmp(&self, other: &Self) -> (r: Option<Ordering>)
        ensures
            r == Some(order_of(self.value(), other.value())),
    {
        let a = self.get();
        let b = other.get();
        if a < b {
            Some(Ordering::Less)
        } else if a > b {
            Some(Ordering::Greater)
        } else {
            Some(Ordering::Equal)
        }
    }
}

impl<const BITS: usize> PartialOrdSpecImpl for NonValueIsize<BITS> {
    open spec fn obeys_partial_cmp_spec() -> bool {
        true
    }

    open spec fn partial_cmp_spec(&self, other: &Self) -> Option<Ordering> {
        Some(order_of(self.value(), other.value()))
    }
}

impl<const BITS: usize> NonValueIsize<BITS> {
    /// The total order of the values held, as `Ord::cmp` of the primitive
    /// orders them.
    pub fn compare(&self, other: &Self) -> (r: Ordering)
        ensures
            r == order_of(self.value(), other.value()),
    {
        let a = self.get();
        let b = other.get();
        if a < b {
            Ordering::Less
        } else if a > b {
            Ordering::Greater
        } else {
            Ordering::Equal
        }
    }
}

/// Niche integers compare by the values they hold, never by the stored
/// encoding, and they compare `Equal` exactly when they are equal.
pub proof fn lemma_order_by_value_isize<const BITS: usize>(a: NonValueIsize<BITS>, b: NonValueIsize<BITS>)
    ensures
        PartialOrdSpec::partial_cmp_spec(&a, &b) == Some(Ordering::Less) <==> a@ < b@,
        PartialOrdSpec::partial_cmp_spec(&a, &b) == Some(Ordering::Equal) <==> a@ == b@,
        PartialOrdSpec::partial_cmp_spec(&a, &b) == Some(Ordering::Greater) <==> a@ > b@,
{
}

/// How two floats of width 32 compare, given their patterns: `None` when
/// either is `NaN`, otherwise by value.
pub open spec fn float_order32(a: u32, b: u32) -> Option<Ordering> {
    if nan32(a) || nan32(b) {
        None
    } else {
        Some(order_of(order_key32(a), order_key32(b)))
    }
}

/// Floats of width 32 compare by value: a `NaN` with nothing; two
/// non-negative patterns as unsigned integers; two negative ones inversely;
/// a negative one below a non-negative one, except that `-0.0` equals `+0.0`.
/// The total order `compare` of the `NaN`-free types gives the same answer.
pub proof fn lemma_float_order_by_value32(a: u32, b: u32)
    ensures
        float_order32(a, b) is None <==> (nan32(a) || nan32(b)),
        (!nan32(a) && !nan32(b) && a < 0x8000_0000 && b < 0x8000_0000) ==> ((float_order32(a, b)
            == Some(Ordering::Less) <==> a < b) && (float_order32(a, b) == Some(Ordering::Equal)
            <==> a == b)),
        (!nan32(a) && !nan32(b) && a >= 0x8000_0000 && b >= 0x8000_0000) ==> ((float_order32(a, b)
            == Some(Ordering::Less) <==> b < a) && (float_order32(a, b) == Some(Ordering::Equal)
            <==> a == b)),
        (!nan32(a) && !nan32(b) && a >= 0x8000_0000 && b < 0x8000_0000) ==> float_order32(a, b) == (
        if a == 0x8000_0000 && b == 0 {
            Some(Ordering::Equal)
        } else {
            Some(Ordering::Less)
        }),
        (!nan32(a) && !nan32(b)) ==> float_order32(a, b) == Some(
            order_of(order_key32(a), order_key32(b)),
        ),
{
    lemma_order_key_by_value32(a, b);
}

impl<const BITS: u32> PartialOrd for NonValueF32<BITS> {
    fn partial_cmp(&self, other: &Self) -> (r: Option<Ordering>)
        ensures
            r == float_order32(self@, other@),
    {
        let a = self.to_bits();
        let b = other.to_bits();
        if is_nan32(a) || is_nan32(b) {
            None
        } else {
            let ka = order_key_of32(a);
            let kb = order_key_of32(b);
            if ka < kb {
                Some(Ordering::Less)
            } else if ka > kb {
                Some(Ordering::Greater)
            } else {
                Some(Ordering::Equal)
            }
        }
    }
}

impl<const BITS: u32> PartialOrdSpecImpl for NonValueF32<BITS> {
    open spec fn obeys_partial_cmp_spec() -> bool {
        true
    }

    open spec fn partial_cmp_spec(&self, other: &Self) -> Option<Ordering> {
        float_order32(self@, other@)
    }
}

impl PartialOrd for NonNanF32 {
    fn partial_cmp(&self, other: &Self) -> (r: Option<Ordering>)
        ensures
            r == float_order32(self@, other@),
    {
        let a = self.to_bits();
        let b = other.to_bits();
        if is_nan32(a) || is_nan32(b) {
            None
        } else {
            let ka = order_key_of32(a);
            let kb = order_key_of32(b);
            if ka < kb {
                Some(Ordering::Less)
            } else if ka > kb {
                Some(Ordering::Greater)
            } else {
                Some(Ordering::Equal)
            }
        }
    }
}

impl PartialOrdSpecImpl for NonNanF32 {
    open spec fn obeys_partial_cmp_spec() -> bool {
        true
    }

    open spec fn partial_cmp_spec(&self, other: &Self) -> Option<Ordering> {
        float_order32(self@, other@)
    }
}

impl NonNanF32 {
    /// The total order of the values held: by value, with `-0.0` equal to
    /// `+0.0` and the infinities at the ends.
    pub fn compare(&self, other: &Self) -> (r: Ordering)
        ensures
            r == order_of(order_key32(self@), order_key32(other@)),
    {
        let a = self.order_key();
        let b = other.order_key();
        if a < b {
            Ordering::Less
        } else if a > b {
            Ordering::Greater
        } else {
            Ordering::Equal
        }
    }
}

/// `NonNanF32` holds no `NaN`, so its equality is an equivalence, its order is
/// total and agrees with that equality, and values that compare equal hash
/// alike (the zeros, `+0.0` and `-0.0`, are equal).
pub proof fn lemma_total_order_non_nan32(a: NonNanF32, b: NonNanF32, c: NonNanF32)
    requires
        !NonNanF32::rejects(a@),
        !NonNanF32::rejects(b@),
        !NonNanF32::rejects(c@),
    ensures
        PartialEqSpec::eq_spec(&a, &a),
        PartialEqSpec::eq_spec(&a, &b) ==> PartialEqSpec::eq_spec(&b, &a),
        PartialEqSpec::eq_spec(&a, &b) && PartialEqSpec::eq_spec(&b, &c) ==> PartialEqSpec::eq_spec(&a, &c),
        PartialOrdSpec::partial_cmp_spec(&a, &b) is Some,
        PartialOrdSpec::partial_cmp_spec(&a, &b) == Some(Ordering::Equal) <==> PartialEqSpec::eq_spec(&a, &b),
        PartialOrdSpec::partial_cmp_spec(&a, &b) == Some(Ordering::Less) <==> PartialOrdSpec::partial_cmp_spec(&b, &a) == Some(
            Ordering::Greater,
        ),
        PartialOrdSpec::partial_cmp_spec(&a, &b) == Some(Ordering::Less) && PartialOrdSpec::partial_cmp_spec(&b, &c) == Some(
            Ordering::Less,
        ) ==> PartialOrdSpec::partial_cmp_spec(&a, &c) == Some(Ordering::Less),
        PartialEqSpec::eq_spec(&a, &b) ==> hash_bits32(a@) == hash_bits32(b@),
{
    lemma_patterns32(a@);
    lemma_patterns32(b@);
}

impl PartialOrd for NonInfF32 {
    fn partial_cmp(&self, other: &Self) -> (r: Option<Ordering>)
        ensures
            r == float_order32(self@, other@),
    {
        let a = self.to_bits();
        let b = other.to_bits();
        if is_nan32(a) || is_nan32(b) {
            None
        } else {
            let ka = order_key_of32(a);
            let kb = order_key_of32(b);
            if ka < kb {
                Some(Ordering::Less)
            } else if ka > kb {
                Some(Ordering::Greater)
            } else {
                Some(Ordering::Equal)
            }
        }
    }
}

impl PartialOrdSpecImpl for NonInfF32 {
    open spec fn obeys_partial_cmp_spec() -> bool {
        true
    }

    open spec fn partial_cmp_spec(&self, other: &Self) -> Option<Ordering> {
        float_order32(self@, other@)
    }
}

impl PartialOrd for NonZeroF32 {
    fn partial_cmp(&self, other: &Self) -> (r: Option<Ordering>)
        ensures
            r == float_order32(self@, other@),
    {
        let a = self.to_bits();
        let b = other.to_bits();
        if is_nan32(a) || is_nan32(b) {
            None
        } else {
            let ka = order_key_of32(a);
            let kb = order_key_of32(b);
            if ka < kb {
                Some(Ordering::Less)
            } else if ka > kb {
                Some(Ordering::Greater)
            } else {
                Some(Ordering::Equal)
            }
        }
    }
}

impl PartialOrdSpecImpl for NonZeroF32 {
    open spec fn obeys_partial_cmp_spec() -> bool {
        true
    }

    open spec fn partial_cmp_spec(&self, other: &Self) -> Option<Ordering> {
        float_order32(self@, other@)
    }
}

impl PartialOrd for FiniteF32 {
    fn partial_cmp(&self, other: &Self) -> (r: Option<Ordering>)
        ensures
            r == float_order32(self@, other@),
    {
        let a = self.to_bits();
        let b = other.to_bits();
        if is_nan32(a) || is_nan32(b) {
            None
        } else {
            let ka = order_key_of32(a);
            let kb = order_key_of32(b);
            if ka < kb {
                Some(Ordering::Less)
            } else if ka > kb {
                Some(Ordering::Greater)
            } else {
                Some(Ordering::Equal)
            }
        }
    }
}

impl PartialOrdSpecImpl for FiniteF32 {
    open spec fn obeys_partial_cmp_spec() -> bool {
        true
    }

    open spec fn partial_cmp_spec(&self, other: &Self) -> Option<Ordering> {
        float_order32(self@, other@)
    }
}

impl FiniteF32 {
    /// The total order of the values held: by value, with `-0.0` equal to
    /// `+0.0` and the infinities at the ends.
    pub fn compare(&self, other: &Self) -> (r: Ordering)
        ensures
            r == order_of(order_key32(self@), order_key32(other@)),
    {
        let a = self.order_key();
        let b = other.order_key();
        if a < b {
            Ordering::Less
        } else if a > b {
            Ordering::Greater
        } else {
            Ordering::Equal
        }
    }
}

/// `FiniteF32` holds no `NaN`, so its equality is an equivalence, its order is
/// total and agrees with that equality, and values that compare equal hash
/// alike (the zeros, `+0.0` and `-0.0`, are equal).
pub proof fn lemma_total_order_finite32(a: FiniteF32, b: FiniteF32, c: FiniteF32)
    requires
        !FiniteF32::rejects(a@),
        !FiniteF32::rejects(b@),
        !FiniteF32::rejects(c@),
    ensures
        PartialEqSpec::eq_spec(&a, &a),
        PartialEqSpec::eq_spec(&a, &b) ==> PartialEqSpec::eq_spec(&b, &a),
        PartialEqSpec::eq_spec(&a, &b) && PartialEqSpec::eq_spec(&b, &c) ==> PartialEqSpec::eq_spec(&a, &c),
        PartialOrdSpec::partial_cmp_spec(&a, &b) is Some,
        PartialOrdSpec::partial_cmp_spec(&a, &b) == Some(Ordering::Equal) <==> PartialEqSpec::eq_spec(&a, &b),
        PartialOrdSpec::partial_cmp_spec(&a, &b) == Some(Ordering::Less) <==> PartialOrdSpec::partial_cmp_spec(&b, &a) == Some(
            Ordering::Greater,
        ),
        PartialOrdSpec::partial_cmp_spec(&a, &b) == Some(Ordering::Less) && PartialOrdSpec::partial_cmp_spec(&b, &c) == Some(
            Ordering::Less,
        ) ==> PartialOrdSpec::partial_cmp_spec(&a, &c) == Some(Ordering::Less),
        PartialEqSpec::eq_spec(&a, &b) ==> hash_bits32(a@) == hash_bits32(b@),
{
    lemma_patterns32(a@);
    lemma_patterns32(b@);
}

impl PartialOrd for NonSubnormalF32 {
    fn partial_cmp(&self, other: &Self) -> (r: Option<Ordering>)
        ensures
            r == float_order32(self@, other@),
    {
        let a = self.to_bits();
        let b = other.to_bits();
        if is_nan32(a) || is_nan32(b) {
            None
        } else {
            let ka = order_key_of32(a);
            let kb = order_key_of32(b);
            if ka < kb {
                Some(Ordering::Less)
            } else if ka > kb {
                Some(Ordering::Greater)
            } else {
                Some(Ordering::Equal)
            }
        }
    }
}

impl PartialOrdSpecImpl for NonSubnormalF32 {
    open spec fn obeys_partial_cmp_spec() -> bool {
        true
    }

    open spec fn partial_cmp_spec(&self, other: &Self) -> Option<Ordering> {
        float_order32(self@, other@)
    }
}

/// How two floats of width 64 compare, given their patterns: `None` when
/// either is `NaN`, otherwise by value.
pub open spec fn float_order64(a: u64, b: u64) -> Option<Ordering> {
    if nan64(a) || nan64(b) {
        None
    } else {
        Some(order_of(order_key64(a), order_key64(b)))
    }
}

/// Floats of width 64 compare by value: a `NaN` with nothing; two
/// non-negative patterns as unsigned integers; two negative ones inversely;
/// a negative one below a non-negative one, except that `-0.0` equals `+0.0`.
/// The total order `compare` of the `NaN`-free types gives the same answer.
pub proof fn lemma_float_order_by_value64(a: u64, b: u64)
    ensures
        float_order64(a, b) is None <==> (nan64(a) || nan64(b)),
        (!nan64(a) && !nan64(b) && a < 0x8000_0000_0000_0000 && b < 0x8000_0000_0000_0000) ==> ((float_order64(a, b)
            == Some(Ordering::Less) <==> a < b) && (float_order64(a, b) == Some(Ordering::Equal)
            <==> a == b)),
        (!nan64(a) && !nan64(b) && a >= 0x8000_0000_0000_0000 && b >= 0x8000_0000_0000_0000) ==> ((float_order64(a, b)
            == Some(Ordering::Less) <==> b < a) && (float_order64(a, b) == Some(Ordering::Equal)
            <==> a == b)),
        (!nan64(a) && !nan64(b) && a >= 0x8000_0000_0000_0000 && b < 0x8000_0000_0000_0000) ==> float_order64(a, b) == (
        if a == 0x8000_0000_0000_0000 && b == 0 {
            Some(Ordering::Equal)
        } else {
            Some(Ordering::Less)
        }),
        (!nan64(a) && !nan64(b)) ==> float_order64(a, b) == Some(
            order_of(order_key64(a), order_key64(b)),
        ),
{
    lemma_order_key_by_value64(a, b);
}

impl<const BITS: u64> PartialOrd for NonValueF64<BITS> {
    fn partial_cmp(&self, other: &Self) -> (r: Option<Ordering>)
        ensures
            r == float_order64(self@, other@),
    {
        let a = self.to_bits();
        let b = other.to_bits();
        if is_nan64(a) || is_nan64(b) {
            None
        } else {
            let ka = order_key_of64(a);
            let kb = order_key_of64(b);
            if ka < kb {
                Some(Ordering::Less)
            } else if ka > kb {
                Some(Ordering::Greater)
            } else {
                Some(Ordering::Equal)
            }
        }
    }
}

impl<const BITS: u64> PartialOrdSpecImpl for NonValueF64<BITS> {
    open spec fn obeys_partial_cmp_spec() -> bool {
        true
    }

    open spec fn partial_cmp_spec(&self, other: &Self) -> Option<Ordering> {
        float_order64(self@, other@)
    }
}

impl PartialOrd for NonNanF64 {
    fn partial_cmp(&self, other: &Self) -> (r: Option<Ordering>)
        ensures
            r == float_order64(self@, other@),
    {
        let a = self.to_bits();
        let b = other.to_bits();
        if is_nan64(a) || is_nan64(b) {
            None
        } else {
            let ka = order_key_of64(a);
            let kb = order_key_of64(b);
            if ka < kb {
                Some(Ordering::Less)
            } else if ka > kb {
                Some(Ordering::Greater)
            } else {
                Some(Ordering::Equal)
            }
        }
    }
}

impl PartialOrdSpecImpl for NonNanF64 {
    open spec fn obeys_partial_cmp_spec() -> bool {
        true
    }

    open spec fn partial_cmp_spec(&self, other: &Self) -> Option<Ordering> {
        float_order64(self@, other@)
    }
}

impl NonNanF64 {
    /// The total order of the values held: by value, with `-0.0` equal to
    /// `+0.0` and the infinities at the ends.
    pub fn compare(&self, other: &Self) -> (r: Ordering)
        ensures
            r == order_of(order_key64(self@), order_key64(other@)),
    {
        let a = self.order_key();
        let b = other.order_key();
        if a < b {
            Ordering::Less
        } else if a > b {
            Ordering::Greater
        } else {
            Ordering::Equal
        }
    }
}

/// `NonNanF64` holds no `NaN`, so its equality is an equivalence, its order is
/// total and agrees with that equality, and values that compare equal hash
/// alike (the zeros, `+0.0` and `-0.0`, are equal).
pub proof fn lemma_total_order_non_nan64(a: NonNanF64, b: NonNanF64, c: NonNanF64)
    requires
        !NonNanF64::rejects(a@),
        !NonNanF64::rejects(b@),
        !NonNanF64::rejects(c@),
    ensures
        PartialEqSpec::eq_spec(&a, &a),
        PartialEqSpec::eq_spec(&a, &b) ==> PartialEqSpec::eq_spec(&b, &a),
        PartialEqSpec::eq_spec(&a, &b) && PartialEqSpec::eq_spec(&b, &c) ==> PartialEqSpec::eq_spec(&a, &c),
        PartialOrdSpec::partial_cmp_spec(&a, &b) is Some,
        PartialOrdSpec::partial_cmp_spec(&a, &b) == Some(Ordering::Equal) <==> PartialEqSpec::eq_spec(&a, &b),
        PartialOrdSpec::partial_cmp_spec(&a, &b) == Some(Ordering::Less) <==> PartialOrdSpec::partial_cmp_spec(&b, &a) == Some(
            Ordering::Greater,
        ),
        PartialOrdSpec::partial_cmp_spec(&a, &b) == Some(Ordering::Less) && PartialOrdSpec::partial_cmp_spec(&b, &c) == Some(
            Ordering::Less,
        ) ==> PartialOrdSpec::partial_cmp_spec(&a, &c) == Some(Ordering::Less),
        PartialEqSpec::eq_spec(&a, &b) ==> hash_bits64(a@) == hash_bits64(b@),
{
    lemma_patterns64(a@);
    lemma_patterns64(b@);
}

impl PartialOrd for NonInfF64 {
    fn partial_cmp(&self, other: &Self) -> (r: Option<Ordering>)
        ensures
            r == float_order64(self@, other@),
    {
        let a = self.to_bits();
        let b = other.to_bits();
        if is_nan64(a) || is_nan64(b) {
            None
        } else {
            let ka = order_key_of64(a);
            let kb = order_key_of64(b);
            if ka < kb {
                Some(Ordering::Less)
            } else if ka > kb {
                Some(Ordering::Greater)
            } else {
                Some(Ordering::Equal)
            }
        }
    }
}

impl PartialOrdSpecImpl for NonInfF64 {
    open spec fn obeys_partial_cmp_spec() -> bool {
        true
    }

    open spec fn partial_cmp_spec(&self, other: &Self) -> Option<Ordering> {
        float_order64(self@, other@)
    }
}

impl PartialOrd for NonZeroF64 {
    fn partial_cmp(&self, other: &Self) -> (r: Option<Ordering>)
        ensures
            r == float_order64(self@, other@),
    {
        let a = self.to_bits();
        let b = other.to_bits();
        if is_nan64(a) || is_nan64(b) {
            None
        } else {
            let ka = order_key_of64(a);
            let kb = order_key_of64(b);
            if ka < kb {
                Some(Ordering::Less)
            } else if ka > kb {
                Some(Ordering::Greater)
            } else {
                Some(Ordering::Equal)
            }
        }
    }
}

impl PartialOrdSpecImpl for NonZeroF64 {
    open spec fn obeys_partial_cmp_spec() -> bool {
        true
    }

    open spec fn partial_cmp_spec(&self, other: &Self) -> Option<Ordering> {
        float_order64(self@, other@)
    }
}

impl PartialOrd for FiniteF64 {
    fn partial_cmp(&self, other: &Self) -> (r: Option<Ordering>)
        ensures
            r == float_order64(self@, other@),
    {
        let a = self.to_bits();
        let b = other.to_bits();
        if is_nan64(a) || is_nan64(b) {
            None
        } else {
            let ka = order_key_of64(a);
            let kb = order_key_of64(b);
            if ka < kb {
                Some(Ordering::Less)
            } else if ka > kb {
                Some(Ordering::Greater)
            } else {
                Some(Ordering::Equal)
            }
        }
    }
}

impl PartialOrdSpecImpl for FiniteF64 {
    open spec fn obeys_partial_cmp_spec() -> bool {
        true
    }

    open spec fn partial_cmp_spec(&self, other: &Self) -> Option<Ordering> {
        float_order64(self@, other@)
    }
}

impl FiniteF64 {
    /// The total order of the values held: by value, with `-0.0` equal to
    /// `+0.0` and the infinities at the ends.
    pub fn compare(&self, other: &Self) -> (r: Ordering)
        ensures
            r == order_of(order_key64(self@), order_key64(other@)),
    {
        let a = self.order_key();
        let b = other.order_key();
        if a < b {
            Ordering::Less
        } else if a > b {
            Ordering::Greater
        } else {
            Ordering::Equal
        }
    }
}

/// `FiniteF64` holds no `NaN`, so its equality is an equivalence, its order is
/// total and agrees with that equality, and values that compare equal hash
/// alike (the zeros, `+0.0` and `-0.0`, are equal).
pub proof fn lemma_total_order_finite64(a: FiniteF64, b: FiniteF64, c: FiniteF64)
    requires
        !FiniteF64::rejects(a@),
        !FiniteF64::rejects(b@),
        !FiniteF64::rejects(c@),
    ensures
        PartialEqSpec::eq_spec(&a, &a),
        PartialEqSpec::eq_spec(&a, &b) ==> PartialEqSpec::eq_spec(&b, &a),
        PartialEqSpec::eq_spec(&a, &b) && PartialEqSpec::eq_spec(&b, &c) ==> PartialEqSpec::eq_spec(&a, &c),
        PartialOrdSpec::partial_cmp_spec(&a, &b) is Some,
        PartialOrdSpec::partial_cmp_spec(&a, &b) == Some(Ordering::Equal) <==> PartialEqSpec::eq_spec(&a, &b),
        PartialOrdSpec::partial_cmp_spec(&a, &b) == Some(Ordering::Less) <==> PartialOrdSpec::partial_cmp_spec(&b, &a) == Some(
            Ordering::Greater,
        ),
        PartialOrdSpec::partial_cmp_spec(&a, &b) == Some(Ordering::Less) && PartialOrdSpec::partial_cmp_spec(&b, &c) == Some(
            Ordering::Less,
        ) ==> PartialOrdSpec::partial_cmp_spec(&a, &c) == Some(Ordering::Less),
        PartialEqSpec::eq_spec(&a, &b) ==> hash_bits64(a@) == hash_bits64(b@),
{
    lemma_patterns64(a@);
    lemma_patterns64(b@);
}

impl PartialOrd for NonSubnormalF64 {
    fn partial_cmp(&self, other: &Self) -> (r: Option<Ordering>)
        ensures
            r == float_order64(self@, other@),
    {
        let a = self.to_bits();
        let b = other.to_bits();
        if is_nan64(a) || is_nan64(b) {
            None
        } else {
            let ka = order_key_of64(a);
            let kb = order_key_of64(b);
            if ka < kb {
                Some(Ordering::Less)
            } else if ka > kb {
                Some(Ordering::Greater)
            } else {
                Some(Ordering::Equal)
            }
        }
    }
}

impl PartialOrdSpecImpl for NonSubnormalF64 {
    open spec fn obeys_partial_cmp_spec() -> bool {
        true
    }

    open spec fn partial_cmp_spec(&self, other: &Self) -> Option<Ordering> {
        float_order64(self@, other@)
    }
}

} // verus!
