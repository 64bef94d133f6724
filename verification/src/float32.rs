//! Float niche types of width 32, on the IEEE-754 bit pattern.
//!
//! A value is handled by its bit pattern (`to_bits` / `from_bits` of the
//! primitive float convert). Two families:
//! * **bit-exact**: `NonValueF32<BITS>` forbids the one pattern `BITS`, with
//!   the `NonMaxF32` / `NonMinF32` aliases;
//! * **class-based**: `NonNanF32`, `NonInfF32`, `NonZeroF32`, `FiniteF32`
//!   and `NonSubnormalF32` reject a whole class of values, and anchor their
//!   niche on one pattern drawn from that class, so that the anchor itself can
//!   never be stored (see `lemma_anchor_rejected` of each type).
//!
//! Comparison is by value: `NaN` equals nothing, `+0.0` equals `-0.0`.

use vstd::prelude::*;
use vstd::std_specs::cmp::PartialEqSpecImpl;
use crate::error::{ParseFloatError, TryFromFloatError};
use crate::bits::lemma_u32_bits;
use crate::nonzero::{NonZeroCellU32, nonzero_u32_get, nonzero_u32_new, nonzero_u32_value};

verus! {

/// Whether the sign bit is set.
pub open spec fn sign32(b: u32) -> bool {
    b >= 0x8000_0000
}

/// The biased exponent field.
pub open spec fn exponent32(b: u32) -> u32 {
    (b >> 23) & 0xff
}

/// The fraction field.
pub open spec fn fraction32(b: u32) -> u32 {
    b & 0x7f_ffff
}

/// The pattern is a `NaN`: all exponent bits set and a non-zero fraction.
pub open spec fn nan32(b: u32) -> bool {
    exponent32(b) == 0xff && fraction32(b) != 0
}

/// The pattern is an infinity of either sign.
pub open spec fn infinite32(b: u32) -> bool {
    exponent32(b) == 0xff && fraction32(b) == 0
}

/// The pattern is finite: neither `NaN` nor infinite.
pub open spec fn finite32(b: u32) -> bool {
    exponent32(b) != 0xff
}

/// The pattern is a zero of either sign.
pub open spec fn zero32(b: u32) -> bool {
    b & 0x7fff_ffff == 0
}

/// The pattern is subnormal: zero exponent and a non-zero fraction.
pub open spec fn subnormal32(b: u32) -> bool {
    exponent32(b) == 0 && fraction32(b) != 0
}

/// An integer that orders the values that are not `NaN` as the floats
/// compare: the magnitude, negated when the sign bit is set (both zeros map to 0).
pub open spec fn order_key32(b: u32) -> int {
    if sign32(b) {
        -((b & 0x7fff_ffff) as int)
    } else {
        b as int
    }
}

/// Float equality on patterns: `NaN` equals nothing, the zeros equal each other.
pub open spec fn value_eq32(a: u32, b: u32) -> bool {
    !nan32(a) && !nan32(b) && order_key32(a) == order_key32(b)
}

/// The pattern that a value hashes by: the zeros share the pattern of `+0.0`.
pub open spec fn hash_bits32(b: u32) -> u32 {
    if zero32(b) {
        0
    } else {
        b
    }
}

/// The anchors lie in the classes that their types reject, and the order key
/// is the pattern itself without the sign and its negation with it.
pub proof fn lemma_patterns32(b: u32)
    by (bit_vector)
    ensures
        nan32(0x7fc0_0000),
        infinite32(0x7f80_0000),
        zero32(0),
        !finite32(0x7fc0_0000),
        subnormal32(1),
        b < 0x8000_0000 ==> (b & 0x7fff_ffff) == b,
        b >= 0x8000_0000 ==> (b & 0x7fff_ffff) == b - 0x8000_0000,
        !finite32(b) <==> (nan32(b) || infinite32(b)),
{
}

/// `FiniteF32` rejects exactly what `NonNanF32` or `NonInfF32` rejects:
/// a pattern is non-finite when it is a `NaN` or an infinity.
pub proof fn lemma_finite_is_non_nan_and_non_inf(b: u32)
    ensures
        FiniteF32::rejects(b) <==> (NonNanF32::rejects(b) || NonInfF32::rejects(b)),
{
    lemma_patterns32(b);
}

/// The magnitude of a pattern: the pattern without its sign bit.
pub open spec fn magnitude32(b: u32) -> int {
    if b >= 0x8000_0000 {
        b - 0x8000_0000
    } else {
        b as int
    }
}

/// The classes by the magnitude field: zeros have none, subnormals lie below
/// the smallest normal, the infinities sit exactly at the all-ones exponent,
/// `NaN`s above it, and finite values below it.
proof fn lemma_classes_by_mask32(b: u32)
    by (bit_vector)
    ensures
        zero32(b) <==> (b & 0x7fff_ffff) == 0,
        subnormal32(b) <==> (0 < (b & 0x7fff_ffff) && (b & 0x7fff_ffff) < 0x0080_0000),
        infinite32(b) <==> (b & 0x7fff_ffff) == 0x7f80_0000,
        nan32(b) <==> (b & 0x7fff_ffff) > 0x7f80_0000,
        finite32(b) <==> (b & 0x7fff_ffff) < 0x7f80_0000,
{
}

/// The order key orders patterns as the floats they encode: two patterns
/// without the sign bit as unsigned integers, two with it inversely, a
/// negative one below a non-negative one (`-0.0` and `+0.0` meet at zero);
/// keys are equal exactly for the same pattern or the two zeros. Hence
/// float equality holds exactly for two equal non-`NaN` patterns or the two
/// zeros, and the hash pattern is equal exactly for equal values.
pub proof fn lemma_order_key_by_value32(a: u32, b: u32)
    ensures
        (a < 0x8000_0000 && b < 0x8000_0000) ==> (order_key32(a) < order_key32(b) <==> a < b),
        (a >= 0x8000_0000 && b >= 0x8000_0000) ==> (order_key32(a) < order_key32(b) <==> b < a),
        (a >= 0x8000_0000 && b < 0x8000_0000) ==> order_key32(a) <= order_key32(b),
        order_key32(a) == order_key32(b) <==> (a == b || ((a == 0 || a == 0x8000_0000) && (b == 0
            || b == 0x8000_0000))),
        value_eq32(a, b) <==> (!nan32(a) && !nan32(b) && (a == b || ((a == 0 || a == 0x8000_0000)
            && (b == 0 || b == 0x8000_0000)))),
        hash_bits32(a) == hash_bits32(b) <==> (a == b || ((a == 0 || a == 0x8000_0000) && (b == 0
            || b == 0x8000_0000))),
{
    lemma_patterns32(a);
    lemma_patterns32(b);
    lemma_classes_by_mask32(a);
    lemma_classes_by_mask32(b);
}

/// The classes that the class types reject, by the magnitude of the pattern:
/// `NonZeroF32` rejects exactly `+0.0` and `-0.0`; `NonSubnormalF32` the
/// magnitudes between zero and the smallest normal; `NonInfF32` exactly the
/// magnitude of infinity; `NonNanF32` every magnitude above it; and
/// `FiniteF32` both.
pub proof fn lemma_classes_by_magnitude32(b: u32)
    ensures
        NonZeroF32::rejects(b) <==> (b == 0 || b == 0x8000_0000),
        NonZeroF32::rejects(b) <==> magnitude32(b) == 0,
        NonSubnormalF32::rejects(b) <==> (0 < magnitude32(b) && magnitude32(b) < 0x0080_0000),
        NonInfF32::rejects(b) <==> magnitude32(b) == 0x7f80_0000,
        NonNanF32::rejects(b) <==> magnitude32(b) > 0x7f80_0000,
        FiniteF32::rejects(b) <==> magnitude32(b) >= 0x7f80_0000,
{
    lemma_patterns32(b);
    lemma_classes_by_mask32(b);
}

/// Calls `Hash::hash` of `u32` on `value`, feeding it to `state`.
#[verifier::external_body]
pub(crate) fn hash_u32_into<H: core::hash::Hasher>(value: u32, state: &mut H) {
    core::hash::Hash::hash(&value, state)
}

/// Whether the pattern is a `NaN`.
pub fn is_nan32(b: u32) -> (r: bool)
    ensures
        r == nan32(b),
{
    (b >> 23) & 0xff == 0xff && b & 0x7f_ffff != 0
}

/// Whether the pattern is an infinity.
pub fn is_infinite32(b: u32) -> (r: bool)
    ensures
        r == infinite32(b),
{
    (b >> 23) & 0xff == 0xff && b & 0x7f_ffff == 0
}

/// Whether the pattern is finite.
pub fn is_finite32(b: u32) -> (r: bool)
    ensures
        r == finite32(b),
{
    (b >> 23) & 0xff != 0xff
}

/// Whether the pattern is a zero.
pub fn is_zero32(b: u32) -> (r: bool)
    ensures
        r == zero32(b),
{
    b & 0x7fff_ffff == 0
}

/// Whether the pattern is subnormal.
pub fn is_subnormal32(b: u32) -> (r: bool)
    ensures
        r == subnormal32(b),
{
    (b >> 23) & 0xff == 0 && b & 0x7f_ffff != 0
}

/// The order key of a pattern (see `order_key32`).
pub fn order_key_of32(b: u32) -> (r: i64)
    ensures
        r as int == order_key32(b),
{
    if b >= 0x8000_0000 {
        -((b & 0x7fff_ffff) as i64)
    } else {
        b as i64
    }
}

/// Float equality on two patterns (see `value_eq32`).
pub fn values_equal32(a: u32, b: u32) -> (r: bool)
    ensures
        r == value_eq32(a, b),
{
    !is_nan32(a) && !is_nan32(b) && order_key_of32(a) == order_key_of32(b)
}

/// The pattern that a value hashes by (see `hash_bits32`).
pub fn hash_bits_of32(b: u32) -> (r: u32)
    ensures
        r == hash_bits32(b),
{
    if b & 0x7fff_ffff == 0 {
        0
    } else {
        b
    }
}

/// A `f32` whose bit pattern is known not to equal `BITS`.
///
/// Rejection is bit-exact: `+0.0` and `-0.0` are distinct patterns, and a
/// `NaN` other than `BITS` is held. The pattern is stored as the non-zero
/// `bits ^ BITS`, so `Option<Self>` is no larger than the float.
#[derive(Clone, Copy, Debug)]
pub struct NonValueF32<const BITS: u32>(NonZeroCellU32);

/// A `f32` whose pattern is not that of its maximum finite value.
pub type NonMaxF32 = NonValueF32<0x7f7f_ffff>;

/// A `f32` whose pattern is not that of its minimum finite value.
pub type NonMinF32 = NonValueF32<0xff7f_ffff>;

impl<const BITS: u32> NonValueF32<BITS> {
    /// The bit pattern held.
    pub closed spec fn view(&self) -> u32 {
        nonzero_u32_value(self.0) ^ BITS
    }

    /// The value that holds the pattern `bits`, where `bits != BITS`.
    pub closed spec fn of(bits: u32) -> Self {
        choose|r: Self| r@ == bits
    }

    /// The stored encoding is never zero, which is what leaves the niche free.
    #[verifier::type_invariant]
    spec fn encoding_nonzero(self) -> bool {
        nonzero_u32_value(self.0) != 0
    }

    proof fn lemma_unique(r: Self, bits: u32)
        requires
            r@ == bits,
            forall|other: NonZeroCellU32|
                #[trigger] nonzero_u32_value(other) == nonzero_u32_value(r.0) ==> other == r.0,
        ensures
            r == Self::of(bits),
    {
        let c = Self::of(bits);
        assert(c@ == bits);
        let n: u32 = BITS;
        lemma_u32_bits(nonzero_u32_value(c.0), n);
        lemma_u32_bits(nonzero_u32_value(r.0), n);
    }

    /// Creates a value if its pattern is not `BITS`, otherwise `None`.
    pub fn from_bits(bits: u32) -> (r: Option<Self>)
        ensures
            r is Some <==> bits != BITS,
            r matches Some(v) ==> v@ == bits && v == Self::of(bits),
    {
        let n: u32 = BITS;
        proof {
            lemma_u32_bits(bits, n);
        }
        match nonzero_u32_new(bits ^ n) {
            None => None,
            Some(cell) => {
                let r = NonValueF32::<BITS>(cell);
                proof {
                    Self::lemma_unique(r, bits);
                }
                Some(r)
            },
        }
    }

    /// Creates a value from a pattern that the caller knows is not `BITS`.
    pub fn from_bits_unchecked(bits: u32) -> (r: Self)
        requires
            bits != BITS,
        ensures
            r@ == bits,
            r == Self::of(bits),
    {
        match Self::from_bits(bits) {
            Some(r) => r,
            None => unreached(),
        }
    }

    /// Returns the bit pattern; it is never `BITS`.
    pub fn to_bits(&self) -> (r: u32)
        ensures
            r == self@,
            r != BITS,
    {
        proof {
            use_type_invariant(self);
        }
        let n: u32 = BITS;
        let x = nonzero_u32_get(&self.0);
        proof {
            lemma_u32_bits(x, n);
        }
        x ^ n
    }

    /// The order key of the value (see `order_key32`).
    pub fn order_key(&self) -> (r: i64)
        ensures
            r as int == order_key32(self@),
    {
        order_key_of32(self.to_bits())
    }

    /// The checked conversion of `TryFrom`, on the pattern: an error for `BITS`.
    pub fn try_from_bits(bits: u32) -> (r: Result<Self, TryFromFloatError>)
        ensures
            r is Ok <==> bits != BITS,
            r matches Ok(v) ==> v@ == bits,
    {
        match Self::from_bits(bits) {
            Some(v) => Ok(v),
            None => Err(TryFromFloatError::new()),
        }
    }

    /// What `FromStr` makes of the outcome of parsing a float: the pattern of
    /// the parsed value, or `None` where the text was not a float.
    pub fn from_parsed_bits(parsed: Option<u32>) -> (r: Result<Self, ParseFloatError>)
        ensures
            r is Ok <==> (parsed matches Some(b) && b != BITS),
            r matches Ok(v) ==> v@ == parsed->0,
    {
        match parsed {
            None => Err(ParseFloatError::new()),
            Some(bits) => match Self::from_bits(bits) {
                Some(v) => Ok(v),
                None => Err(ParseFloatError::new()),
            },
        }
    }
}

impl<const BITS: u32> PartialEq for NonValueF32<BITS> {
    /// Compares by value, as the primitive does.
    fn eq(&self, other: &Self) -> (r: bool)
        ensures
            r == value_eq32(self@, other@),
    {
        values_equal32(self.to_bits(), other.to_bits())
    }
}

impl<const BITS: u32> PartialEqSpecImpl for NonValueF32<BITS> {
    open spec fn obeys_eq_spec() -> bool {
        true
    }

    open spec fn eq_spec(&self, other: &Self) -> bool {
        value_eq32(self@, other@)
    }
}

/// The pattern that `NonNanF32` anchors its niche on; it lies in the rejected class.
pub const NONNAN_F32_ANCHOR: u32 = 0x7fc0_0000;

/// A `f32` guaranteed not to be `NaN`.
///
/// The pattern is stored as the non-zero `bits ^ anchor`, so `Option<Self>`
/// is no larger than the float.
#[derive(Clone, Copy, Debug)]
pub struct NonNanF32(NonZeroCellU32);

impl NonNanF32 {
    /// The bit pattern held.
    pub closed spec fn view(&self) -> u32 {
        nonzero_u32_value(self.0) ^ NONNAN_F32_ANCHOR
    }

    /// The class of patterns that the type rejects.
    pub open spec fn rejects(bits: u32) -> bool {
        nan32(bits)
    }

    /// The value that holds the pattern `bits`, where `bits` is not rejected.
    pub closed spec fn of(bits: u32) -> Self {
        choose|r: Self| r@ == bits
    }

    /// The stored encoding is never zero and the pattern is never rejected.
    #[verifier::type_invariant]
    spec fn well_formed(self) -> bool {
        nonzero_u32_value(self.0) != 0 && !Self::rejects(self@)
    }

    /// The anchor is itself rejected, so no value can be stored as zero: the
    /// niche survives.
    pub proof fn lemma_anchor_rejected()
        ensures
            Self::rejects(NONNAN_F32_ANCHOR),
    {
        lemma_patterns32(0);
    }

    proof fn lemma_unique(r: Self, bits: u32)
        requires
            r@ == bits,
            forall|other: NonZeroCellU32|
                #[trigger] nonzero_u32_value(other) == nonzero_u32_value(r.0) ==> other == r.0,
        ensures
            r == Self::of(bits),
    {
        let c = Self::of(bits);
        assert(c@ == bits);
        lemma_u32_bits(nonzero_u32_value(c.0), NONNAN_F32_ANCHOR);
        lemma_u32_bits(nonzero_u32_value(r.0), NONNAN_F32_ANCHOR);
    }

    /// Creates a value if its pattern is not in the rejected class, otherwise `None`.
    pub fn from_bits(bits: u32) -> (r: Option<Self>)
        ensures
            r is Some <==> !Self::rejects(bits),
            r matches Some(v) ==> v@ == bits && v == Self::of(bits),
    {
        if is_nan32(bits) {
            return None;
        }
        proof {
            lemma_u32_bits(bits, NONNAN_F32_ANCHOR);
            Self::lemma_anchor_rejected();
        }
        match nonzero_u32_new(bits ^ NONNAN_F32_ANCHOR) {
            None => None,
            Some(cell) => {
                let r = NonNanF32(cell);
                proof {
                    Self::lemma_unique(r, bits);
                }
                Some(r)
            },
        }
    }

    /// Creates a value from a pattern that the caller knows is not rejected.
    pub fn from_bits_unchecked(bits: u32) -> (r: Self)
        requires
            !Self::rejects(bits),
        ensures
            r@ == bits,
            r == Self::of(bits),
    {
        match Self::from_bits(bits) {
            Some(r) => r,
            None => unreached(),
        }
    }

    /// Returns the bit pattern; it is never in the rejected class.
    pub fn to_bits(&self) -> (r: u32)
        ensures
            r == self@,
            !Self::rejects(r),
    {
        proof {
            use_type_invariant(self);
        }
        let x = nonzero_u32_get(&self.0);
        x ^ NONNAN_F32_ANCHOR
    }

    /// The order key of the value (see `order_key32`).
    pub fn order_key(&self) -> (r: i64)
        ensures
            r as int == order_key32(self@),
    {
        order_key_of32(self.to_bits())
    }

    /// The checked conversion of `TryFrom`, on the pattern: an error for a rejected pattern.
    pub fn try_from_bits(bits: u32) -> (r: Result<Self, TryFromFloatError>)
        ensures
            r is Ok <==> !Self::rejects(bits),
            r matches Ok(v) ==> v@ == bits,
    {
        match Self::from_bits(bits) {
            Some(v) => Ok(v),
            None => Err(TryFromFloatError::new()),
        }
    }

    /// What `FromStr` makes of the outcome of parsing a float: the pattern of
    /// the parsed value, or `None` where the text was not a float.
    pub fn from_parsed_bits(parsed: Option<u32>) -> (r: Result<Self, ParseFloatError>)
        ensures
            r is Ok <==> (parsed matches Some(b) && !Self::rejects(b)),
            r matches Ok(v) ==> v@ == parsed->0,
    {
        match parsed {
            None => Err(ParseFloatError::new()),
            Some(bits) => match Self::from_bits(bits) {
                Some(v) => Ok(v),
                None => Err(ParseFloatError::new()),
            },
        }
    }

    /// The pattern the value hashes by: `-0.0` hashes as `+0.0`, so that
    /// values that compare equal hash alike.
    pub fn hash_bits(&self) -> (r: u32)
        ensures
            r == hash_bits32(self@),
    {
        hash_bits_of32(self.to_bits())
    }
}

impl PartialEq for NonNanF32 {
    /// Compares by value, as the primitive does.
    fn eq(&self, other: &Self) -> (r: bool)
        ensures
            r == value_eq32(self@, other@),
    {
        values_equal32(self.to_bits(), other.to_bits())
    }
}

impl PartialEqSpecImpl for NonNanF32 {
    open spec fn obeys_eq_spec() -> bool {
        true
    }

    open spec fn eq_spec(&self, other: &Self) -> bool {
        value_eq32(self@, other@)
    }
}

impl Eq for NonNanF32 {

}

impl core::hash::Hash for NonNanF32 {
    /// Hashes `hash_bits`, so that values that compare equal hash alike.
    fn hash<H: core::hash::Hasher>(&self, state: &mut H) {
        let bits = self.hash_bits();
        hash_u32_into(bits, state);
    }
}

/// The pattern that `NonInfF32` anchors its niche on; it lies in the rejected class.
pub const NONINF_F32_ANCHOR: u32 = 0x7f80_0000;

/// A `f32` guaranteed not to be infinite.
///
/// The pattern is stored as the non-zero `bits ^ anchor`, so `Option<Self>`
/// is no larger than the float.
#[derive(Clone, Copy, Debug)]
pub struct NonInfF32(NonZeroCellU32);

impl NonInfF32 {
    /// The bit pattern held.
    pub closed spec fn view(&self) -> u32 {
        nonzero_u32_value(self.0) ^ NONINF_F32_ANCHOR
    }

    /// The class of patterns that the type rejects.
    pub open spec fn rejects(bits: u32) -> bool {
        infinite32(bits)
    }

    /// The value that holds the pattern `bits`, where `bits` is not rejected.
    pub closed spec fn of(bits: u32) -> Self {
        choose|r: Self| r@ == bits
    }

    /// The stored encoding is never zero and the pattern is never rejected.
    #[verifier::type_invariant]
    spec fn well_formed(self) -> bool {
        nonzero_u32_value(self.0) != 0 && !Self::rejects(self@)
    }

    /// The anchor is itself rejected, so no value can be stored as zero: the
    /// niche survives.
    pub proof fn lemma_anchor_rejected()
        ensures
            Self::rejects(NONINF_F32_ANCHOR),
    {
        lemma_patterns32(0);
    }

    proof fn lemma_unique(r: Self, bits: u32)
        requires
            r@ == bits,
            forall|other: NonZeroCellU32|
                #[trigger] nonzero_u32_value(other) == nonzero_u32_value(r.0) ==> other == r.0,
        ensures
            r == Self::of(bits),
    {
        let c = Self::of(bits);
        assert(c@ == bits);
        lemma_u32_bits(nonzero_u32_value(c.0), NONINF_F32_ANCHOR);
        lemma_u32_bits(nonzero_u32_value(r.0), NONINF_F32_ANCHOR);
    }

    /// Creates a value if its pattern is not in the rejected class, otherwise `None`.
    pub fn from_bits(bits: u32) -> (r: Option<Self>)
        ensures
            r is Some <==> !Self::rejects(bits),
            r matches Some(v) ==> v@ == bits && v == Self::of(bits),
    {
        if is_infinite32(bits) {
            return None;
        }
        proof {
            lemma_u32_bits(bits, NONINF_F32_ANCHOR);
            Self::lemma_anchor_rejected();
        }
        match nonzero_u32_new(bits ^ NONINF_F32_ANCHOR) {
            None => None,
            Some(cell) => {
                let r = NonInfF32(cell);
                proof {
                    Self::lemma_unique(r, bits);
                }
                Some(r)
            },
        }
    }

    /// Creates a value from a pattern that the caller knows is not rejected.
    pub fn from_bits_unchecked(bits: u32) -> (r: Self)
        requires
            !Self::rejects(bits),
        ensures
            r@ == bits,
            r == Self::of(bits),
    {
        match Self::from_bits(bits) {
            Some(r) => r,
            None => unreached(),
        }
    }

    /// Returns the bit pattern; it is never in the rejected class.
    pub fn to_bits(&self) -> (r: u32)
        ensures
            r == self@,
            !Self::rejects(r),
    {
        proof {
            use_type_invariant(self);
        }
        let x = nonzero_u32_get(&self.0);
        x ^ NONINF_F32_ANCHOR
    }

    /// The order key of the value (see `order_key32`).
    pub fn order_key(&self) -> (r: i64)
        ensures
            r as int == order_key32(self@),
    {
        order_key_of32(self.to_bits())
    }

    /// The checked conversion of `TryFrom`, on the pattern: an error for a rejected pattern.
    pub fn try_from_bits(bits: u32) -> (r: Result<Self, TryFromFloatError>)
        ensures
            r is Ok <==> !Self::rejects(bits),
            r matches Ok(v) ==> v@ == bits,
    {
        match Self::from_bits(bits) {
            Some(v) => Ok(v),
            None => Err(TryFromFloatError::new()),
        }
    }

    /// What `FromStr` makes of the outcome of parsing a float: the pattern of
    /// the parsed value, or `None` where the text was not a float.
    pub fn from_parsed_bits(parsed: Option<u32>) -> (r: Result<Self, ParseFloatError>)
        ensures
            r is Ok <==> (parsed matches Some(b) && !Self::rejects(b)),
            r matches Ok(v) ==> v@ == parsed->0,
    {
        match parsed {
            None => Err(ParseFloatError::new()),
            Some(bits) => match Self::from_bits(bits) {
                Some(v) => Ok(v),
                None => Err(ParseFloatError::new()),
            },
        }
    }
}

impl PartialEq for NonInfF32 {
    /// Compares by value, as the primitive does.
    fn eq(&self, other: &Self) -> (r: bool)
        ensures
            r == value_eq32(self@, other@),
    {
        values_equal32(self.to_bits(), other.to_bits())
    }
}

impl PartialEqSpecImpl for NonInfF32 {
    open spec fn obeys_eq_spec() -> bool {
        true
    }

    open spec fn eq_spec(&self, other: &Self) -> bool {
        value_eq32(self@, other@)
    }
}

/// The pattern that `NonZeroF32` anchors its niche on; it lies in the rejected class.
pub const NONZERO_F32_ANCHOR: u32 = 0x0000_0000;

/// A `f32` guaranteed not to be zero (`+0.0` or `-0.0`).
///
/// The pattern is stored as the non-zero `bits ^ anchor`, so `Option<Self>`
/// is no larger than the float.
#[derive(Clone, Copy, Debug)]
pub struct NonZeroF32(NonZeroCellU32);

impl NonZeroF32 {
    /// The bit pattern held.
    pub closed spec fn view(&self) -> u32 {
        nonzero_u32_value(self.0) ^ NONZERO_F32_ANCHOR
    }

    /// The class of patterns that the type rejects.
    pub open spec fn rejects(bits: u32) -> bool {
        zero32(bits)
    }

    /// The value that holds the pattern `bits`, where `bits` is not rejected.
    pub closed spec fn of(bits: u32) -> Self {
        choose|r: Self| r@ == bits
    }

    /// The stored encoding is never zero and the pattern is never rejected.
    #[verifier::type_invariant]
    spec fn well_formed(self) -> bool {
        nonzero_u32_value(self.0) != 0 && !Self::rejects(self@)
    }

    /// The anchor is itself rejected, so no value can be stored as zero: the
    /// niche survives.
    pub proof fn lemma_anchor_rejected()
        ensures
            Self::rejects(NONZERO_F32_ANCHOR),
    {
        lemma_patterns32(0);
    }

    proof fn lemma_unique(r: Self, bits: u32)
        requires
            r@ == bits,
            forall|other: NonZeroCellU32|
                #[trigger] nonzero_u32_value(other) == nonzero_u32_value(r.0) ==> other == r.0,
        ensures
            r == Self::of(bits),
    {
        let c = Self::of(bits);
        assert(c@ == bits);
        lemma_u32_bits(nonzero_u32_value(c.0), NONZERO_F32_ANCHOR);
        lemma_u32_bits(nonzero_u32_value(r.0), NONZERO_F32_ANCHOR);
    }

    /// Creates a value if its pattern is not in the rejected class, otherwise `None`.
    pub fn from_bits(bits: u32) -> (r: Option<Self>)
        ensures
            r is Some <==> !Self::rejects(bits),
            r matches Some(v) ==> v@ == bits && v == Self::of(bits),
    {
        if is_zero32(bits) {
            return None;
        }
        proof {
            lemma_u32_bits(bits, NONZERO_F32_ANCHOR);
            Self::lemma_anchor_rejected();
        }
        match nonzero_u32_new(bits ^ NONZERO_F32_ANCHOR) {
            None => None,
            Some(cell) => {
                let r = NonZeroF32(cell);
                proof {
                    Self::lemma_unique(r, bits);
                }
                Some(r)
            },
        }
    }

    /// Creates a value from a pattern that the caller knows is not rejected.
    pub fn from_bits_unchecked(bits: u32) -> (r: Self)
        requires
            !Self::rejects(bits),
        ensures
            r@ == bits,
            r == Self::of(bits),
    {
        match Self::from_bits(bits) {
            Some(r) => r,
            None => unreached(),
        }
    }

    /// Returns the bit pattern; it is never in the rejected class.
    pub fn to_bits(&self) -> (r: u32)
        ensures
            r == self@,
            !Self::rejects(r),
    {
        proof {
            use_type_invariant(self);
        }
        let x = nonzero_u32_get(&self.0);
        x ^ NONZERO_F32_ANCHOR
    }

    /// The order key of the value (see `order_key32`).
    pub fn order_key(&self) -> (r: i64)
        ensures
            r as int == order_key32(self@),
    {
        order_key_of32(self.to_bits())
    }

    /// The checked conversion of `TryFrom`, on the pattern: an error for a rejected pattern.
    pub fn try_from_bits(bits: u32) -> (r: Result<Self, TryFromFloatError>)
        ensures
            r is Ok <==> !Self::rejects(bits),
            r matches Ok(v) ==> v@ == bits,
    {
        match Self::from_bits(bits) {
            Some(v) => Ok(v),
            None => Err(TryFromFloatError::new()),
        }
    }

    /// What `FromStr` makes of the outcome of parsing a float: the pattern of
    /// the parsed value, or `None` where the text was not a float.
    pub fn from_parsed_bits(parsed: Option<u32>) -> (r: Result<Self, ParseFloatError>)
        ensures
            r is Ok <==> (parsed matches Some(b) && !Self::rejects(b)),
            r matches Ok(v) ==> v@ == parsed->0,
    {
        match parsed {
            None => Err(ParseFloatError::new()),
            Some(bits) => match Self::from_bits(bits) {
                Some(v) => Ok(v),
                None => Err(ParseFloatError::new()),
            },
        }
    }
}

impl PartialEq for NonZeroF32 {
    /// Compares by value, as the primitive does.
    fn eq(&self, other: &Self) -> (r: bool)
        ensures
            r == value_eq32(self@, other@),
    {
        values_equal32(self.to_bits(), other.to_bits())
    }
}

impl PartialEqSpecImpl for NonZeroF32 {
    open spec fn obeys_eq_spec() -> bool {
        true
    }

    open spec fn eq_spec(&self, other: &Self) -> bool {
        value_eq32(self@, other@)
    }
}

/// The pattern that `FiniteF32` anchors its niche on; it lies in the rejected class.
pub const FINITE_F32_ANCHOR: u32 = 0x7fc0_0000;

/// A `f32` guaranteed not to be non-finite (`NaN` or infinite).
///
/// The pattern is stored as the non-zero `bits ^ anchor`, so `Option<Self>`
/// is no larger than the float.
#[derive(Clone, Copy, Debug)]
pub struct FiniteF32(NonZeroCellU32);

impl FiniteF32 {
    /// The bit pattern held.
    pub closed spec fn view(&self) -> u32 {
        nonzero_u32_value(self.0) ^ FINITE_F32_ANCHOR
    }

    /// The class of patterns that the type rejects.
    pub open spec fn rejects(bits: u32) -> bool {
        !finite32(bits)
    }

    /// The value that holds the pattern `bits`, where `bits` is not rejected.
    pub closed spec fn of(bits: u32) -> Self {
        choose|r: Self| r@ == bits
    }

    /// The stored encoding is never zero and the pattern is never rejected.
    #[verifier::type_invariant]
    spec fn well_formed(self) -> bool {
        nonzero_u32_value(self.0) != 0 && !Self::rejects(self@)
    }

    /// The anchor is itself rejected, so no value can be stored as zero: the
    /// niche survives.
    pub proof fn lemma_anchor_rejected()
        ensures
            Self::rejects(FINITE_F32_ANCHOR),
    {
        lemma_patterns32(0);
    }

    proof fn lemma_unique(r: Self, bits: u32)
        requires
            r@ == bits,
            forall|other: NonZeroCellU32|
                #[trigger] nonzero_u32_value(other) == nonzero_u32_value(r.0) ==> other == r.0,
        ensures
            r == Self::of(bits),
    {
        let c = Self::of(bits);
        assert(c@ == bits);
        lemma_u32_bits(nonzero_u32_value(c.0), FINITE_F32_ANCHOR);
        lemma_u32_bits(nonzero_u32_value(r.0), FINITE_F32_ANCHOR);
    }

    /// Creates a value if its pattern is not in the rejected class, otherwise `None`.
    pub fn from_bits(bits: u32) -> (r: Option<Self>)
        ensures
            r is Some <==> !Self::rejects(bits),
            r matches Some(v) ==> v@ == bits && v == Self::of(bits),
    {
        if !is_finite32(bits) {
            return None;
        }
        proof {
            lemma_u32_bits(bits, FINITE_F32_ANCHOR);
            Self::lemma_anchor_rejected();
        }
        match nonzero_u32_new(bits ^ FINITE_F32_ANCHOR) {
            None => None,
            Some(cell) => {
                let r = FiniteF32(cell);
                proof {
                    Self::lemma_unique(r, bits);
                }
                Some(r)
            },
        }
    }

    /// Creates a value from a pattern that the caller knows is not rejected.
    pub fn from_bits_unchecked(bits: u32) -> (r: Self)
        requires
            !Self::rejects(bits),
        ensures
            r@ == bits,
            r == Self::of(bits),
    {
        match Self::from_bits(bits) {
            Some(r) => r,
            None => unreached(),
        }
    }

    /// Returns the bit pattern; it is never in the rejected class.
    pub fn to_bits(&self) -> (r: u32)
        ensures
            r == self@,
            !Self::rejects(r),
    {
        proof {
            use_type_invariant(self);
        }
        let x = nonzero_u32_get(&self.0);
        x ^ FINITE_F32_ANCHOR
    }

    /// The order key of the value (see `order_key32`).
    pub fn order_key(&self) -> (r: i64)
        ensures
            r as int == order_key32(self@),
    {
        order_key_of32(self.to_bits())
    }

    /// The checked conversion of `TryFrom`, on the pattern: an error for a rejected pattern.
    pub fn try_from_bits(bits: u32) -> (r: Result<Self, TryFromFloatError>)
        ensures
            r is Ok <==> !Self::rejects(bits),
            r matches Ok(v) ==> v@ == bits,
    {
        match Self::from_bits(bits) {
            Some(v) => Ok(v),
            None => Err(TryFromFloatError::new()),
        }
    }

    /// What `FromStr` makes of the outcome of parsing a float: the pattern of
    /// the parsed value, or `None` where the text was not a float.
    pub fn from_parsed_bits(parsed: Option<u32>) -> (r: Result<Self, ParseFloatError>)
        ensures
            r is Ok <==> (parsed matches Some(b) && !Self::rejects(b)),
            r matches Ok(v) ==> v@ == parsed->0,
    {
        match parsed {
            None => Err(ParseFloatError::new()),
            Some(bits) => match Self::from_bits(bits) {
                Some(v) => Ok(v),
                None => Err(ParseFloatError::new()),
            },
        }
    }

    /// The pattern the value hashes by: `-0.0` hashes as `+0.0`, so that
    /// values that compare equal hash alike.
    pub fn hash_bits(&self) -> (r: u32)
        ensures
            r == hash_bits32(self@),
    {
        hash_bits_of32(self.to_bits())
    }
}

impl PartialEq for FiniteF32 {
    /// Compares by value, as the primitive does.
    fn eq(&self, other: &Self) -> (r: bool)
        ensures
            r == value_eq32(self@, other@),
    {
        values_equal32(self.to_bits(), other.to_bits())
    }
}

impl PartialEqSpecImpl for FiniteF32 {
    open spec fn obeys_eq_spec() -> bool {
        true
    }

    open spec fn eq_spec(&self, other: &Self) -> bool {
        value_eq32(self@, other@)
    }
}

impl Eq for FiniteF32 {

}

impl core::hash::Hash for FiniteF32 {
    /// Hashes `hash_bits`, so that values that compare equal hash alike.
    fn hash<H: core::hash::Hasher>(&self, state: &mut H) {
        let bits = self.hash_bits();
        hash_u32_into(bits, state);
    }
}

/// The pattern that `NonSubnormalF32` anchors its niche on; it lies in the rejected class.
pub const NONSUBNORMAL_F32_ANCHOR: u32 = 0x0000_0001;

/// A `f32` guaranteed not to be subnormal.
///
/// The pattern is stored as the non-zero `bits ^ anchor`, so `Option<Self>`
/// is no larger than the float.
#[derive(Clone, Copy, Debug)]
pub struct NonSubnormalF32(NonZeroCellU32);

impl NonSubnormalF32 {
    /// The bit pattern held.
    pub closed spec fn view(&self) -> u32 {
        nonzero_u32_value(self.0) ^ NONSUBNORMAL_F32_ANCHOR
    }

    /// The class of patterns that the type rejects.
    pub open spec fn rejects(bits: u32) -> bool {
        subnormal32(bits)
    }

    /// The value that holds the pattern `bits`, where `bits` is not rejected.
    pub closed spec fn of(bits: u32) -> Self {
        choose|r: Self| r@ == bits
    }

    /// The stored encoding is never zero and the pattern is never rejected.
    #[verifier::type_invariant]
    spec fn well_formed(self) -> bool {
        nonzero_u32_value(self.0) != 0 && !Self::rejects(self@)
    }

    /// The anchor is itself rejected, so no value can be stored as zero: the
    /// niche survives.
    pub proof fn lemma_anchor_rejected()
        ensures
            Self::rejects(NONSUBNORMAL_F32_ANCHOR),
    {
        lemma_patterns32(0);
    }

    proof fn lemma_unique(r: Self, bits: u32)
        requires
            r@ == bits,
            forall|other: NonZeroCellU32|
                #[trigger] nonzero_u32_value(other) == nonzero_u32_value(r.0) ==> other == r.0,
        ensures
            r == Self::of(bits),
    {
        let c = Self::of(bits);
        assert(c@ == bits);
        lemma_u32_bits(nonzero_u32_value(c.0), NONSUBNORMAL_F32_ANCHOR);
        lemma_u32_bits(nonzero_u32_value(r.0), NONSUBNORMAL_F32_ANCHOR);
    }

    /// Creates a value if its pattern is not in the rejected class, otherwise `None`.
    pub fn from_bits(bits: u32) -> (r: Option<Self>)
        ensures
            r is Some <==> !Self::rejects(bits),
            r matches Some(v) ==> v@ == bits && v == Self::of(bits),
    {
        if is_subnormal32(bits) {
            return None;
        }
        proof {
            lemma_u32_bits(bits, NONSUBNORMAL_F32_ANCHOR);
            Self::lemma_anchor_rejected();
        }
        match nonzero_u32_new(bits ^ NONSUBNORMAL_F32_ANCHOR) {
            None => None,
            Some(cell) => {
                let r = NonSubnormalF32(cell);
                proof {
                    Self::lemma_unique(r, bits);
                }
                Some(r)
            },
        }
    }

    /// Creates a value from a pattern that the caller knows is not rejected.
    pub fn from_bits_unchecked(bits: u32) -> (r: Self)
        requires
            !Self::rejects(bits),
        ensures
            r@ == bits,
            r == Self::of(bits),
    {
        match Self::from_bits(bits) {
            Some(r) => r,
            None => unreached(),
        }
    }

    /// Returns the bit pattern; it is never in the rejected class.
    pub fn to_bits(&self) -> (r: u32)
        ensures
            r == self@,
            !Self::rejects(r),
    {
        proof {
            use_type_invariant(self);
        }
        let x = nonzero_u32_get(&self.0);
        x ^ NONSUBNORMAL_F32_ANCHOR
    }

    /// The order key of the value (see `order_key32`).
    pub fn order_key(&self) -> (r: i64)
        ensures
            r as int == order_key32(self@),
    {
        order_key_of32(self.to_bits())
    }

    /// The checked conversion of `TryFrom`, on the pattern: an error for a rejected pattern.
    pub fn try_from_bits(bits: u32) -> (r: Result<Self, TryFromFloatError>)
        ensures
            r is Ok <==> !Self::rejects(bits),
            r matches Ok(v) ==> v@ == bits,
    {
        match Self::from_bits(bits) {
            Some(v) => Ok(v),
            None => Err(TryFromFloatError::new()),
        }
    }

    /// What `FromStr` makes of the outcome of parsing a float: the pattern of
    /// the parsed value, or `None` where the text was not a float.
    pub fn from_parsed_bits(parsed: Option<u32>) -> (r: Result<Self, ParseFloatError>)
        ensures
            r is Ok <==> (parsed matches Some(b) && !Self::rejects(b)),
            r matches Ok(v) ==> v@ == parsed->0,
    {
        match parsed {
            None => Err(ParseFloatError::new()),
            Some(bits) => match Self::from_bits(bits) {
                Some(v) => Ok(v),
                None => Err(ParseFloatError::new()),
            },
        }
    }
}

impl PartialEq for NonSubnormalF32 {
    /// Compares by value, as the primitive does.
    fn eq(&self, other: &Self) -> (r: bool)
        ensures
            r == value_eq32(self@, other@),
    {
        values_equal32(self.to_bits(), other.to_bits())
    }
}

impl PartialEqSpecImpl for NonSubnormalF32 {
    open spec fn obeys_eq_spec() -> bool {
        true
    }

    open spec fn eq_spec(&self, other: &Self) -> bool {
        value_eq32(self@, other@)
    }
}

} // verus!
