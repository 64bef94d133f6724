//! Float niche types of width 64, on the IEEE-754 bit pattern.
//!
//! A value is handled by its bit pattern (`to_bits` / `from_bits` of the
//! primitive float convert). Two families:
//! * **bit-exact**: `NonValueF64<BITS>` forbids the one pattern `BITS`, with
//!   the `NonMaxF64` / `NonMinF64` aliases;
//! * **class-based**: `NonNanF64`, `NonInfF64`, `NonZeroF64`, `FiniteF64`
//!   and `NonSubnormalF64` reject a whole class of values, and anchor their
//!   niche on one pattern drawn from that class, so that the anchor itself can
//!   never be stored (see `lemma_anchor_rejected` of each type).
//!
//! Comparison is by value: `NaN` equals nothing, `+0.0` equals `-0.0`.

use vstd::prelude::*;
use vstd::std_specs::cmp::PartialEqSpecImpl;
use crate::error::{ParseFloatError, TryFromFloatError};
use crate::bits::lemma_u64_bits;
use crate::nonzero::{NonZeroCellU64, nonzero_u64_get, nonzero_u64_new, nonzero_u64_value};

verus! {

/// Whether the sign bit is set.
pub open spec fn sign64(b: u64) -> bool {
    b >= 0x8000_0000_0000_0000
}

/// The biased exponent field.
pub open spec fn exponent64(b: u64) -> u64 {
    (b >> 52) & 0x7ff
}

/// The fraction field.
pub open spec fn fraction64(b: u64) -> u64 {
    b & 0xf_ffff_ffff_ffff
}

/// The pattern is a `NaN`: all exponent bits set and a non-zero fraction.
pub open spec fn nan64(b: u64) -> bool {
    exponent64(b) == 0x7ff && fraction64(b) != 0
}

/// The pattern is an infinity of either sign.
pub open spec fn infinite64(b: u64) -> bool {
    exponent64(b) == 0x7ff && fraction64(b) == 0
}

/// The pattern is finite: neither `NaN` nor infinite.
pub open spec fn finite64(b: u64) -> bool {
    exponent64(b) != 0x7ff
}

/// The pattern is a zero of either sign.
pub open spec fn zero64(b: u64) -> bool {
    b & 0x7fff_ffff_ffff_ffff == 0
}

/// The pattern is subnormal: zero exponent and a non-zero fraction.
pub open spec fn subnormal64(b: u64) -> bool {
    exponent64(b) == 0 && fraction64(b) != 0
}

/// An integer that orders the values that are not `NaN` as the floats
/// compare: the magnitude, negated when the sign bit is set (both zeros map to 0).
pub open spec fn order_key64(b: u64) -> int {
    if sign64(b) {
        -((b & 0x7fff_ffff_ffff_ffff) as int)
    } else {
        b as int
    }
}

/// Float equality on patterns: `NaN` equals nothing, the zeros equal each other.
pub open spec fn value_eq64(a: u64, b: u64) -> bool {
    !nan64(a) && !nan64(b) && order_key64(a) == order_key64(b)
}

/// The pattern that a value hashes by: the zeros share the pattern of `+0.0`.
pub open spec fn hash_bits64(b: u64) -> u64 {
    if zero64(b) {
        0
    } else {
        b
    }
}

/// The anchors lie in the classes that their types reject, and the order key
/// is the pattern itself without the sign and its negation with it.
pub proof fn lemma_patterns64(b: u64)
    by (bit_vector)
    ensures
        nan64(0x7ff8_0000_0000_0000),
        infinite64(0x7ff0_0000_0000_0000),
        zero64(0),
        !finite64(0x7ff8_0000_0000_0000),
        subnormal64(1),
        b < 0x8000_0000_0000_0000 ==> (b & 0x7fff_ffff_ffff_ffff) == b,
        b >= 0x8000_0000_0000_0000 ==> (b & 0x7fff_ffff_ffff_ffff) == b - 0x8000_0000_0000_0000,
        !finite64(b) <==> (nan64(b) || infinite64(b)),
{
}

/// `FiniteF64` rejects exactly what `NonNanF64` or `NonInfF64` rejects:
/// a pattern is non-finite when it is a `NaN` or an infinity.
pub proof fn lemma_finite_is_non_nan_and_non_inf(b: u64)
    ensures
        FiniteF64::rejects(b) <==> (NonNanF64::rejects(b) || NonInfF64::rejects(b)),
{
    lemma_patterns64(b);
}

/// The magnitude of a pattern: the pattern without its sign bit.
pub open spec fn magnitude64(b: u64) -> int {
    if b >= 0x8000_0000_0000_0000 {
        b - 0x8000_0000_0000_0000
    } else {
        b as int
    }
}

/// The classes by the magnitude field: zeros have none, subnormals lie below
/// the smallest normal, the infinities sit exactly at the all-ones exponent,
/// `NaN`s above it, and finite values below it.
proof fn lemma_classes_by_mask64(b: u64)
    by (bit_vector)
    ensures
        zero64(b) <==> (b & 0x7fff_ffff_ffff_ffff) == 0,
        subnormal64(b) <==> (0 < (b & 0x7fff_ffff_ffff_ffff) && (b & 0x7fff_ffff_ffff_ffff) < 0x0010_0000_0000_0000),
        infinite64(b) <==> (b & 0x7fff_ffff_ffff_ffff) == 0x7ff0_0000_0000_0000,
        nan64(b) <==> (b & 0x7fff_ffff_ffff_ffff) > 0x7ff0_0000_0000_0000,
        finite64(b) <==> (b & 0x7fff_ffff_ffff_ffff) < 0x7ff0_0000_0000_0000,
{
}

/// The order key orders patterns as the floats they encode: two patterns
/// without the sign bit as unsigned integers, two with it inversely, a
/// negative one below a non-negative one (`-0.0` and `+0.0` meet at zero);
/// keys are equal exactly for the same pattern or the two zeros. Hence
/// float equality holds exactly for two equal non-`NaN` patterns or the two
/// zeros, and the hash pattern is equal exactly for equal values.
pub proof fn lemma_order_key_by_value64(a: u64, b: u64)
    ensures
        (a < 0x8000_0000_0000_0000 && b < 0x8000_0000_0000_0000) ==> (order_key64(a) < order_key64(b) <==> a < b),
        (a >= 0x8000_0000_0000_0000 && b >= 0x8000_0000_0000_0000) ==> (order_key64(a) < order_key64(b) <==> b < a),
        (a >= 0x8000_0000_0000_0000 && b < 0x8000_0000_0000_0000) ==> order_key64(a) <= order_key64(b),
        order_key64(a) == order_key64(b) <==> (a == b || ((a == 0 || a == 0x8000_0000_0000_0000) && (b == 0
            || b == 0x8000_0000_0000_0000))),
        value_eq64(a, b) <==> (!nan64(a) && !nan64(b) && (a == b || ((a == 0 || a == 0x8000_0000_0000_0000)
            && (b == 0 || b == 0x8000_0000_0000_0000)))),
        hash_bits64(a) == hash_bits64(b) <==> (a == b || ((a == 0 || a == 0x8000_0000_0000_0000) && (b == 0
            || b == 0x8000_0000_0000_0000))),
{
    lemma_patterns64(a);
    lemma_patterns64(b);
    lemma_classes_by_mask64(a);
    lemma_classes_by_mask64(b);
}

/// The classes that the class types reject, by the magnitude of the pattern:
/// `NonZeroF64` rejects exactly `+0.0` and `-0.0`; `NonSubnormalF64` the
/// magnitudes between zero and the smallest normal; `NonInfF64` exactly the
/// magnitude of infinity; `NonNanF64` every magnitude above it; and
/// `FiniteF64` both.
pub proof fn lemma_classes_by_magnitude64(b: u64)
    ensures
        NonZeroF64::rejects(b) <==> (b == 0 || b == 0x8000_0000_0000_0000),
        NonZeroF64::rejects(b) <==> magnitude64(b) == 0,
        NonSubnormalF64::rejects(b) <==> (0 < magnitude64(b) && magnitude64(b) < 0x0010_0000_0000_0000),
        NonInfF64::rejects(b) <==> magnitude64(b) == 0x7ff0_0000_0000_0000,
        NonNanF64::rejects(b) <==> magnitude64(b) > 0x7ff0_0000_0000_0000,
        FiniteF64::rejects(b) <==> magnitude64(b) >= 0x7ff0_0000_0000_0000,
{
    lemma_patterns64(b);
    lemma_classes_by_mask64(b);
}

/// Calls `Hash::hash` of `u64` on `value`, feeding it to `state`.
#[verifier::external_body]
pub(crate) fn hash_u64_into<H: core::hash::Hasher>(value: u64, state: &mut H) {
    core::hash::Hash::hash(&value, state)
}

/// Whether the pattern is a `NaN`.
pub fn is_nan64(b: u64) -> (r: bool)
    ensures
        r == nan64(b),
{
    (b >> 52) & 0x7ff == 0x7ff && b & 0xf_ffff_ffff_ffff != 0
}

/// Whether the pattern is an infinity.
pub fn is_infinite64(b: u64) -> (r: bool)
    ensures
        r == infinite64(b),
{
    (b >> 52) & 0x7ff == 0x7ff && b & 0xf_ffff_ffff_ffff == 0
}

/// Whether the pattern is finite.
pub fn is_finite64(b: u64) -> (r: bool)
    ensures
        r == finite64(b),
{
    (b >> 52) & 0x7ff != 0x7ff
}

/// Whether the pattern is a zero.
pub fn is_zero64(b: u64) -> (r: bool)
    ensures
        r == zero64(b),
{
    b & 0x7fff_ffff_ffff_ffff == 0
}

/// Whether the pattern is subnormal.
pub fn is_subnormal64(b: u64) -> (r: bool)
    ensures
        r == subnormal64(b),
{
    (b >> 52) & 0x7ff == 0 && b & 0xf_ffff_ffff_ffff != 0
}

/// The order key of a pattern (see `order_key64`).
pub fn order_key_of64(b: u64) -> (r: i128)
    ensures
        r as int == order_key64(b),
{
    if b >= 0x8000_0000_0000_0000 {
        -((b & 0x7fff_ffff_ffff_ffff) as i128)
    } else {
        b as i128
    }
}

/// Float equality on two patterns (see `value_eq64`).
pub fn values_equal64(a: u64, b: u64) -> (r: bool)
    ensures
        r == value_eq64(a, b),
{
    !is_nan64(a) && !is_nan64(b) && order_key_of64(a) == order_key_of64(b)
}

/// The pattern that a value hashes by (see `hash_bits64`).
pub fn hash_bits_of64(b: u64) -> (r: u64)
    ensures
        r == hash_bits64(b),
{
    if b & 0x7fff_ffff_ffff_ffff == 0 {
        0
    } else {
        b
    }
}

/// A `f64` whose bit pattern is known not to equal `BITS`.
///
/// Rejection is bit-exact: `+0.0` and `-0.0` are distinct patterns, and a
/// `NaN` other than `BITS` is held. The pattern is stored as the non-zero
/// `bits ^ BITS`, so `Option<Self>` is no larger than the float.
#[derive(Clone, Copy, Debug)]
pub struct NonValueF64<const BITS: u64>(NonZeroCellU64);

/// A `f64` whose pattern is not that of its maximum finite value.
pub type NonMaxF64 = NonValueF64<0x7fef_ffff_ffff_ffff>;

/// A `f64` whose pattern is not that of its minimum finite value.
pub type NonMinF64 = NonValueF64<0xffef_ffff_ffff_ffff>;

impl<const BITS: u64> NonValueF64<BITS> {
    /// The bit pattern held.
    pub closed spec fn view(&self) -> u64 {
        nonzero_u64_value(self.0) ^ BITS
    }

    /// The value that holds the pattern `bits`, where `bits != BITS`.
    pub closed spec fn of(bits: u64) -> Self {
        choose|r: Self| r@ == bits
    }

    /// The stored encoding is never zero, which is what leaves the niche free.
    #[verifier::type_invariant]
    spec fn encoding_nonzero(self) -> bool {
        nonzero_u64_value(self.0) != 0
    }

    proof fn lemma_unique(r: Self, bits: u64)
        requires
            r@ == bits,
            forall|other: NonZeroCellU64|
                #[trigger] nonzero_u64_value(other) == nonzero_u64_value(r.0) ==> other == r.0,
        ensures
            r == Self::of(bits),
    {
        let c = Self::of(bits);
        assert(c@ == bits);
        let n: u64 = BITS;
        lemma_u64_bits(nonzero_u64_value(c.0), n);
        lemma_u64_bits(nonzero_u64_value(r.0), n);
    }

    /// Creates a value if its pattern is not `BITS`, otherwise `None`.
    pub fn from_bits(bits: u64) -> (r: Option<Self>)
        ensures
            r is Some <==> bits != BITS,
            r matches Some(v) ==> v@ == bits && v == Self::of(bits),
    {
        let n: u64 = BITS;
        proof {
            lemma_u64_bits(bits, n);
        }
        match nonzero_u64_new(bits ^ n) {
            None => None,
            Some(cell) => {
                let r = NonValueF64::<BITS>(cell);
                proof {
                    Self::lemma_unique(r, bits);
                }
                Some(r)
            },
        }
    }

    /// Creates a value from a pattern that the caller knows is not `BITS`.
    pub fn from_bits_unchecked(bits: u64) -> (r: Self)
        requires
            bits != BITS,
        ensures
            r@ == bits,
            r == Self::of(bits),
    {
        match Self::from_bits(bits) {
            Some(r) => r,
            None => unreached(),
        }
    }

    /// Returns the bit pattern; it is never `BITS`.
    pub fn to_bits(&self) -> (r: u64)
        ensures
            r == self@,
            r != BITS,
    {
        proof {
            use_type_invariant(self);
        }
        let n: u64 = BITS;
        let x = nonzero_u64_get(&self.0);
        proof {
            lemma_u64_bits(x, n);
        }
        x ^ n
    }

    /// The order key of the value (see `order_key64`).
    pub fn order_key(&self) -> (r: i128)
        ensures
            r as int == order_key64(self@),
    {
        order_key_of64(self.to_bits())
    }

    /// The checked conversion of `TryFrom`, on the pattern: an error for `BITS`.
    pub fn try_from_bits(bits: u64) -> (r: Result<Self, TryFromFloatError>)
        ensures
            r is Ok <==> bits != BITS,
            r matches Ok(v) ==> v@ == bits,
    {
        match Self::from_bits(bits) {
            Some(v) => Ok(v),
            None => Err(TryFromFloatError::new()),
        }
    }

    /// What `FromStr` makes of the outcome of parsing a float: the pattern of
    /// the parsed value, or `None` where the text was not a float.
    pub fn from_parsed_bits(parsed: Option<u64>) -> (r: Result<Self, ParseFloatError>)
        ensures
            r is Ok <==> (parsed matches Some(b) && b != BITS),
            r matches Ok(v) ==> v@ == parsed->0,
    {
        match parsed {
            None => Err(ParseFloatError::new()),
            Some(bits) => match Self::from_bits(bits) {
                Some(v) => Ok(v),
                None => Err(ParseFloatError::new()),
            },
        }
    }
}

impl<const BITS: u64> PartialEq for NonValueF64<BITS> {
    /// Compares by value, as the primitive does.
    fn eq(&self, other: &Self) -> (r: bool)
        ensures
            r == value_eq64(self@, other@),
    {
        values_equal64(self.to_bits(), other.to_bits())
    }
}

impl<const BITS: u64> PartialEqSpecImpl for NonValueF64<BITS> {
    open spec fn obeys_eq_spec() -> bool {
        true
    }

    open spec fn eq_spec(&self, other: &Self) -> bool {
        value_eq64(self@, other@)
    }
}

/// The pattern that `NonNanF64` anchors its niche on; it lies in the rejected class.
pub const NONNAN_F64_ANCHOR: u64 = 0x7ff8_0000_0000_0000;

/// A `f64` guaranteed not to be `NaN`.
///
/// The pattern is stored as the non-zero `bits ^ anchor`, so `Option<Self>`
/// is no larger than the float.
#[derive(Clone, Copy, Debug)]
pub struct NonNanF64(NonZeroCellU64);

impl NonNanF64 {
    /// The bit pattern held.
    pub closed spec fn view(&self) -> u64 {
        nonzero_u64_value(self.0) ^ NONNAN_F64_ANCHOR
    }

    /// The class of patterns that the type rejects.
    pub open spec fn rejects(bits: u64) -> bool {
        nan64(bits)
    }

    /// The value that holds the pattern `bits`, where `bits` is not rejected.
    pub closed spec fn of(bits: u64) -> Self {
        choose|r: Self| r@ == bits
    }

    /// The stored encoding is never zero and the pattern is never rejected.
    #[verifier::type_invariant]
    spec fn well_formed(self) -> bool {
        nonzero_u64_value(self.0) != 0 && !Self::rejects(self@)
    }

    /// The anchor is itself rejected, so no value can be stored as zero: the
    /// niche survives.
    pub proof fn lemma_anchor_rejected()
        ensures
            Self::rejects(NONNAN_F64_ANCHOR),
    {
        lemma_patterns64(0);
    }

    proof fn lemma_unique(r: Self, bits: u64)
        requires
            r@ == bits,
            forall|other: NonZeroCellU64|
                #[trigger] nonzero_u64_value(other) == nonzero_u64_value(r.0) ==> other == r.0,
        ensures
            r == Self::of(bits),
    {
        let c = Self::of(bits);
        assert(c@ == bits);
        lemma_u64_bits(nonzero_u64_value(c.0), NONNAN_F64_ANCHOR);
        lemma_u64_bits(nonzero_u64_value(r.0), NONNAN_F64_ANCHOR);
    }

    /// Creates a value if its pattern is not in the rejected class, otherwise `None`.
    pub fn from_bits(bits: u64) -> (r: Option<Self>)
        ensures
            r is Some <==> !Self::rejects(bits),
            r matches Some(v) ==> v@ == bits && v == Self::of(bits),
    {
        if is_nan64(bits) {
            return None;
        }
        proof {
            lemma_u64_bits(bits, NONNAN_F64_ANCHOR);
            Self::lemma_anchor_rejected();
        }
        match nonzero_u64_new(bits ^ NONNAN_F64_ANCHOR) {
            None => None,
            Some(cell) => {
                let r = NonNanF64(cell);
                proof {
                    Self::lemma_unique(r, bits);
                }
                Some(r)
            },
        }
    }

    /// Creates a value from a pattern that the caller knows is not rejected.
    pub fn from_bits_unchecked(bits: u64) -> (r: Self)
        requires
            !Self::rejects(bits),
        ensures
            r@ == bits,
            r == Self::of(bits),
    {
        match Self::from_bits(bits) {
            Some(r) => r,
            None => unreached(),
        }
    }

    /// Returns the bit pattern; it is never in the rejected class.
    pub fn to_bits(&self) -> (r: u64)
        ensures
            r == self@,
            !Self::rejects(r),
    {
        proof {
            use_type_invariant(self);
        }
        let x = nonzero_u64_get(&self.0);
        x ^ NONNAN_F64_ANCHOR
    }

    /// The order key of the value (see `order_key64`).
    pub fn order_key(&self) -> (r: i128)
        ensures
            r as int == order_key64(self@),
    {
        order_key_of64(self.to_bits())
    }

    /// The checked conversion of `TryFrom`, on the pattern: an error for a rejected pattern.
    pub fn try_from_bits(bits: u64) -> (r: Result<Self, TryFromFloatError>)
        ensures
            r is Ok <==> !Self::rejects(bits),
            r matches Ok(v) ==> v@ == bits,
    {
        match Self::from_bits(bits) {
            Some(v) => Ok(v),
            None => Err(TryFromFloatError::new()),
        }
    }

    /// What `FromStr` makes of the outcome of parsing a float: the pattern of
    /// the parsed value, or `None` where the text was not a float.
    pub fn from_parsed_bits(parsed: Option<u64>) -> (r: Result<Self, ParseFloatError>)
        ensures
            r is Ok <==> (parsed matches Some(b) && !Self::rejects(b)),
            r matches Ok(v) ==> v@ == parsed->0,
    {
        match parsed {
            None => Err(ParseFloatError::new()),
            Some(bits) => match Self::from_bits(bits) {
                Some(v) => Ok(v),
                None => Err(ParseFloatError::new()),
            },
        }
    }

    /// The pattern the value hashes by: `-0.0` hashes as `+0.0`, so that
    /// values that compare equal hash alike.
    pub fn hash_bits(&self) -> (r: u64)
        ensures
            r == hash_bits64(self@),
    {
        hash_bits_of64(self.to_bits())
    }
}

impl PartialEq for NonNanF64 {
    /// Compares by value, as the primitive does.
    fn eq(&self, other: &Self) -> (r: bool)
        ensures
            r == value_eq64(self@, other@),
    {
        values_equal64(self.to_bits(), other.to_bits())
    }
}

impl PartialEqSpecImpl for NonNanF64 {
    open spec fn obeys_eq_spec() -> bool {
        true
    }

    open spec fn eq_spec(&self, other: &Self) -> bool {
        value_eq64(self@, other@)
    }
}

impl Eq for NonNanF64 {

}

impl core::hash::Hash for NonNanF64 {
    /// Hashes `hash_bits`, so that values that compare equal hash alike.
    fn hash<H: core::hash::Hasher>(&self, state: &mut H) {
        let bits = self.hash_bits();
        hash_u64_into(bits, state);
    }
}

/// The pattern that `NonInfF64` anchors its niche on; it lies in the rejected class.
pub const NONINF_F64_ANCHOR: u64 = 0x7ff0_0000_0000_0000;

/// A `f64` guaranteed not to be infinite.
///
/// The pattern is stored as the non-zero `bits ^ anchor`, so `Option<Self>`
/// is no larger than the float.
#[derive(Clone, Copy, Debug)]
pub struct NonInfF64(NonZeroCellU64);

impl NonInfF64 {
    /// The bit pattern held.
    pub closed spec fn view(&self) -> u64 {
        nonzero_u64_value(self.0) ^ NONINF_F64_ANCHOR
    }

    /// The class of patterns that the type rejects.
    pub open spec fn rejects(bits: u64) -> bool {
        infinite64(bits)
    }

    /// The value that holds the pattern `bits`, where `bits` is not rejected.
    pub closed spec fn of(bits: u64) -> Self {
        choose|r: Self| r@ == bits
    }

    /// The stored encoding is never zero and the pattern is never rejected.
    #[verifier::type_invariant]
    spec fn well_formed(self) -> bool {
        nonzero_u64_value(self.0) != 0 && !Self::rejects(self@)
    }

    /// The anchor is itself rejected, so no value can be stored as zero: the
    /// niche survives.
    pub proof fn lemma_anchor_rejected()
        ensures
            Self::rejects(NONINF_F64_ANCHOR),
    {
        lemma_patterns64(0);
    }

    proof fn lemma_unique(r: Self, bits: u64)
        requires
            r@ == bits,
            forall|other: NonZeroCellU64|
                #[trigger] nonzero_u64_value(other) == nonzero_u64_value(r.0) ==> other == r.0,
        ensures
            r == Self::of(bits),
    {
        let c = Self::of(bits);
        assert(c@ == bits);
        lemma_u64_bits(nonzero_u64_value(c.0), NONINF_F64_ANCHOR);
        lemma_u64_bits(nonzero_u64_value(r.0), NONINF_F64_ANCHOR);
    }

    /// Creates a value if its pattern is not in the rejected class, otherwise `None`.
    pub fn from_bits(bits: u64) -> (r: Option<Self>)
        ensures
            r is Some <==> !Self::rejects(bits),
            r matches Some(v) ==> v@ == bits && v == Self::of(bits),
    {
        if is_infinite64(bits) {
            return None;
        }
        proof {
            lemma_u64_bits(bits, NONINF_F64_ANCHOR);
            Self::lemma_anchor_rejected();
        }
        match nonzero_u64_new(bits ^ NONINF_F64_ANCHOR) {
            None => None,
            Some(cell) => {
                let r = NonInfF64(cell);
                proof {
                    Self::lemma_unique(r, bits);
                }
                Some(r)
            },
        }
    }

    /// Creates a value from a pattern that the caller knows is not rejected.
    pub fn from_bits_unchecked(bits: u64) -> (r: Self)
        requires
            !Self::rejects(bits),
        ensures
            r@ == bits,
            r == Self::of(bits),
    {
        match Self::from_bits(bits) {
            Some(r) => r,
            None => unreached(),
        }
    }

    /// Returns the bit pattern; it is never in the rejected class.
    pub fn to_bits(&self) -> (r: u64)
        ensures
            r == self@,
            !Self::rejects(r),
    {
        proof {
            use_type_invariant(self);
        }
        let x = nonzero_u64_get(&self.0);
        x ^ NONINF_F64_ANCHOR
    }

    /// The order key of the value (see `order_key64`).
    pub fn order_key(&self) -> (r: i128)
        ensures
            r as int == order_key64(self@),
    {
        order_key_of64(self.to_bits())
    }

    /// The checked conversion of `TryFrom`, on the pattern: an error for a rejected pattern.
    pub fn try_from_bits(bits: u64) -> (r: Result<Self, TryFromFloatError>)
        ensures
            r is Ok <==> !Self::rejects(bits),
            r matches Ok(v) ==> v@ == bits,
    {
        match Self::from_bits(bits) {
            Some(v) => Ok(v),
            None => Err(TryFromFloatError::new()),
        }
    }

    /// What `FromStr` makes of the outcome of parsing a float: the pattern of
    /// the parsed value, or `None` where the text was not a float.
    pub fn from_parsed_bits(parsed: Option<u64>) -> (r: Result<Self, ParseFloatError>)
        ensures
            r is Ok <==> (parsed matches Some(b) && !Self::rejects(b)),
            r matches Ok(v) ==> v@ == parsed->0,
    {
        match parsed {
            None => Err(ParseFloatError::new()),
            Some(bits) => match Self::from_bits(bits) {
                Some(v) => Ok(v),
                None => Err(ParseFloatError::new()),
            },
        }
    }
}

impl PartialEq for NonInfF64 {
    /// Compares by value, as the primitive does.
    fn eq(&self, other: &Self) -> (r: bool)
        ensures
            r == value_eq64(self@, other@),
    {
        values_equal64(self.to_bits(), other.to_bits())
    }
}

impl PartialEqSpecImpl for NonInfF64 {
    open spec fn obeys_eq_spec() -> bool {
        true
    }

    open spec fn eq_spec(&self, other: &Self) -> bool {
        value_eq64(self@, other@)
    }
}

/// The pattern that `NonZeroF64` anchors its niche on; it lies in the rejected class.
pub const NONZERO_F64_ANCHOR: u64 = 0x0000_0000_0000_0000;

/// A `f64` guaranteed not to be zero (`+0.0` or `-0.0`).
///
/// The pattern is stored as the non-zero `bits ^ anchor`, so `Option<Self>`
/// is no larger than the float.
#[derive(Clone, Copy, Debug)]
pub struct NonZeroF64(NonZeroCellU64);

impl NonZeroF64 {
    /// The bit pattern held.
    pub closed spec fn view(&self) -> u64 {
        nonzero_u64_value(self.0) ^ NONZERO_F64_ANCHOR
    }

    /// The class of patterns that the type rejects.
    pub open spec fn rejects(bits: u64) -> bool {
        zero64(bits)
    }

    /// The value that holds the pattern `bits`, where `bits` is not rejected.
    pub closed spec fn of(bits: u64) -> Self {
        choose|r: Self| r@ == bits
    }

    /// The stored encoding is never zero and the pattern is never rejected.
    #[verifier::type_invariant]
    spec fn well_formed(self) -> bool {
        nonzero_u64_value(self.0) != 0 && !Self::rejects(self@)
    }

    /// The anchor is itself rejected, so no value can be stored as zero: the
    /// niche survives.
    pub proof fn lemma_anchor_rejected()
        ensures
            Self::rejects(NONZERO_F64_ANCHOR),
    {
        lemma_patterns64(0);
    }

    proof fn lemma_unique(r: Self, bits: u64)
        requires
            r@ == bits,
            forall|other: NonZeroCellU64|
                #[trigger] nonzero_u64_value(other) == nonzero_u64_value(r.0) ==> other == r.0,
        ensures
            r == Self::of(bits),
    {
        let c = Self::of(bits);
        assert(c@ == bits);
        lemma_u64_bits(nonzero_u64_value(c.0), NONZERO_F64_ANCHOR);
        lemma_u64_bits(nonzero_u64_value(r.0), NONZERO_F64_ANCHOR);
    }

    /// Creates a value if its pattern is not in the rejected class, otherwise `None`.
    pub fn from_bits(bits: u64) -> (r: Option<Self>)
        ensures
            r is Some <==> !Self::rejects(bits),
            r matches Some(v) ==> v@ == bits && v == Self::of(bits),
    {
        if is_zero64(bits) {
            return None;
        }
        proof {
            lemma_u64_bits(bits, NONZERO_F64_ANCHOR);
            Self::lemma_anchor_rejected();
        }
        match nonzero_u64_new(bits ^ NONZERO_F64_ANCHOR) {
            None => None,
            Some(cell) => {
                let r = NonZeroF64(cell);
                proof {
                    Self::lemma_unique(r, bits);
                }
                Some(r)
            },
        }
    }

    /// Creates a value from a pattern that the caller knows is not rejected.
    pub fn from_bits_unchecked(bits: u64) -> (r: Self)
        requires
            !Self::rejects(bits),
        ensures
            r@ == bits,
            r == Self::of(bits),
    {
        match Self::from_bits(bits) {
            Some(r) => r,
            None => unreached(),
        }
    }

    /// Returns the bit pattern; it is never in the rejected class.
    pub fn to_bits(&self) -> (r: u64)
        ensures
            r == self@,
            !Self::rejects(r),
    {
        proof {
            use_type_invariant(self);
        }
        let x = nonzero_u64_get(&self.0);
        x ^ NONZERO_F64_ANCHOR
    }

    /// The order key of the value (see `order_key64`).
    pub fn order_key(&self) -> (r: i128)
        ensures
            r as int == order_key64(self@),
    {
        order_key_of64(self.to_bits())
    }

    /// The checked conversion of `TryFrom`, on the pattern: an error for a rejected pattern.
    pub fn try_from_bits(bits: u64) -> (r: Result<Self, TryFromFloatError>)
        ensures
            r is Ok <==> !Self::rejects(bits),
            r matches Ok(v) ==> v@ == bits,
    {
        match Self::from_bits(bits) {
            Some(v) => Ok(v),
            None => Err(TryFromFloatError::new()),
        }
    }

    /// What `FromStr` makes of the outcome of parsing a float: the pattern of
    /// the parsed value, or `None` where the text was not a float.
    pub fn from_parsed_bits(parsed: Option<u64>) -> (r: Result<Self, ParseFloatError>)
        ensures
            r is Ok <==> (parsed matches Some(b) && !Self::rejects(b)),
            r matches Ok(v) ==> v@ == parsed->0,
    {
        match parsed {
            None => Err(ParseFloatError::new()),
            Some(bits) => match Self::from_bits(bits) {
                Some(v) => Ok(v),
                None => Err(ParseFloatError::new()),
            },
        }
    }
}

impl PartialEq for NonZeroF64 {
    /// Compares by value, as the primitive does.
    fn eq(&self, other: &Self) -> (r: bool)
        ensures
            r == value_eq64(self@, other@),
    {
        values_equal64(self.to_bits(), other.to_bits())
    }
}

impl PartialEqSpecImpl for NonZeroF64 {
    open spec fn obeys_eq_spec() -> bool {
        true
    }

    open spec fn eq_spec(&self, other: &Self) -> bool {
        value_eq64(self@, other@)
    }
}

/// The pattern that `FiniteF64` anchors its niche on; it lies in the rejected class.
pub const FINITE_F64_ANCHOR: u64 = 0x7ff8_0000_0000_0000;

/// A `f64` guaranteed not to be non-finite (`NaN` or infinite).
///
/// The pattern is stored as the non-zero `bits ^ anchor`, so `Option<Self>`
/// is no larger than the float.
#[derive(Clone, Copy, Debug)]
pub struct FiniteF64(NonZeroCellU64);

impl FiniteF64 {
    /// The bit pattern held.
    pub closed spec fn view(&self) -> u64 {
        nonzero_u64_value(self.0) ^ FINITE_F64_ANCHOR
    }

    /// The class of patterns that the type rejects.
    pub open spec fn rejects(bits: u64) -> bool {
        !finite64(bits)
    }

    /// The value that holds the pattern `bits`, where `bits` is not rejected.
    pub closed spec fn of(bits: u64) -> Self {
        choose|r: Self| r@ == bits
    }

    /// The stored encoding is never zero and the pattern is never rejected.
    #[verifier::type_invariant]
    spec fn well_formed(self) -> bool {
        nonzero_u64_value(self.0) != 0 && !Self::rejects(self@)
    }

    /// The anchor is itself rejected, so no value can be stored as zero: the
    /// niche survives.
    pub proof fn lemma_anchor_rejected()
        ensures
            Self::rejects(FINITE_F64_ANCHOR),
    {
        lemma_patterns64(0);
    }

    proof fn lemma_unique(r: Self, bits: u64)
        requires
            r@ == bits,
            forall|other: NonZeroCellU64|
                #[trigger] nonzero_u64_value(other) == nonzero_u64_value(r.0) ==> other == r.0,
        ensures
            r == Self::of(bits),
    {
        let c = Self::of(bits);
        assert(c@ == bits);
        lemma_u64_bits(nonzero_u64_value(c.0), FINITE_F64_ANCHOR);
        lemma_u64_bits(nonzero_u64_value(r.0), FINITE_F64_ANCHOR);
    }

    /// Creates a value if its pattern is not in the rejected class, otherwise `None`.
    pub fn from_bits(bits: u64) -> (r: Option<Self>)
        ensures
            r is Some <==> !Self::rejects(bits),
            r matches Some(v) ==> v@ == bits && v == Self::of(bits),
    {
        if !is_finite64(bits) {
            return None;
        }
        proof {
            lemma_u64_bits(bits, FINITE_F64_ANCHOR);
            Self::lemma_anchor_rejected();
        }
        match nonzero_u64_new(bits ^ FINITE_F64_ANCHOR) {
            None => None,
            Some(cell) => {
                let r = FiniteF64(cell);
                proof {
                    Self::lemma_unique(r, bits);
                }
                Some(r)
            },
        }
    }

    /// Creates a value from a pattern that the caller knows is not rejected.
    pub fn from_bits_unchecked(bits: u64) -> (r: Self)
        requires
            !Self::rejects(bits),
        ensures
            r@ == bits,
            r == Self::of(bits),
    {
        match Self::from_bits(bits) {
            Some(r) => r,
            None => unreached(),
        }
    }

    /// Returns the bit pattern; it is never in the rejected class.
    pub fn to_bits(&self) -> (r: u64)
        ensures
            r == self@,
            !Self::rejects(r),
    {
        proof {
            use_type_invariant(self);
        }
        let x = nonzero_u64_get(&self.0);
        x ^ FINITE_F64_ANCHOR
    }

    /// The order key of the value (see `order_key64`).
    pub fn order_key(&self) -> (r: i128)
        ensures
            r as int == order_key64(self@),
    {
        order_key_of64(self.to_bits())
    }

    /// The checked conversion of `TryFrom`, on the pattern: an error for a rejected pattern.
    pub fn try_from_bits(bits: u64) -> (r: Result<Self, TryFromFloatError>)
        ensures
            r is Ok <==> !Self::rejects(bits),
            r matches Ok(v) ==> v@ == bits,
    {
        match Self::from_bits(bits) {
            Some(v) => Ok(v),
            None => Err(TryFromFloatError::new()),
        }
    }

    /// What `FromStr` makes of the outcome of parsing a float: the pattern of
    /// the parsed value, or `None` where the text was not a float.
    pub fn from_parsed_bits(parsed: Option<u64>) -> (r: Result<Self, ParseFloatError>)
        ensures
            r is Ok <==> (parsed matches Some(b) && !Self::rejects(b)),
            r matches Ok(v) ==> v@ == parsed->0,
    {
        match parsed {
            None => Err(ParseFloatError::new()),
            Some(bits) => match Self::from_bits(bits) {
                Some(v) => Ok(v),
                None => Err(ParseFloatError::new()),
            },
        }
    }

    /// The pattern the value hashes by: `-0.0` hashes as `+0.0`, so that
    /// values that compare equal hash alike.
    pub fn hash_bits(&self) -> (r: u64)
        ensures
            r == hash_bits64(self@),
    {
        hash_bits_of64(self.to_bits())
    }
}

impl PartialEq for FiniteF64 {
    /// Compares by value, as the primitive does.
    fn eq(&self, other: &Self) -> (r: bool)
        ensures
            r == value_eq64(self@, other@),
    {
        values_equal64(self.to_bits(), other.to_bits())
    }
}

impl PartialEqSpecImpl for FiniteF64 {
    open spec fn obeys_eq_spec() -> bool {
        true
    }

    open spec fn eq_spec(&self, other: &Self) -> bool {
        value_eq64(self@, other@)
    }
}

impl Eq for FiniteF64 {

}

impl core::hash::Hash for FiniteF64 {
    /// Hashes `hash_bits`, so that values that compare equal hash alike.
    fn hash<H: core::hash::Hasher>(&self, state: &mut H) {
        let bits = self.hash_bits();
        hash_u64_into(bits, state);
    }
}

/// The pattern that `NonSubnormalF64` anchors its niche on; it lies in the rejected class.
pub const NONSUBNORMAL_F64_ANCHOR: u64 = 0x0000_0000_0000_0001;

/// A `f64` guaranteed not to be subnormal.
///
/// The pattern is stored as the non-zero `bits ^ anchor`, so `Option<Self>`
/// is no larger than the float.
#[derive(Clone, Copy, Debug)]
pub struct NonSubnormalF64(NonZeroCellU64);

impl NonSubnormalF64 {
    /// The bit pattern held.
    pub closed spec fn view(&self) -> u64 {
        nonzero_u64_value(self.0) ^ NONSUBNORMAL_F64_ANCHOR
    }

    /// The class of patterns that the type rejects.
    pub open spec fn rejects(bits: u64) -> bool {
        subnormal64(bits)
    }

    /// The value that holds the pattern `bits`, where `bits` is not rejected.
    pub closed spec fn of(bits: u64) -> Self {
        choose|r: Self| r@ == bits
    }

    /// The stored encoding is never zero and the pattern is never rejected.
    #[verifier::type_invariant]
    spec fn well_formed(self) -> bool {
        nonzero_u64_value(self.0) != 0 && !Self::rejects(self@)
    }

    /// The anchor is itself rejected, so no value can be stored as zero: the
    /// niche survives.
    pub proof fn lemma_anchor_rejected()
        ensures
            Self::rejects(NONSUBNORMAL_F64_ANCHOR),
    {
        lemma_patterns64(0);
    }

    proof fn lemma_unique(r: Self, bits: u64)
        requires
            r@ == bits,
            forall|other: NonZeroCellU64|
                #[trigger] nonzero_u64_value(other) == nonzero_u64_value(r.0) ==> other == r.0,
        ensures
            r == Self::of(bits),
    {
        let c = Self::of(bits);
        assert(c@ == bits);
        lemma_u64_bits(nonzero_u64_value(c.0), NONSUBNORMAL_F64_ANCHOR);
        lemma_u64_bits(nonzero_u64_value(r.0), NONSUBNORMAL_F64_ANCHOR);
    }

    /// Creates a value if its pattern is not in the rejected class, otherwise `None`.
    pub fn from_bits(bits: u64) -> (r: Option<Self>)
        ensures
            r is Some <==> !Self::rejects(bits),
            r matches Some(v) ==> v@ == bits && v == Self::of(bits),
    {
        if is_subnormal64(bits) {
            return None;
        }
        proof {
            lemma_u64_bits(bits, NONSUBNORMAL_F64_ANCHOR);
            Self::lemma_anchor_rejected();
        }
        match nonzero_u64_new(bits ^ NONSUBNORMAL_F64_ANCHOR) {
            None => None,
            Some(cell) => {
                let r = NonSubnormalF64(cell);
                proof {
                    Self::lemma_unique(r, bits);
                }
                Some(r)
            },
        }
    }

    /// Creates a value from a pattern that the caller knows is not rejected.
    pub fn from_bits_unchecked(bits: u64) -> (r: Self)
        requires
            !Self::rejects(bits),
        ensures
            r@ == bits,
            r == Self::of(bits),
    {
        match Self::from_bits(bits) {
            Some(r) => r,
            None => unreached(),
        }
    }

    /// Returns the bit pattern; it is never in the rejected class.
    pub fn to_bits(&self) -> (r: u64)
        ensures
            r == self@,
            !Self::rejects(r),
    {
        proof {
            use_type_invariant(self);
        }
        let x = nonzero_u64_get(&self.0);
        x ^ NONSUBNORMAL_F64_ANCHOR
    }

    /// The order key of the value (see `order_key64`).
    pub fn order_key(&self) -> (r: i128)
        ensures
            r as int == order_key64(self@),
    {
        order_key_of64(self.to_bits())
    }

    /// The checked conversion of `TryFrom`, on the pattern: an error for a rejected pattern.
    pub fn try_from_bits(bits: u64) -> (r: Result<Self, TryFromFloatError>)
        ensures
            r is Ok <==> !Self::rejects(bits),
            r matches Ok(v) ==> v@ == bits,
    {
        match Self::from_bits(bits) {
            Some(v) => Ok(v),
            None => Err(TryFromFloatError::new()),
        }
    }

    /// What `FromStr` makes of the outcome of parsing a float: the pattern of
    /// the parsed value, or `None` where the text was not a float.
    pub fn from_parsed_bits(parsed: Option<u64>) -> (r: Result<Self, ParseFloatError>)
        ensures
            r is Ok <==> (parsed matches Some(b) && !Self::rejects(b)),
            r matches Ok(v) ==> v@ == parsed->0,
    {
        match parsed {
            None => Err(ParseFloatError::new()),
            Some(bits) => match Self::from_bits(bits) {
                Some(v) => Ok(v),
                None => Err(ParseFloatError::new()),
            },
        }
    }
}

impl PartialEq for NonSubnormalF64 {
    /// Compares by value, as the primitive does.
    fn eq(&self, other: &Self) -> (r: bool)
        ensures
            r == value_eq64(self@, other@),
    {
        values_equal64(self.to_bits(), other.to_bits())
    }
}

impl PartialEqSpecImpl for NonSubnormalF64 {
    open spec fn obeys_eq_spec() -> bool {
        true
    }

    open spec fn eq_spec(&self, other: &Self) -> bool {
        value_eq64(self@, other@)
    }
}

} // verus!
