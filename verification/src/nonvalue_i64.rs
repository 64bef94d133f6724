//! `NonValueI64`, an `i64` that is known not to equal a chosen value, and its
//! `NonMax` / `NonMin` specializations.
//!
//! The forbidden value is given by its bit pattern: `NonValueI64<BITS>` forbids the
//! `i64` whose two's-complement bits are `BITS` (so `NonValueI64<0xff..>` forbids `-1`).

use vstd::prelude::*;
use vstd::std_specs::cmp::PartialEqSpecImpl;
use vstd::std_specs::convert::{FromSpec, FromSpecImpl, TryFromSpec, TryFromSpecImpl};
use vstd::std_specs::ops::BitAndSpecImpl;
use crate::bits::{lemma_i64_and, lemma_i64_pattern};
use crate::error::{ParseIntError, TryFromIntError};
use crate::nonzero::{NonZeroCellU64, nonzero_u64_get, nonzero_u64_new, nonzero_u64_value};
use crate::text::{
    decimal_text, digits, format_i128_decimal, format_u128_binary, format_u128_lower_hex,
    format_u128_octal, format_u128_upper_hex, parse_i64, parsed_integer,
};

verus! {

/// An `i64` that is known not to equal the value whose bit pattern is `BITS`.
///
/// The value is stored as the non-zero `pattern ^ BITS`, so `Option<Self>` is
/// no larger than an `i64`. Construct with [`new`](NonValueI64::new).
#[derive(Clone, Copy, Hash, Debug)]
pub struct NonValueI64<const BITS: u64>(NonZeroCellU64);

/// An `i64` that is known not to equal its maximum.
pub type NonMaxI64 = NonValueI64<0x7fff_ffff_ffff_ffff>;

/// An `i64` that is known not to equal its minimum.
pub type NonMinI64 = NonValueI64<0x8000_0000_0000_0000>;

impl<const BITS: u64> NonValueI64<BITS> {
    /// The value held.
    pub closed spec fn view(&self) -> i64 {
        (nonzero_u64_value(self.0) ^ BITS) as i64
    }

    /// The value held, as a mathematical integer.
    pub open spec fn value(&self) -> int {
        self.view() as int
    }

    /// The value that is forbidden: the one whose bit pattern is `BITS`.
    pub open spec fn forbidden() -> i64 {
        BITS as i64
    }

    /// The niche integer that holds `value`, where `value` is not forbidden.
    pub closed spec fn of(value: i64) -> Self {
        choose|r: Self| r@ == value
    }

    /// The stored encoding is never zero, which is what leaves the niche free.
    #[verifier::type_invariant]
    spec fn encoding_nonzero(self) -> bool {
        nonzero_u64_value(self.0) != 0
    }

    proof fn lemma_unique(r: Self, value: i64)
        requires
            r@ == value,
            forall|other: NonZeroCellU64|
                #[trigger] nonzero_u64_value(other) == nonzero_u64_value(r.0) ==> other == r.0,
        ensures
            r == Self::of(value),
    {
        let c = Self::of(value);
        assert(c@ == value);
        let b: u64 = BITS;
        lemma_i64_pattern(value, nonzero_u64_value(c.0), b);
        lemma_i64_pattern(value, nonzero_u64_value(r.0), b);
    }

    /// Converting a niche integer to the primitive and back with `TryFrom`
    /// gives a niche integer of the same value.
    pub proof fn lemma_round_trip(x: Self)
        requires
            x@ != Self::forbidden(),
        ensures
            <i64 as FromSpec<Self>>::from_spec(x) == x@,
            <Self as TryFromSpec<i64>>::try_from_spec(x@) matches Ok(y) && y@ == x@,
    {
        assert(Self::of(x@)@ == x@);
    }

    /// Creates a niche integer if `value` is not the forbidden value, otherwise `None`.
    pub fn new(value: i64) -> (r: Option<Self>)
        ensures
            r is Some <==> value != Self::forbidden(),
            r matches Some(v) ==> v@ == value && v == Self::of(value),
    {
        let b: u64 = BITS;
        let pattern = value as u64;
        proof {
            lemma_i64_pattern(value, 0, b);
        }
        match nonzero_u64_new(pattern ^ b) {
            None => None,
            Some(cell) => {
                let r = NonValueI64::<BITS>(cell);
                proof {
                    Self::lemma_unique(r, value);
                }
                Some(r)
            },
        }
    }

    /// Creates a niche integer from a `value` that the caller knows is not forbidden.
    pub fn new_unchecked(value: i64) -> (r: Self)
        requires
            value != Self::forbidden(),
        ensures
            r@ == value,
            r == Self::of(value),
    {
        match Self::new(value) {
            Some(r) => r,
            None => unreached(),
        }
    }

    /// Returns the value as a primitive; it is never the forbidden value.
    pub fn get(&self) -> (r: i64)
        ensures
            r == self@,
            r != Self::forbidden(),
    {
        proof {
            use_type_invariant(self);
        }
        let b: u64 = BITS;
        let x = nonzero_u64_get(&self.0);
        proof {
            lemma_i64_pattern(0, x, b);
        }
        (x ^ b) as i64
    }

    /// Parses decimal text as `str::parse::<i64>` does, then refuses the forbidden value.
    pub fn from_decimal_str(text: &str) -> (r: Result<Self, ParseIntError>)
        ensures
            r is Ok <==> (parsed_integer(text@, i64::MIN as int, i64::MAX as int) matches Some(v)
                && v != Self::forbidden() as int),
            r matches Ok(x) ==> x@ as int == parsed_integer(text@, i64::MIN as int, i64::MAX as int)->0,
    {
        match parse_i64(text) {
            None => Err(ParseIntError::new()),
            Some(v) => match Self::new(v) {
                Some(x) => Ok(x),
                None => Err(ParseIntError::new()),
            },
        }
    }

    /// The value in decimal, with a `-` when negative, as `Display` and `Debug` print it.
    pub fn to_string(&self) -> (r: String)
        ensures
            r@ == decimal_text(self@ as int),
    {
        format_i128_decimal(self.get() as i128)
    }

    /// The value in decimal, as `Debug` of the primitive prints it (the same
    /// text as `to_string`; the derived `Debug` shows the stored encoding).
    pub fn to_debug_string(&self) -> (r: String)
        ensures
            r@ == decimal_text(self@ as int),
    {
        format_i128_decimal(self.get() as i128)
    }

    /// The two's-complement bits in binary, as `Binary` prints them.
    pub fn to_binary_string(&self) -> (r: String)
        ensures
            r@ == digits((self@ as u64) as nat, 2, false),
    {
        format_u128_binary((self.get() as u64) as u128)
    }

    /// The two's-complement bits in octal, as `Octal` prints them.
    pub fn to_octal_string(&self) -> (r: String)
        ensures
            r@ == digits((self@ as u64) as nat, 8, false),
    {
        format_u128_octal((self.get() as u64) as u128)
    }

    /// The two's-complement bits in lower-case hexadecimal, as `LowerHex` prints them.
    pub fn to_lower_hex_string(&self) -> (r: String)
        ensures
            r@ == digits((self@ as u64) as nat, 16, false),
    {
        format_u128_lower_hex((self.get() as u64) as u128)
    }

    /// The two's-complement bits in upper-case hexadecimal, as `UpperHex` prints them.
    pub fn to_upper_hex_string(&self) -> (r: String)
        ensures
            r@ == digits((self@ as u64) as nat, 16, true),
    {
        format_u128_upper_hex((self.get() as u64) as u128)
    }
}

impl<const BITS: u64> PartialEq for NonValueI64<BITS> {
    fn eq(&self, other: &Self) -> (r: bool)
        ensures
            r == (self@ == other@),
    {
        self.get() == other.get()
    }
}

impl<const BITS: u64> PartialEqSpecImpl for NonValueI64<BITS> {
    open spec fn obeys_eq_spec() -> bool {
        true
    }

    open spec fn eq_spec(&self, other: &Self) -> bool {
        self@ == other@
    }
}

impl<const BITS: u64> Eq for NonValueI64<BITS> {

}

impl<const BITS: u64> From<NonValueI64<BITS>> for i64 {
    fn from(value: NonValueI64<BITS>) -> (r: i64)
        ensures
            r == value@,
    {
        value.get()
    }
}

impl<const BITS: u64> FromSpecImpl<NonValueI64<BITS>> for i64 {
    open spec fn obeys_from_spec() -> bool {
        true
    }

    open spec fn from_spec(value: NonValueI64<BITS>) -> i64 {
        value@
    }
}

impl<const BITS: u64> TryFrom<i64> for NonValueI64<BITS> {
    type Error = TryFromIntError;

    fn try_from(value: i64) -> (r: Result<Self, TryFromIntError>)
        ensures
            r is Ok <==> value != Self::forbidden(),
            r matches Ok(v) ==> v@ == value,
    {
        match Self::new(value) {
            Some(v) => Ok(v),
            None => Err(TryFromIntError::new()),
        }
    }
}

impl<const BITS: u64> TryFromSpecImpl<i64> for NonValueI64<BITS> {
    open spec fn obeys_try_from_spec() -> bool {
        true
    }

    open spec fn try_from_spec(value: i64) -> Result<Self, TryFromIntError> {
        if value != Self::forbidden() {
            Ok(Self::of(value))
        } else {
            Err(TryFromIntError::unit())
        }
    }
}

impl<const BITS: u64> core::str::FromStr for NonValueI64<BITS> {
    type Err = ParseIntError;

    fn from_str(value: &str) -> (r: Result<Self, ParseIntError>)
        ensures
            r is Ok <==> (parsed_integer(value@, i64::MIN as int, i64::MAX as int) matches Some(v)
                && v != Self::forbidden() as int),
            r matches Ok(x) ==> x@ as int == parsed_integer(value@, i64::MIN as int, i64::MAX as int)->0,
    {
        Self::from_decimal_str(value)
    }
}

impl NonValueI64<0x7fff_ffff_ffff_ffff> {
    /// The value `0`.
    #[allow(non_snake_case)]
    pub fn ZERO() -> (r: Self)
        ensures
            r@ == 0,
    {
        Self::new_unchecked(0)
    }

    /// The value `1`.
    #[allow(non_snake_case)]
    pub fn ONE() -> (r: Self)
        ensures
            r@ == 1,
    {
        Self::new_unchecked(1)
    }

    /// The largest value it can hold, one below the maximum of `i64`.
    #[allow(non_snake_case)]
    pub fn MAX() -> (r: Self)
        ensures
            r@ == i64::MAX - 1,
    {
        Self::new_unchecked(i64::MAX - 1)
    }
}

impl Default for NonValueI64<0x7fff_ffff_ffff_ffff> {
    fn default() -> (r: Self)
        ensures
            r@ == 0,
    {
        Self::new_unchecked(0)
    }
}

impl core::ops::BitAnd for NonValueI64<0x7fff_ffff_ffff_ffff> {
    type Output = Self;

    /// `&` of two values below the maximum is below the maximum.
    fn bitand(self, rhs: Self) -> (r: Self)
        ensures
            r@ == self@ & rhs@,
    {
        let a = self.get();
        let b = rhs.get();
        proof {
            lemma_i64_and(a, b);
        }

        Self::new_unchecked(a & b)
    }
}

impl BitAndSpecImpl for NonValueI64<0x7fff_ffff_ffff_ffff> {
    open spec fn obeys_bitand_spec() -> bool {
        true
    }

    open spec fn bitand_req(self, rhs: Self) -> bool {
        true
    }

    open spec fn bitand_spec(self, rhs: Self) -> Self {
        Self::of(self@ & rhs@)
    }
}

impl core::ops::BitAndAssign for NonValueI64<0x7fff_ffff_ffff_ffff> {
    fn bitand_assign(&mut self, rhs: Self)
        ensures
            final(self)@ == old(self)@ & rhs@,
    {
        *self = *self & rhs;
    }
}

} // verus!
