//! `NonValueU32`, a `u32` that is known not to equal a chosen value, and its
//! `NonMax` / `NonMin` specializations.

use vstd::prelude::*;
use vstd::std_specs::cmp::PartialEqSpecImpl;
use vstd::std_specs::convert::{FromSpec, FromSpecImpl, TryFromSpec, TryFromSpecImpl};
use vstd::std_specs::ops::BitAndSpecImpl;
use crate::bits::lemma_u32_bits;
use crate::error::{ParseIntError, TryFromIntError};
use crate::nonzero::{NonZeroCellU32, nonzero_u32_get, nonzero_u32_new, nonzero_u32_value};
use crate::text::{
    digits, format_u128_binary, format_u128_decimal, format_u128_lower_hex, format_u128_octal,
    format_u128_upper_hex, parse_u32, parsed_integer,
};

verus! {

/// A `u32` that is known not to equal the const value `N`.
///
/// The value is stored as the non-zero `value ^ N`, so `Option<Self>` is no
/// larger than a `u32`. Construct with [`new`](NonValueU32::new).
#[derive(Clone, Copy, Hash, Debug)]
pub struct NonValueU32<const N: u32>(NonZeroCellU32);

/// A `u32` that is known not to equal its maximum.
pub type NonMaxU32 = NonValueU32<4294967295>;

/// A `u32` that is known not to equal its minimum, zero: a non-zero `u32`.
pub type NonMinU32 = NonValueU32<0>;

impl<const N: u32> NonValueU32<N> {
    /// The value held.
    pub closed spec fn view(&self) -> u32 {
        nonzero_u32_value(self.0) ^ N
    }

    /// The value held, as a mathematical integer.
    pub open spec fn value(&self) -> int {
        self.view() as int
    }

    /// The niche integer that holds `value`, where `value != N`.
    pub closed spec fn of(value: u32) -> Self {
        choose|r: Self| r@ == value
    }

    /// The stored encoding is never zero, which is what leaves the niche free.
    #[verifier::type_invariant]
    spec fn encoding_nonzero(self) -> bool {
        nonzero_u32_value(self.0) != 0
    }

    proof fn lemma_unique(r: Self, value: u32)
        requires
            r@ == value,
            forall|other: NonZeroCellU32|
                #[trigger] nonzero_u32_value(other) == nonzero_u32_value(r.0) ==> other == r.0,
        ensures
            r == Self::of(value),
    {
        let c = Self::of(value);
        assert(c@ == value);
        let n: u32 = N;
        lemma_u32_bits(nonzero_u32_value(c.0), n);
        lemma_u32_bits(nonzero_u32_value(r.0), n);
    }

    /// Converting a niche integer to the primitive and back with `TryFrom`
    /// gives a niche integer of the same value.
    pub proof fn lemma_round_trip(x: Self)
        requires
            x@ != N,
        ensures
            <u32 as FromSpec<Self>>::from_spec(x) == x@,
            <Self as TryFromSpec<u32>>::try_from_spec(x@) matches Ok(y) && y@ == x@,
    {
        assert(Self::of(x@)@ == x@);
    }

    /// Creates a niche integer if `value != N`, otherwise `None`.
    pub fn new(value: u32) -> (r: Option<Self>)
        ensures
            r is Some <==> value != N,
            r matches Some(v) ==> v@ == value && v == Self::of(value),
    {
        let n: u32 = N;
        proof {
            lemma_u32_bits(value, n);
        }
        match nonzero_u32_new(value ^ n) {
            None => None,
            Some(cell) => {
                let r = NonValueU32::<N>(cell);
                proof {
                    Self::lemma_unique(r, value);
                }
                Some(r)
            },
        }
    }

    /// Creates a niche integer from a `value` that the caller knows is not `N`.
    pub fn new_unchecked(value: u32) -> (r: Self)
        requires
            value != N,
        ensures
            r@ == value,
            r == Self::of(value),
    {
        match Self::new(value) {
            Some(r) => r,
            None => unreached(),
        }
    }

    /// Returns the value as a primitive; it is never `N`.
    pub fn get(&self) -> (r: u32)
        ensures
            r == self@,
            r != N,
    {
        proof {
            use_type_invariant(self);
        }
        let n: u32 = N;
        let x = nonzero_u32_get(&self.0);
        proof {
            lemma_u32_bits(x, n);
        }
        x ^ n
    }

    /// Parses decimal text as `str::parse::<u32>` does, then refuses `N`.
    pub fn from_decimal_str(text: &str) -> (r: Result<Self, ParseIntError>)
        ensures
            r is Ok <==> (parsed_integer(text@, u32::MIN as int, u32::MAX as int) matches Some(v)
                && v != N as int),
            r matches Ok(x) ==> x@ as int == parsed_integer(text@, u32::MIN as int, u32::MAX as int)->0,
    {
        match parse_u32(text) {
            None => Err(ParseIntError::new()),
            Some(v) => match Self::new(v) {
                Some(x) => Ok(x),
                None => Err(ParseIntError::new()),
            },
        }
    }

    /// The value in decimal, as `Display` and `Debug` print it.
    pub fn to_string(&self) -> (r: String)
        ensures
            r@ == digits(self@ as nat, 10, false),
    {
        format_u128_decimal(self.get() as u128)
    }

    /// The value in decimal, as `Debug` of the primitive prints it (the same
    /// text as `to_string`; the derived `Debug` shows the stored encoding).
    pub fn to_debug_string(&self) -> (r: String)
        ensures
            r@ == digits(self@ as nat, 10, false),
    {
        format_u128_decimal(self.get() as u128)
    }

    /// The value in binary, as `Binary` prints it.
    pub fn to_binary_string(&self) -> (r: String)
        ensures
            r@ == digits(self@ as nat, 2, false),
    {
        format_u128_binary(self.get() as u128)
    }

    /// The value in octal, as `Octal` prints it.
    pub fn to_octal_string(&self) -> (r: String)
        ensures
            r@ == digits(self@ as nat, 8, false),
    {
        format_u128_octal(self.get() as u128)
    }

    /// The value in lower-case hexadecimal, as `LowerHex` prints it.
    pub fn to_lower_hex_string(&self) -> (r: String)
        ensures
            r@ == digits(self@ as nat, 16, false),
    {
        format_u128_lower_hex(self.get() as u128)
    }

    /// The value in upper-case hexadecimal, as `UpperHex` prints it.
    pub fn to_upper_hex_string(&self) -> (r: String)
        ensures
            r@ == digits(self@ as nat, 16, true),
    {
        format_u128_upper_hex(self.get() as u128)
    }
}

impl<const N: u32> PartialEq for NonValueU32<N> {
    fn eq(&self, other: &Self) -> (r: bool)
        ensures
            r == (self@ == other@),
    {
        self.get() == other.get()
    }
}

impl<const N: u32> PartialEqSpecImpl for NonValueU32<N> {
    open spec fn obeys_eq_spec() -> bool {
        true
    }

    open spec fn eq_spec(&self, other: &Self) -> bool {
        self@ == other@
    }
}

impl<const N: u32> Eq for NonValueU32<N> {

}

impl<const N: u32> From<NonValueU32<N>> for u32 {
    fn from(value: NonValueU32<N>) -> (r: u32)
        ensures
            r == value@,
    {
        value.get()
    }
}

impl<const N: u32> FromSpecImpl<NonValueU32<N>> for u32 {
    open spec fn obeys_from_spec() -> bool {
        true
    }

    open spec fn from_spec(value: NonValueU32<N>) -> u32 {
        value@
    }
}

impl<const N: u32> TryFrom<u32> for NonValueU32<N> {
    type Error = TryFromIntError;

    fn try_from(value: u32) -> (r: Result<Self, TryFromIntError>)
        ensures
            r is Ok <==> value != N,
            r matches Ok(v) ==> v@ == value,
    {
        match Self::new(value) {
            Some(v) => Ok(v),
            None => Err(TryFromIntError::new()),
        }
    }
}

impl<const N: u32> TryFromSpecImpl<u32> for NonValueU32<N> {
    open spec fn obeys_try_from_spec() -> bool {
        true
    }

    open spec fn try_from_spec(value: u32) -> Result<Self, TryFromIntError> {
        if value != N {
            Ok(Self::of(value))
        } else {
            Err(TryFromIntError::unit())
        }
    }
}

impl<const N: u32> core::str::FromStr for NonValueU32<N> {
    type Err = ParseIntError;

    fn from_str(value: &str) -> (r: Result<Self, ParseIntError>)
        ensures
            r is Ok <==> (parsed_integer(value@, u32::MIN as int, u32::MAX as int) matches Some(v)
                && v != N as int),
            r matches Ok(x) ==> x@ as int == parsed_integer(value@, u32::MIN as int, u32::MAX as int)->0,
    {
        Self::from_decimal_str(value)
    }
}

impl NonValueU32<4294967295> {
    /// The value `0`.
    #[allow(non_snake_case)]
    pub fn ZERO() -> (r: Self)
        ensures
            r@ == 0,
    {
        Self::new_unchecked(0)
    }

    /// The value `1`.
    #[allow(non_snake_case)]
    pub fn ONE() -> (r: Self)
        ensures
            r@ == 1,
    {
        Self::new_unchecked(1)
    }

    /// The largest value it can hold, one below the maximum of `u32`.
    #[allow(non_snake_case)]
    pub fn MAX() -> (r: Self)
        ensures
            r@ == u32::MAX - 1,
    {
        Self::new_unchecked(u32::MAX - 1)
    }
}

impl Default for NonValueU32<4294967295> {
    fn default() -> (r: Self)
        ensures
            r@ == 0,
    {
        Self::new_unchecked(0)
    }
}

impl core::ops::BitAnd for NonValueU32<4294967295> {
    type Output = Self;

    /// `&` of two non-maximal values keeps a zero bit, so it is never the maximum.
    fn bitand(self, rhs: Self) -> (r: Self)
        ensures
            r@ == self@ & rhs@,
    {
        let a = self.get();
        let b = rhs.get();
        proof {
            lemma_u32_bits(a, b);
        }
        Self::new_unchecked(a & b)
    }
}

impl BitAndSpecImpl for NonValueU32<4294967295> {
    open spec fn obeys_bitand_spec() -> bool {
        true
    }

    open spec fn bitand_req(self, rhs: Self) -> bool {
        true
    }

    open spec fn bitand_spec(self, rhs: Self) -> Self {
        Self::of(self@ & rhs@)
    }
}

impl core::ops::BitAnd<u32> for NonValueU32<4294967295> {
    type Output = Self;

    /// `&` with any `u32` keeps the zero bit of the non-maximal left side.
    fn bitand(self, rhs: u32) -> (r: Self)
        ensures
            r@ == self@ & rhs,
    {
        let a = self.get();
        proof {
            lemma_u32_bits(a, rhs);
        }
        Self::new_unchecked(a & rhs)
    }
}

impl BitAndSpecImpl<u32> for NonValueU32<4294967295> {
    open spec fn obeys_bitand_spec() -> bool {
        true
    }

    open spec fn bitand_req(self, rhs: u32) -> bool {
        true
    }

    open spec fn bitand_spec(self, rhs: u32) -> Self {
        Self::of(self@ & rhs)
    }
}

impl core::ops::BitAnd<NonValueU32<4294967295>> for u32 {
    type Output = NonValueU32<4294967295>;

    /// `&` with a non-maximal right side keeps that side's zero bit.
    fn bitand(self, rhs: NonValueU32<4294967295>) -> (r: NonValueU32<4294967295>)
        ensures
            r@ == self & rhs@,
    {
        let b = rhs.get();
        proof {
            lemma_u32_bits(self, b);
        }
        NonValueU32::<4294967295>::new_unchecked(self & b)
    }
}

impl BitAndSpecImpl<NonValueU32<4294967295>> for u32 {
    open spec fn obeys_bitand_spec() -> bool {
        true
    }

    open spec fn bitand_req(self, rhs: NonValueU32<4294967295>) -> bool {
        true
    }

    open spec fn bitand_spec(self, rhs: NonValueU32<4294967295>) -> NonValueU32<4294967295> {
        NonValueU32::<4294967295>::of(self & rhs@)
    }
}

impl core::ops::BitAndAssign for NonValueU32<4294967295> {
    fn bitand_assign(&mut self, rhs: Self)
        ensures
            final(self)@ == old(self)@ & rhs@,
    {
        *self = *self & rhs;
    }
}

impl core::ops::BitAndAssign<u32> for NonValueU32<4294967295> {
    fn bitand_assign(&mut self, rhs: u32)
        ensures
            final(self)@ == old(self)@ & rhs,
    {
        *self = *self & rhs;
    }
}

impl core::ops::BitAndAssign<NonValueU32<4294967295>> for u32 {
    fn bitand_assign(&mut self, rhs: NonValueU32<4294967295>)
        ensures
            *final(self) == *old(self) & rhs@,
    {
        *self = *self & rhs.get();
    }
}

} // verus!
