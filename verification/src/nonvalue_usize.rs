//! `NonValueUsize`, a `usize` that is known not to equal a chosen value, and its
//! `NonMax` / `NonMin` specializations.

use vstd::prelude::*;
use vstd::std_specs::cmp::PartialEqSpecImpl;
use vstd::std_specs::convert::{FromSpec, FromSpecImpl, TryFromSpec, TryFromSpecImpl};
use vstd::std_specs::ops::BitAndSpecImpl;
use crate::bits::lemma_usize_bits;
use crate::error::{ParseIntError, TryFromIntError};
use crate::nonzero::{NonZeroCellUsize, nonzero_usize_get, nonzero_usize_new, nonzero_usize_value};
use crate::text::{
    digits, format_u128_binary, format_u128_decimal, format_u128_lower_hex, format_u128_octal,
    format_u128_upper_hex, parse_usize, parsed_integer,
};

verus! {

/// A `usize` that is known not to equal the const value `N`.
///
/// The value is stored as the non-zero `value ^ N`, so `Option<Self>` is no
/// larger than a `usize`. Construct with [`new`](NonValueUsize::new).
#[derive(Clone, Copy, Hash, Debug)]
pub struct NonValueUsize<const N: usize>(NonZeroCellUsize);

/// A `usize` that is known not to equal its maximum.
pub type NonMaxUsize = NonValueUsize<USIZE_MAX>;

/// A `usize` that is known not to equal its minimum, zero: a non-zero `usize`.
pub type NonMinUsize = NonValueUsize<0>;

impl<const N: usize> NonValueUsize<N> {
    /// The value held.
    pub closed spec fn view(&self) -> usize {
        nonzero_usize_value(self.0) ^ N
    }

    /// The value held, as a mathematical integer.
    pub open spec fn value(&self) -> int {
        self.view() as int
    }

    /// The niche integer that holds `value`, where `value != N`.
    pub closed spec fn of(value: usize) -> Self {
        choose|r: Self| r@ == value
    }

    /// The stored encoding is never zero, which is what leaves the niche free.
    #[verifier::type_invariant]
    spec fn encoding_nonzero(self) -> bool {
        nonzero_usize_value(self.0) != 0
    }

    proof fn lemma_unique(r: Self, value: usize)
        requires
            r@ == value,
            forall|other: NonZeroCellUsize|
                #[trigger] nonzero_usize_value(other) == nonzero_usize_value(r.0) ==> other == r.0,
        ensures
            r == Self::of(value),
    {
        let c = Self::of(value);
        assert(c@ == value);
        let n: usize = N;
        lemma_usize_bits(nonzero_usize_value(c.0), n);
        lemma_usize_bits(nonzero_usize_value(r.0), n);
    }

    /// Converting a niche integer to the primitive and back with `TryFrom`
    /// gives a niche integer of the same value.
    pub proof fn lemma_round_trip(x: Self)
        requires
            x@ != N,
        ensures
            <usize as FromSpec<Self>>::from_spec(x) == x@,
            <Self as TryFromSpec<usize>>::try_from_spec(x@) matches Ok(y) && y@ == x@,
    {
        assert(Self::of(x@)@ == x@);
    }

    /// Creates a niche integer if `value != N`, otherwise `None`.
    pub fn new(value: usize) -> (r: Option<Self>)
        ensures
            r is Some <==> value != N,
            r matches Some(v) ==> v@ == value && v == Self::of(value),
    {
        let n: usize = N;
        proof {
            lemma_usize_bits(value, n);
        }
        match nonzero_usize_new(value ^ n) {
            None => None,
            Some(cell) => {
                let r = NonValueUsize::<N>(cell);
                proof {
                    Self::lemma_unique(r, value);
                }
                Some(r)
            },
        }
    }

    /// Creates a niche integer from a `value` that the caller knows is not `N`.
    pub fn new_unchecked(value: usize) -> (r: Self)
        requires
            value != N,
        ensures
            r@ == value,
            r == Self::of(value),
    {
        match Self::new(value) {
            Some(r) => r,
            None => unreached(),
        }
    }

    /// Returns the value as a primitive; it is never `N`.
    pub fn get(&self) -> (r: usize)
        ensures
            r == self@,
            r != N,
    {
        proof {
            use_type_invariant(self);
        }
        let n: usize = N;
        let x = nonzero_usize_get(&self.0);
        proof {
            lemma_usize_bits(x, n);
        }
        x ^ n
    }

    /// Parses decimal text as `str::parse::<usize>` does, then refuses `N`.
    pub fn from_decimal_str(text: &str) -> (r: Result<Self, ParseIntError>)
        ensures
            r is Ok <==> (parsed_integer(text@, usize::MIN as int, usize::MAX as int) matches Some(v)
                && v != N as int),
            r matches Ok(x) ==> x@ as int == parsed_integer(text@, usize::MIN as int, usize::MAX as int)->0,
    {
        match parse_usize(text) {
            None => Err(ParseIntError::new()),
            Some(v) => match Self::new(v) {
                Some(x) => Ok(x),
                None => Err(ParseIntError::new()),
            },
        }
    }

    /// The value in decimal, as `Display` and `Debug` print it.
    pub fn to_string(&self) -> (r: String)
        ensures
            r@ == digits(self@ as nat, 10, false),
    {
        format_u128_decimal(self.get() as u128)
    }

    /// The value in decimal, as `Debug` of the primitive prints it (the same
    /// text as `to_string`; the derived `Debug` shows the stored encoding).
    pub fn to_debug_string(&self) -> (r: String)
        ensures
            r@ == digits(self@ as nat, 10, false),
    {
        format_u128_decimal(self.get() as u128)
    }

    /// The value in binary, as `Binary` prints it.
    pub fn to_binary_string(&self) -> (r: String)
        ensures
            r@ == digits(self@ as nat, 2, false),
    {
        format_u128_binary(self.get() as u128)
    }

    /// The value in octal, as `Octal` prints it.
    pub fn to_octal_string(&self) -> (r: String)
        ensures
            r@ == digits(self@ as nat, 8, false),
    {
        format_u128_octal(self.get() as u128)
    }

    /// The value in lower-case hexadecimal, as `LowerHex` prints it.
    pub fn to_lower_hex_string(&self) -> (r: String)
        ensures
            r@ == digits(self@ as nat, 16, false),
    {
        format_u128_lower_hex(self.get() as u128)
    }

    /// The value in upper-case hexadecimal, as `UpperHex` prints it.
    pub fn to_upper_hex_string(&self) -> (r: String)
        ensures
            r@ == digits(self@ as nat, 16, true),
    {
        format_u128_upper_hex(self.get() as u128)
    }
}

impl<const N: usize> PartialEq for NonValueUsize<N> {
    fn eq(&self, other: &Self) -> (r: bool)
        ensures
            r == (self@ == other@),
    {
        self.get() == other.get()
    }
}

impl<const N: usize> PartialEqSpecImpl for NonValueUsize<N> {
    open spec fn obeys_eq_spec() -> bool {
        true
    }

    open spec fn eq_spec(&self, other: &Self) -> bool {
        self@ == other@
    }
}

impl<const N: usize> Eq for NonValueUsize<N> {

}

impl<const N: usize> From<NonValueUsize<N>> for usize {
    fn from(value: NonValueUsize<N>) -> (r: usize)
        ensures
            r == value@,
    {
        value.get()
    }
}

impl<const N: usize> FromSpecImpl<NonValueUsize<N>> for usize {
    open spec fn obeys_from_spec() -> bool {
        true
    }

    open spec fn from_spec(value: NonValueUsize<N>) -> usize {
        value@
    }
}

impl<const N: usize> TryFrom<usize> for NonValueUsize<N> {
    type Error = TryFromIntError;

    fn try_from(value: usize) -> (r: Result<Self, TryFromIntError>)
        ensures
            r is Ok <==> value != N,
            r matches Ok(v) ==> v@ == value,
    {
        match Self::new(value) {
            Some(v) => Ok(v),
            None => Err(TryFromIntError::new()),
        }
    }
}

impl<const N: usize> TryFromSpecImpl<usize> for NonValueUsize<N> {
    open spec fn obeys_try_from_spec() -> bool {
        true
    }

    open spec fn try_from_spec(value: usize) -> Result<Self, TryFromIntError> {
        if value != N {
            Ok(Self::of(value))
        } else {
            Err(TryFromIntError::unit())
        }
    }
}

impl<const N: usize> core::str::FromStr for NonValueUsize<N> {
    type Err = ParseIntError;

    fn from_str(value: &str) -> (r: Result<Self, ParseIntError>)
        ensures
            r is Ok <==> (parsed_integer(value@, usize::MIN as int, usize::MAX as int) matches Some(v)
                && v != N as int),
            r matches Ok(x) ==> x@ as int == parsed_integer(value@, usize::MIN as int, usize::MAX as int)->0,
    {
        Self::from_decimal_str(value)
    }
}

impl NonValueUsize<USIZE_MAX> {
    /// The value `0`.
    #[allow(non_snake_case)]
    pub fn ZERO() -> (r: Self)
        ensures
            r@ == 0,
    {
        Self::new_unchecked(0)
    }

    /// The value `1`.
    #[allow(non_snake_case)]
    pub fn ONE() -> (r: Self)
        ensures
            r@ == 1,
    {
        Self::new_unchecked(1)
    }

    /// The largest value it can hold, one below the maximum of `usize`.
    #[allow(non_snake_case)]
    pub fn MAX() -> (r: Self)
        ensures
            r@ == usize::MAX - 1,
    {
        Self::new_unchecked(usize::MAX - 1)
    }
}

impl Default for NonValueUsize<USIZE_MAX> {
    fn default() -> (r: Self)
        ensures
            r@ == 0,
    {
        Self::new_unchecked(0)
    }
}

impl core::ops::BitAnd for NonValueUsize<USIZE_MAX> {
    type Output = Self;

    /// `&` of two non-maximal values keeps a zero bit, so it is never the maximum.
    fn bitand(self, rhs: Self) -> (r: Self)
        ensures
            r@ == self@ & rhs@,
    {
        let a = self.get();
        let b = rhs.get();
        proof {
            lemma_usize_bits(a, b);
        }
        Self::new_unchecked(a & b)
    }
}

impl BitAndSpecImpl for NonValueUsize<USIZE_MAX> {
    open spec fn obeys_bitand_spec() -> bool {
        true
    }

    open spec fn bitand_req(self, rhs: Self) -> bool {
        true
    }

    open spec fn bitand_spec(self, rhs: Self) -> Self {
        Self::of(self@ & rhs@)
    }
}

impl core::ops::BitAnd<usize> for NonValueUsize<USIZE_MAX> {
    type Output = Self;

    /// `&` with any `usize` keeps the zero bit of the non-maximal left side.
    fn bitand(self, rhs: usize) -> (r: Self)
        ensures
            r@ == self@ & rhs,
    {
        let a = self.get();
        proof {
            lemma_usize_bits(a, rhs);
        }
        Self::new_unchecked(a & rhs)
    }
}

impl BitAndSpecImpl<usize> for NonValueUsize<USIZE_MAX> {
    open spec fn obeys_bitand_spec() -> bool {
        true
    }

    open spec fn bitand_req(self, rhs: usize) -> bool {
        true
    }

    open spec fn bitand_spec(self, rhs: usize) -> Self {
        Self::of(self@ & rhs)
    }
}

impl core::ops::BitAnd<NonValueUsize<USIZE_MAX>> for usize {
    type Output = NonValueUsize<USIZE_MAX>;

    /// `&` with a non-maximal right side keeps that side's zero bit.
    fn bitand(self, rhs: NonValueUsize<USIZE_MAX>) -> (r: NonValueUsize<USIZE_MAX>)
        ensures
            r@ == self & rhs@,
    {
        let b = rhs.get();
        proof {
            lemma_usize_bits(self, b);
        }
        NonValueUsize::<USIZE_MAX>::new_unchecked(self & b)
    }
}

impl BitAndSpecImpl<NonValueUsize<USIZE_MAX>> for usize {
    open spec fn obeys_bitand_spec() -> bool {
        true
    }

    open spec fn bitand_req(self, rhs: NonValueUsize<USIZE_MAX>) -> bool {
        true
    }

    open spec fn bitand_spec(self, rhs: NonValueUsize<USIZE_MAX>) -> NonValueUsize<USIZE_MAX> {
        NonValueUsize::<USIZE_MAX>::of(self & rhs@)
    }
}

impl core::ops::BitAndAssign for NonValueUsize<USIZE_MAX> {
    fn bitand_assign(&mut self, rhs: Self)
        ensures
            final(self)@ == old(self)@ & rhs@,
    {
        *self = *self & rhs;
    }
}

impl core::ops::BitAndAssign<usize> for NonValueUsize<USIZE_MAX> {
    fn bitand_assign(&mut self, rhs: usize)
        ensures
            final(self)@ == old(self)@ & rhs,
    {
        *self = *self & rhs;
    }
}

impl core::ops::BitAndAssign<NonValueUsize<USIZE_MAX>> for usize {
    fn bitand_assign(&mut self, rhs: NonValueUsize<USIZE_MAX>)
        ensures
            *final(self) == *old(self) & rhs@,
    {
        *self = *self & rhs.get();
    }
}

/// The maximum of `usize`, the value that `NonMaxUsize` forbids.
pub const USIZE_MAX: usize = usize::MAX;

} // verus!
