//! `NonValueIsize`, an `isize` that is known not to equal a chosen value, and its
//! `NonMax` / `NonMin` specializations.
//!
//! The forbidden value is given by its bit pattern: `NonValueIsize<BITS>` forbids the
//! `isize` whose two's-complement bits are `BITS` (so `NonValueIsize<0xff..>` forbids `-1`).

use vstd::prelude::*;
use vstd::std_specs::cmp::PartialEqSpecImpl;
use vstd::std_specs::convert::{FromSpec, FromSpecImpl, TryFromSpec, TryFromSpecImpl};
use vstd::std_specs::ops::BitAndSpecImpl;
use crate::bits::{lemma_isize_and, lemma_isize_pattern};
use crate::error::{ParseIntError, TryFromIntError};
use crate::nonzero::{NonZeroCellUsize, nonzero_usize_get, nonzero_usize_new, nonzero_usize_value};
use crate::text::{
    decimal_text, digits, format_i128_decimal, format_u128_binary, format_u128_lower_hex,
    format_u128_octal, format_u128_upper_hex, parse_isize, parsed_integer,
};

verus! {

/// An `isize` that is known not to equal the value whose bit pattern is `BITS`.
///
/// The value is stored as the non-zero `pattern ^ BITS`, so `Option<Self>` is
/// no larger than an `isize`. Construct with [`new`](NonValueIsize::new).
#[derive(Clone, Copy, Hash, Debug)]
pub struct NonValueIsize<const BITS: usize>(NonZeroCellUsize);

/// An `isize` that is known not to equal its maximum.
pub type NonMaxIsize = NonValueIsize<ISIZE_MAX_BITS>;

/// An `isize` that is known not to equal its minimum.
pub type NonMinIsize = NonValueIsize<ISIZE_MIN_BITS>;

impl<const BITS: usize> NonValueIsize<BITS> {
    /// The value held.
    pub closed spec fn view(&self) -> isize {
        (nonzero_usize_value(self.0) ^ BITS) as isize
    }

    /// The value held, as a mathematical integer.
    pub open spec fn value(&self) -> int {
        self.view() as int
    }

    /// The value that is forbidden: the one whose bit pattern is `BITS`.
    pub open spec fn forbidden() -> isize {
        BITS as isize
    }

    /// The pattern lies in the range of `usize`.
    pub(crate) proof fn lemma_bits_in_range()
        ensures
            BITS <= usize::MAX,
    {
    }

    /// The niche integer that holds `value`, where `value` is not forbidden.
    pub closed spec fn of(value: isize) -> Self {
        choose|r: Self| r@ == value
    }

    /// The stored encoding is never zero, which is what leaves the niche free.
    #[verifier::type_invariant]
    spec fn encoding_nonzero(self) -> bool {
        nonzero_usize_value(self.0) != 0
    }

    proof fn lemma_unique(r: Self, value: isize)
        requires
            r@ == value,
            forall|other: NonZeroCellUsize|
                #[trigger] nonzero_usize_value(other) == nonzero_usize_value(r.0) ==> other == r.0,
        ensures
            r == Self::of(value),
    {
        let c = Self::of(value);
        assert(c@ == value);
        let b: usize = BITS;
        lemma_isize_pattern(value, nonzero_usize_value(c.0), b);
        lemma_isize_pattern(value, nonzero_usize_value(r.0), b);
    }

    /// Converting a niche integer to the primitive and back with `TryFrom`
    /// gives a niche integer of the same value.
    pub proof fn lemma_round_trip(x: Self)
        requires
            x@ != Self::forbidden(),
        ensures
            <isize as FromSpec<Self>>::from_spec(x) == x@,
            <Self as TryFromSpec<isize>>::try_from_spec(x@) matches Ok(y) && y@ == x@,
    {
        assert(Self::of(x@)@ == x@);
    }

    /// Creates a niche integer if `value` is not the forbidden value, otherwise `None`.
    pub fn new(value: isize) -> (r: Option<Self>)
        ensures
            r is Some <==> value != Self::forbidden(),
            r matches Some(v) ==> v@ == value && v == Self::of(value),
    {
        let b: usize = BITS;
        let pattern = value as usize;
        proof {
            lemma_isize_pattern(value, 0, b);
        }
        match nonzero_usize_new(pattern ^ b) {
            None => None,
            Some(cell) => {
                let r = NonValueIsize::<BITS>(cell);
                proof {
                    Self::lemma_unique(r, value);
                }
                Some(r)
            },
        }
    }

    /// Creates a niche integer from a `value` that the caller knows is not forbidden.
    pub fn new_unchecked(value: isize) -> (r: Self)
        requires
            value != Self::forbidden(),
        ensures
            r@ == value,
            r == Self::of(value),
    {
        match Self::new(value) {
            Some(r) => r,
            None => unreached(),
        }
    }

    /// Returns the value as a primitive; it is never the forbidden value.
    pub fn get(&self) -> (r: isize)
        ensures
            r == self@,
            r != Self::forbidden(),
    {
        proof {
            use_type_invariant(self);
        }
        let b: usize = BITS;
        let x = nonzero_usize_get(&self.0);
        proof {
            lemma_isize_pattern(0, x, b);
        }
        (x ^ b) as isize
    }

    /// Parses decimal text as `str::parse::<isize>` does, then refuses the forbidden value.
    pub fn from_decimal_str(text: &str) -> (r: Result<Self, ParseIntError>)
        ensures
            r is Ok <==> (parsed_integer(text@, isize::MIN as int, isize::MAX as int) matches Some(v)
                && v != Self::forbidden() as int),
            r matches Ok(x) ==> x@ as int == parsed_integer(text@, isize::MIN as int, isize::MAX as int)->0,
    {
        match parse_isize(text) {
            None => Err(ParseIntError::new()),
            Some(v) => match Self::new(v) {
                Some(x) => Ok(x),
                None => Err(ParseIntError::new()),
            },
        }
    }

    /// The value in decimal, with a `-` when negative, as `Display` and `Debug` print it.
    pub fn to_string(&self) -> (r: String)
        ensures
            r@ == decimal_text(self@ as int),
    {
        format_i128_decimal(self.get() as i128)
    }

    /// The value in decimal, as `Debug` of the primitive prints it (the same
    /// text as `to_string`; the derived `Debug` shows the stored encoding).
    pub fn to_debug_string(&self) -> (r: String)
        ensures
            r@ == decimal_text(self@ as int),
    {
        format_i128_decimal(self.get() as i128)
    }

    /// The two's-complement bits in binary, as `Binary` prints them.
    pub fn to_binary_string(&self) -> (r: String)
        ensures
            r@ == digits((self@ as usize) as nat, 2, false),
    {
        format_u128_binary((self.get() as usize) as u128)
    }

    /// The two's-complement bits in octal, as `Octal` prints them.
    pub fn to_octal_string(&self) -> (r: String)
        ensures
            r@ == digits((self@ as usize) as nat, 8, false),
    {
        format_u128_octal((self.get() as usize) as u128)
    }

    /// The two's-complement bits in lower-case hexadecimal, as `LowerHex` prints them.
    pub fn to_lower_hex_string(&self) -> (r: String)
        ensures
            r@ == digits((self@ as usize) as nat, 16, false),
    {
        format_u128_lower_hex((self.get() as usize) as u128)
    }

    /// The two's-complement bits in upper-case hexadecimal, as `UpperHex` prints them.
    pub fn to_upper_hex_string(&self) -> (r: String)
        ensures
            r@ == digits((self@ as usize) as nat, 16, true),
    {
        format_u128_upper_hex((self.get() as usize) as u128)
    }
}

impl<const BITS: usize> PartialEq for NonValueIsize<BITS> {
    fn eq(&self, other: &Self) -> (r: bool)
        ensures
            r == (self@ == other@),
    {
        self.get() == other.get()
    }
}

impl<const BITS: usize> PartialEqSpecImpl for NonValueIsize<BITS> {
    open spec fn obeys_eq_spec() -> bool {
        true
    }

    open spec fn eq_spec(&self, other: &Self) -> bool {
        self@ == other@
    }
}

impl<const BITS: usize> Eq for NonValueIsize<BITS> {

}

impl<const BITS: usize> From<NonValueIsize<BITS>> for isize {
    fn from(value: NonValueIsize<BITS>) -> (r: isize)
        ensures
            r == value@,
    {
        value.get()
    }
}

impl<const BITS: usize> FromSpecImpl<NonValueIsize<BITS>> for isize {
    open spec fn obeys_from_spec() -> bool {
        true
    }

    open spec fn from_spec(value: NonValueIsize<BITS>) -> isize {
        value@
    }
}

impl<const BITS: usize> TryFrom<isize> for NonValueIsize<BITS> {
    type Error = TryFromIntError;

    fn try_from(value: isize) -> (r: Result<Self, TryFromIntError>)
        ensures
            r is Ok <==> value != Self::forbidden(),
            r matches Ok(v) ==> v@ == value,
    {
        match Self::new(value) {
            Some(v) => Ok(v),
            None => Err(TryFromIntError::new()),
        }
    }
}

impl<const BITS: usize> TryFromSpecImpl<isize> for NonValueIsize<BITS> {
    open spec fn obeys_try_from_spec() -> bool {
        true
    }

    open spec fn try_from_spec(value: isize) -> Result<Self, TryFromIntError> {
        if value != Self::forbidden() {
            Ok(Self::of(value))
        } else {
            Err(TryFromIntError::unit())
        }
    }
}

impl<const BITS: usize> core::str::FromStr for NonValueIsize<BITS> {
    type Err = ParseIntError;

    fn from_str(value: &str) -> (r: Result<Self, ParseIntError>)
        ensures
            r is Ok <==> (parsed_integer(value@, isize::MIN as int, isize::MAX as int) matches Some(v)
                && v != Self::forbidden() as int),
            r matches Ok(x) ==> x@ as int == parsed_integer(value@, isize::MIN as int, isize::MAX as int)->0,
    {
        Self::from_decimal_str(value)
    }
}

impl NonValueIsize<ISIZE_MAX_BITS> {
    /// The value `0`.
    #[allow(non_snake_case)]
    pub fn ZERO() -> (r: Self)
        ensures
            r@ == 0,
    {
        proof {
            Self::lemma_bits_in_range();
            assert(Self::forbidden() == isize::MAX);
        }
        Self::new_unchecked(0)
    }

    /// The value `1`.
    #[allow(non_snake_case)]
    pub fn ONE() -> (r: Self)
        ensures
            r@ == 1,
    {
        proof {
            Self::lemma_bits_in_range();
            assert(Self::forbidden() == isize::MAX);
        }
        Self::new_unchecked(1)
    }

    /// The largest value it can hold, one below the maximum of `isize`.
    #[allow(non_snake_case)]
    pub fn MAX() -> (r: Self)
        ensures
            r@ == isize::MAX - 1,
    {
        proof {
            Self::lemma_bits_in_range();
            assert(Self::forbidden() == isize::MAX);
        }
        Self::new_unchecked(isize::MAX - 1)
    }
}

impl Default for NonValueIsize<ISIZE_MAX_BITS> {
    fn default() -> (r: Self)
        ensures
            r@ == 0,
    {
        proof {
            Self::lemma_bits_in_range();
            assert(Self::forbidden() == isize::MAX);
        }
        Self::new_unchecked(0)
    }
}

impl core::ops::BitAnd for NonValueIsize<ISIZE_MAX_BITS> {
    type Output = Self;

    /// `&` of two values below the maximum is below the maximum.
    fn bitand(self, rhs: Self) -> (r: Self)
        ensures
            r@ == self@ & rhs@,
    {
        let a = self.get();
        let b = rhs.get();
        proof {
            lemma_isize_and(a, b);
        }
        proof {
            Self::lemma_bits_in_range();
            assert(Self::forbidden() == isize::MAX);
        }

        Self::new_unchecked(a & b)
    }
}

impl BitAndSpecImpl for NonValueIsize<ISIZE_MAX_BITS> {
    open spec fn obeys_bitand_spec() -> bool {
        true
    }

    open spec fn bitand_req(self, rhs: Self) -> bool {
        true
    }

    open spec fn bitand_spec(self, rhs: Self) -> Self {
        Self::of(self@ & rhs@)
    }
}

impl core::ops::BitAndAssign for NonValueIsize<ISIZE_MAX_BITS> {
    fn bitand_assign(&mut self, rhs: Self)
        ensures
            final(self)@ == old(self)@ & rhs@,
    {
        *self = *self & rhs;
    }
}

/// The bit pattern of `isize::MAX`, the value that `NonMaxIsize` forbids.
pub const ISIZE_MAX_BITS: usize = isize::MAX as usize;

/// The bit pattern of `isize::MIN`, the value that `NonMinIsize` forbids.
pub const ISIZE_MIN_BITS: usize = isize::MIN as usize;

} // verus!
