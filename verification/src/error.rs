//! Error types returned by the checked conversions.
//!
//! The integer error types mirror `core::num::TryFromIntError` and
//! `core::num::ParseIntError`, and the float ones follow
//! `core::num::ParseFloatError` naming. Each has a method `to_string` that
//! gives the error's message.

use vstd::prelude::*;
use vstd::std_specs::cmp::PartialEqSpecImpl;
use vstd::std_specs::convert::FromSpecImpl;
use vstd::string::StringExecFns;

verus! {

/// The declaration of `core::num::ParseIntError`, which `str::parse` reports.
#[verifier::external_type_specification]
#[verifier::external_body]
pub struct ExParseIntError(core::num::ParseIntError);

/// The declaration of `core::num::ParseFloatError`, which `str::parse` reports.
#[verifier::external_type_specification]
#[verifier::external_body]
pub struct ExParseFloatError(core::num::ParseFloatError);

/// Error returned when a checked integral conversion fails (mirrors
/// `core::num::TryFromIntError`).
#[derive(Debug, Clone, Copy)]
pub struct TryFromIntError(pub(crate) ());

impl PartialEq for TryFromIntError {
    /// Every value of this error equals every other.
    fn eq(&self, other: &Self) -> (r: bool) {
        true
    }
}

impl PartialEqSpecImpl for TryFromIntError {
    open spec fn obeys_eq_spec() -> bool {
        true
    }

    open spec fn eq_spec(&self, other: &Self) -> bool {
        true
    }
}

impl Eq for TryFromIntError {

}

impl TryFromIntError {
    /// The error's single value.
    pub closed spec fn unit() -> Self {
        TryFromIntError(())
    }

    /// Makes the error.
    pub(crate) fn new() -> (r: Self)
        ensures
            r == Self::unit(),
    {
        TryFromIntError(())
    }

    /// The error has one value: any two are equal.
    pub proof fn lemma_single_value(a: Self, b: Self)
        ensures
            a == b,
    {
    }

    /// The message that the error displays.
    pub fn to_string(&self) -> (r: String)
        ensures
            r@ == "out of range integral type conversion attempted"@,
    {
        String::from_str("out of range integral type conversion attempted")
    }
}

impl From<core::num::TryFromIntError> for TryFromIntError {
    fn from(_error: core::num::TryFromIntError) -> (r: Self) {
        TryFromIntError(())
    }
}

impl FromSpecImpl<core::num::TryFromIntError> for TryFromIntError {
    open spec fn obeys_from_spec() -> bool {
        true
    }

    open spec fn from_spec(v: core::num::TryFromIntError) -> Self {
        Self::unit()
    }
}

impl From<core::convert::Infallible> for TryFromIntError {
    /// No `Infallible` value exists, so this is never called.
    fn from(_never: core::convert::Infallible) -> (r: Self) {
        TryFromIntError(())
    }
}

/// Error returned when an integer string cannot be parsed into a niche integer
/// (mirrors `core::num::ParseIntError`).
#[derive(Debug)]
pub struct ParseIntError(pub(crate) ());

impl Clone for ParseIntError {
    fn clone(&self) -> (r: Self)
        ensures
            r == *self,
    {
        ParseIntError(())
    }
}

impl PartialEq for ParseIntError {
    /// Every value of this error equals every other.
    fn eq(&self, other: &Self) -> (r: bool) {
        true
    }
}

impl PartialEqSpecImpl for ParseIntError {
    open spec fn obeys_eq_spec() -> bool {
        true
    }

    open spec fn eq_spec(&self, other: &Self) -> bool {
        true
    }
}

impl Eq for ParseIntError {

}

impl ParseIntError {
    /// The error's single value.
    pub closed spec fn unit() -> Self {
        ParseIntError(())
    }

    /// Makes the error.
    pub(crate) fn new() -> (r: Self)
        ensures
            r == Self::unit(),
    {
        ParseIntError(())
    }

    /// The error has one value: any two are equal.
    pub proof fn lemma_single_value(a: Self, b: Self)
        ensures
            a == b,
    {
    }

    /// The message that the error displays.
    pub fn to_string(&self) -> (r: String)
        ensures
            r@ == "unable to parse integer"@,
    {
        String::from_str("unable to parse integer")
    }
}

impl From<core::num::ParseIntError> for ParseIntError {
    fn from(_error: core::num::ParseIntError) -> (r: Self) {
        ParseIntError(())
    }
}

impl FromSpecImpl<core::num::ParseIntError> for ParseIntError {
    open spec fn obeys_from_spec() -> bool {
        true
    }

    open spec fn from_spec(v: core::num::ParseIntError) -> Self {
        Self::unit()
    }
}

/// Error returned when a checked float conversion fails: the value was the
/// forbidden bit pattern, or a member of the class that the type rejects.
#[derive(Debug, Clone, Copy)]
pub struct TryFromFloatError(pub(crate) ());

impl PartialEq for TryFromFloatError {
    /// Every value of this error equals every other.
    fn eq(&self, other: &Self) -> (r: bool) {
        true
    }
}

impl PartialEqSpecImpl for TryFromFloatError {
    open spec fn obeys_eq_spec() -> bool {
        true
    }

    open spec fn eq_spec(&self, other: &Self) -> bool {
        true
    }
}

impl Eq for TryFromFloatError {

}

impl TryFromFloatError {
    /// The error's single value.
    pub closed spec fn unit() -> Self {
        TryFromFloatError(())
    }

    /// Makes the error.
    pub(crate) fn new() -> (r: Self)
        ensures
            r == Self::unit(),
    {
        TryFromFloatError(())
    }

    /// The error has one value: any two are equal.
    pub proof fn lemma_single_value(a: Self, b: Self)
        ensures
            a == b,
    {
    }

    /// The message that the error displays.
    pub fn to_string(&self) -> (r: String)
        ensures
            r@ == "float value is forbidden by this niche type"@,
    {
        String::from_str("float value is forbidden by this niche type")
    }
}

/// Error returned when a float string cannot be parsed into a niche float
/// (mirrors `core::num::ParseFloatError` naming).
#[derive(Debug)]
pub struct ParseFloatError(pub(crate) ());

impl Clone for ParseFloatError {
    fn clone(&self) -> (r: Self)
        ensures
            r == *self,
    {
        ParseFloatError(())
    }
}

impl PartialEq for ParseFloatError {
    /// Every value of this error equals every other.
    fn eq(&self, other: &Self) -> (r: bool) {
        true
    }
}

impl PartialEqSpecImpl for ParseFloatError {
    open spec fn obeys_eq_spec() -> bool {
        true
    }

    open spec fn eq_spec(&self, other: &Self) -> bool {
        true
    }
}

impl Eq for ParseFloatError {

}

impl ParseFloatError {
    /// The error's single value.
    pub closed spec fn unit() -> Self {
        ParseFloatError(())
    }

    /// Makes the error.
    pub(crate) fn new() -> (r: Self)
        ensures
            r == Self::unit(),
    {
        ParseFloatError(())
    }

    /// The error has one value: any two are equal.
    pub proof fn lemma_single_value(a: Self, b: Self)
        ensures
            a == b,
    {
    }

    /// The message that the error displays.
    pub fn to_string(&self) -> (r: String)
        ensures
            r@ == "unable to parse float"@,
    {
        String::from_str("unable to parse float")
    }
}

impl From<core::num::ParseFloatError> for ParseFloatError {
    fn from(_error: core::num::ParseFloatError) -> (r: Self) {
        ParseFloatError(())
    }
}

impl FromSpecImpl<core::num::ParseFloatError> for ParseFloatError {
    open spec fn obeys_from_spec() -> bool {
        true
    }

    open spec fn from_spec(v: core::num::ParseFloatError) -> Self {
        Self::unit()
    }
}

} // verus!
