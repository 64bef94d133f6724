//! Integer text: the digits that the formatting traits print and the
//! decimal syntax that `str::parse` accepts, with the calls into `std` that
//! produce and read them.

use vstd::prelude::*;
use vstd::arithmetic::div_mod::{lemma_div_decreases, lemma_fundamental_div_mod};

verus! {

/// The digit character for `d`, where `d < 16`; letters are lower or upper case.
pub open spec fn digit_char(d: nat, upper: bool) -> char {
    if d < 10 {
        (48 + d) as char
    } else if upper {
        (55 + d) as char
    } else {
        (87 + d) as char
    }
}

/// `n` written in `base` (from 2 to 16): no sign, no prefix, no leading zeros
/// (zero is the single digit `0`).
pub open spec fn digits(n: nat, base: nat, upper: bool) -> Seq<char>
    decreases n,
{
    if base < 2 || n < base {
        seq![digit_char(n, upper)]
    } else {
        proof {
            lemma_div_decreases(n as int, base as int);
        }
        digits(n / base, base, upper).push(digit_char(n % base, upper))
    }
}

/// `v` in decimal, with a leading `-` when it is negative.
pub open spec fn decimal_text(v: int) -> Seq<char> {
    if v < 0 {
        seq!['-'] + digits((-v) as nat, 10, false)
    } else {
        digits(v as nat, 10, false)
    }
}

/// Whether `c` is an ASCII decimal digit.
pub open spec fn is_decimal_digit(c: char) -> bool {
    '0' <= c && c <= '9'
}

/// One or more ASCII decimal digits.
pub open spec fn all_decimal(s: Seq<char>) -> bool {
    s.len() > 0 && forall|i: int| 0 <= i < s.len() ==> is_decimal_digit(#[trigger] s[i])
}

/// The number that a string of decimal digits denotes.
pub open spec fn decimal_value(s: Seq<char>) -> nat
    decreases s.len(),
{
    if s.len() == 0 {
        0
    } else {
        decimal_value(s.drop_last()) * 10 + ((s.last() as int) - 48) as nat
    }
}

/// What `str::parse` gives for an integer type whose range is `min..=max`:
/// an optional sign (`-` only where `min < 0`), then one or more ASCII
/// digits whose value lies in the range; anything else is an error (`None`).
pub open spec fn parsed_integer(s: Seq<char>, min: int, max: int) -> Option<int> {
    if s.len() > 0 && s[0] == '-' && min < 0 {
        let body = s.drop_first();
        if all_decimal(body) && min <= -(decimal_value(body) as int) {
            Some(-(decimal_value(body) as int))
        } else {
            None
        }
    } else {
        let body = if s.len() > 0 && s[0] == '+' {
            s.drop_first()
        } else {
            s
        };
        if all_decimal(body) && decimal_value(body) <= max {
            Some(decimal_value(body) as int)
        } else {
            None
        }
    }
}

/// The number that a digit character stands for (`0`-`9`, `a`-`f`, `A`-`F`).
pub open spec fn digit_value(c: char) -> int {
    if '0' <= c && c <= '9' {
        c as int - 48
    } else if 'a' <= c && c <= 'f' {
        c as int - 87
    } else if 'A' <= c && c <= 'F' {
        c as int - 55
    } else {
        -1
    }
}

/// The number that a string of digits denotes in `base`, most significant first.
pub open spec fn digits_value(s: Seq<char>, base: nat) -> int
    decreases s.len(),
{
    if s.len() == 0 {
        0
    } else {
        digits_value(s.drop_last(), base) * base + digit_value(s.last())
    }
}

/// `digits` writes `n` in `base` faithfully: the text is not empty, every
/// character is a digit below `base` in the asked case, there is no leading
/// zero, and read back in `base` the text is `n`.
pub proof fn lemma_digits_denote(n: nat, base: nat, upper: bool)
    requires
        2 <= base <= 16,
    ensures
        digits(n, base, upper).len() > 0,
        n < base <==> digits(n, base, upper).len() == 1,
        forall|i: int|
            0 <= i < digits(n, base, upper).len() ==> 0 <= #[trigger] digit_value(
                digits(n, base, upper)[i],
            ) < base,
        forall|i: int|
            0 <= i < digits(n, base, upper).len() ==> (upper ==> !('a' <= #[trigger] digits(
                n,
                base,
                upper,
            )[i] <= 'z')) && (!upper ==> !('A' <= digits(n, base, upper)[i] <= 'Z')),
        digits(n, base, upper).len() > 1 ==> digits(n, base, upper)[0] != '0',
        digits_value(digits(n, base, upper), base) == n,
    decreases n,
{
    let s = digits(n, base, upper);
    if n < base {
        assert(s =~= seq![digit_char(n, upper)]);
        assert(s.drop_last() =~= Seq::<char>::empty());
        assert(digits_value(s.drop_last(), base) == 0);
        assert(0 * base == 0) by (nonlinear_arith);
        assert(digit_value(digit_char(n, upper)) == n);
    } else {
        lemma_div_decreases(n as int, base as int);
        lemma_fundamental_div_mod(n as int, base as int);
        let q = n / base;
        let t = digits(q, base, upper);
        lemma_digits_denote(q, base, upper);
        assert(q >= 1) by (nonlinear_arith)
            requires
                n >= base,
                base >= 2,
                n == base * q + n % base,
                n % base < base,
        ;
        if q < base {
            assert(t =~= seq![digit_char(q, upper)]);
            assert(t[0] != '0');
        }
        assert(s == t.push(digit_char(n % base, upper)));
        assert(s.drop_last() =~= t);
        assert(s[0] == t[0]);
        assert(digit_value(digit_char(n % base, upper)) == n % base);
        assert(q * base == base * q) by (nonlinear_arith);
        assert forall|i: int| 0 <= i < s.len() implies 0 <= #[trigger] digit_value(s[i]) < base by {
            if i < t.len() {
                assert(s[i] == t[i]);
            }
        }
        assert forall|i: int| 0 <= i < s.len() implies (upper ==> !('a' <= #[trigger] s[i]
            <= 'z')) && (!upper ==> !('A' <= s[i] <= 'Z')) by {
            if i < t.len() {
                assert(s[i] == t[i]);
            }
        }
    }
}

/// The decimal digits of `n` read back with `decimal_value` give `n`.
proof fn lemma_decimal_digits_value(n: nat)
    ensures
        decimal_value(digits(n, 10, false)) == n,
        all_decimal(digits(n, 10, false)),
    decreases n,
{
    let s = digits(n, 10, false);
    if n < 10 {
        assert(s =~= seq![digit_char(n, false)]);
        assert(s.drop_last() =~= Seq::<char>::empty());
        assert(decimal_value(s.drop_last()) == 0);
    } else {
        lemma_div_decreases(n as int, 10);
        lemma_fundamental_div_mod(n as int, 10);
        let t = digits(n / 10, 10, false);
        lemma_decimal_digits_value(n / 10);
        assert(s == t.push(digit_char(n % 10, false)));
        assert(s.drop_last() =~= t);
        assert forall|i: int| 0 <= i < s.len() implies is_decimal_digit(#[trigger] s[i]) by {
            if i < t.len() {
                assert(s[i] == t[i]);
            }
        }
    }
}

/// Parsing reads back what formatting writes: the decimal text of any value
/// in the range `min..=max` parses to that value.
pub proof fn lemma_parse_reads_decimal_text(v: int, min: int, max: int)
    requires
        min <= v <= max,
        min <= 0,
    ensures
        parsed_integer(decimal_text(v), min, max) == Some(v),
{
    if v < 0 {
        let d = digits((-v) as nat, 10, false);
        lemma_decimal_digits_value((-v) as nat);
        assert((seq!['-'] + d).drop_first() =~= d);
    } else {
        let d = digits(v as nat, 10, false);
        lemma_decimal_digits_value(v as nat);
        assert(is_decimal_digit(d[0]));
    }
}

/// Calls `format!("{}", ..)` on a `u128`: its decimal digits.
#[verifier::external_body]
pub(crate) fn format_u128_decimal(value: u128) -> (r: String)
    ensures
        r@ == digits(value as nat, 10, false),
{
    format!("{}", value)
}

/// Calls `format!("{}", ..)` on an `i128`: its decimal digits after a `-` when negative.
#[verifier::external_body]
pub(crate) fn format_i128_decimal(value: i128) -> (r: String)
    ensures
        r@ == decimal_text(value as int),
{
    format!("{}", value)
}

/// Calls `format!("{:b}", ..)` on a `u128`: its binary digits.
#[verifier::external_body]
pub(crate) fn format_u128_binary(value: u128) -> (r: String)
    ensures
        r@ == digits(value as nat, 2, false),
{
    format!("{:b}", value)
}

/// Calls `format!("{:o}", ..)` on a `u128`: its octal digits.
#[verifier::external_body]
pub(crate) fn format_u128_octal(value: u128) -> (r: String)
    ensures
        r@ == digits(value as nat, 8, false),
{
    format!("{:o}", value)
}

/// Calls `format!("{:x}", ..)` on a `u128`: its hexadecimal digits in lower case.
#[verifier::external_body]
pub(crate) fn format_u128_lower_hex(value: u128) -> (r: String)
    ensures
        r@ == digits(value as nat, 16, false),
{
    format!("{:x}", value)
}

/// Calls `format!("{:X}", ..)` on a `u128`: its hexadecimal digits in upper case.
#[verifier::external_body]
pub(crate) fn format_u128_upper_hex(value: u128) -> (r: String)
    ensures
        r@ == digits(value as nat, 16, true),
{
    format!("{:X}", value)
}

/// Calls `str::parse::<u8>`, dropping its error value: `Some` exactly when
/// the text is an integer in the range of `u8` as `parsed_integer` says.
#[verifier::external_body]
pub(crate) fn parse_u8(text: &str) -> (r: Option<u8>)
    ensures
        r is Some <==> parsed_integer(text@, u8::MIN as int, u8::MAX as int) is Some,
        r matches Some(v) ==> v as int == parsed_integer(text@, u8::MIN as int, u8::MAX as int)->0,
{
    text.parse::<u8>().ok()
}

/// Calls `str::parse::<u16>`, dropping its error value: `Some` exactly when
/// the text is an integer in the range of `u16` as `parsed_integer` says.
#[verifier::external_body]
pub(crate) fn parse_u16(text: &str) -> (r: Option<u16>)
    ensures
        r is Some <==> parsed_integer(text@, u16::MIN as int, u16::MAX as int) is Some,
        r matches Some(v) ==> v as int == parsed_integer(text@, u16::MIN as int, u16::MAX as int)->0,
{
    text.parse::<u16>().ok()
}

/// Calls `str::parse::<u32>`, dropping its error value: `Some` exactly when
/// the text is an integer in the range of `u32` as `parsed_integer` says.
#[verifier::external_body]
pub(crate) fn parse_u32(text: &str) -> (r: Option<u32>)
    ensures
        r is Some <==> parsed_integer(text@, u32::MIN as int, u32::MAX as int) is Some,
        r matches Some(v) ==> v as int == parsed_integer(text@, u32::MIN as int, u32::MAX as int)->0,
{
    text.parse::<u32>().ok()
}

/// Calls `str::parse::<u64>`, dropping its error value: `Some` exactly when
/// the text is an integer in the range of `u64` as `parsed_integer` says.
#[verifier::external_body]
pub(crate) fn parse_u64(text: &str) -> (r: Option<u64>)
    ensures
        r is Some <==> parsed_integer(text@, u64::MIN as int, u64::MAX as int) is Some,
        r matches Some(v) ==> v as int == parsed_integer(text@, u64::MIN as int, u64::MAX as int)->0,
{
    text.parse::<u64>().ok()
}

/// Calls `str::parse::<u128>`, dropping its error value: `Some` exactly when
/// the text is an integer in the range of `u128` as `parsed_integer` says.
#[verifier::external_body]
pub(crate) fn parse_u128(text: &str) -> (r: Option<u128>)
    ensures
        r is Some <==> parsed_integer(text@, u128::MIN as int, u128::MAX as int) is Some,
        r matches Some(v) ==> v as int == parsed_integer(text@, u128::MIN as int, u128::MAX as int)->0,
{
    text.parse::<u128>().ok()
}

/// Calls `str::parse::<usize>`, dropping its error value: `Some` exactly when
/// the text is an integer in the range of `usize` as `parsed_integer` says.
#[verifier::external_body]
pub(crate) fn parse_usize(text: &str) -> (r: Option<usize>)
    ensures
        r is Some <==> parsed_integer(text@, usize::MIN as int, usize::MAX as int) is Some,
        r matches Some(v) ==> v as int == parsed_integer(text@, usize::MIN as int, usize::MAX as int)->0,
{
    text.parse::<usize>().ok()
}

/// Calls `str::parse::<i8>`, dropping its error value: `Some` exactly when
/// the text is an integer in the range of `i8` as `parsed_integer` says.
#[verifier::external_body]
pub(crate) fn parse_i8(text: &str) -> (r: Option<i8>)
    ensures
        r is Some <==> parsed_integer(text@, i8::MIN as int, i8::MAX as int) is Some,
        r matches Some(v) ==> v as int == parsed_integer(text@, i8::MIN as int, i8::MAX as int)->0,
{
    text.parse::<i8>().ok()
}

/// Calls `str::parse::<i16>`, dropping its error value: `Some` exactly when
/// the text is an integer in the range of `i16` as `parsed_integer` says.
#[verifier::external_body]
pub(crate) fn parse_i16(text: &str) -> (r: Option<i16>)
    ensures
        r is Some <==> parsed_integer(text@, i16::MIN as int, i16::MAX as int) is Some,
        r matches Some(v) ==> v as int == parsed_integer(text@, i16::MIN as int, i16::MAX as int)->0,
{
    text.parse::<i16>().ok()
}

/// Calls `str::parse::<i32>`, dropping its error value: `Some` exactly when
/// the text is an integer in the range of `i32` as `parsed_integer` says.
#[verifier::external_body]
pub(crate) fn parse_i32(text: &str) -> (r: Option<i32>)
    ensures
        r is Some <==> parsed_integer(text@, i32::MIN as int, i32::MAX as int) is Some,
        r matches Some(v) ==> v as int == parsed_integer(text@, i32::MIN as int, i32::MAX as int)->0,
{
    text.parse::<i32>().ok()
}

/// Calls `str::parse::<i64>`, dropping its error value: `Some` exactly when
/// the text is an integer in the range of `i64` as `parsed_integer` says.
#[verifier::external_body]
pub(crate) fn parse_i64(text: &str) -> (r: Option<i64>)
    ensures
        r is Some <==> parsed_integer(text@, i64::MIN as int, i64::MAX as int) is Some,
        r matches Some(v) ==> v as int == parsed_integer(text@, i64::MIN as int, i64::MAX as int)->0,
{
    text.parse::<i64>().ok()
}

/// Calls `str::parse::<i128>`, dropping its error value: `Some` exactly when
/// the text is an integer in the range of `i128` as `parsed_integer` says.
#[verifier::external_body]
pub(crate) fn parse_i128(text: &str) -> (r: Option<i128>)
    ensures
        r is Some <==> parsed_integer(text@, i128::MIN as int, i128::MAX as int) is Some,
        r matches Some(v) ==> v as int == parsed_integer(text@, i128::MIN as int, i128::MAX as int)->0,
{
    text.parse::<i128>().ok()
}

/// Calls `str::parse::<isize>`, dropping its error value: `Some` exactly when
/// the text is an integer in the range of `isize` as `parsed_integer` says.
#[verifier::external_body]
pub(crate) fn parse_isize(text: &str) -> (r: Option<isize>)
    ensures
        r is Some <==> parsed_integer(text@, isize::MIN as int, isize::MAX as int) is Some,
        r matches Some(v) ==> v as int == parsed_integer(text@, isize::MIN as int, isize::MAX as int)->0,
{
    text.parse::<isize>().ok()
}

} // verus!
