# niche_value

Numeric types that are known **not** to hold one chosen value, so that
`Option<T>` is no larger than `T`, written in Verus with their behaviour
stated in contracts and proved.

Every type stores a `core::num::NonZero` of `value_bits ^ forbidden_bits`;
the type invariant of each type says that this encoding is never zero, and
the contracts speak of the value it holds (`v@`).

## Layout

- `src/nonvalue_u8.rs` … `src/nonvalue_isize.rs`: the integer types
  `NonValueU8<N>` … `NonValueIsize<BITS>`, their `NonMax*` / `NonMin*`
  aliases, construction, access, equality, conversions, parsing, text, and
  the `&` operators of the `NonMax*` types.
- `src/float32.rs`, `src/float64.rs`: the float types, on the IEEE-754 bit
  pattern: the bit-exact `NonValueF32<BITS>` and the class-based `NonNan*`,
  `NonInf*`, `NonZero*`, `Finite*`, `NonSubnormal*`, with the classification
  of patterns and the proof that each anchor lies in the rejected class.
- `src/order.rs`: `PartialOrd` by value and the total order `compare` (of
  the integers and of the `NaN`-free float types), with the laws that order
  and equality agree and that equal `NaN`-free floats hash alike. The types
  have no `Ord` impl; `app/`'s `TotalOrd` keys them for ordered collections.
- `src/widen.rs`: the infallible widening conversions into `NonMax*` types.
- `src/text.rs`: the digits that the formatting methods give, and the integer
  syntax that parsing accepts.
- `src/nonzero.rs`: the cells that hold a `core::num::NonZero*`.
- `src/error.rs`: the error types.
- `app/lib.rs`: access to the float types by primitive float value (with
  their `Display`, `Debug` and exponent text), serde support, `TotalOrd`, the
  bridge to `core::num::NonZero*`, and the compile-time layout checks.
