use core::cmp::Ordering;
use core::mem::size_of;
use std::collections::{BTreeSet, HashSet};
use niche_value::{
    FiniteF32, FiniteF64, NonInfF32, NonInfF64, NonMaxF32, NonMaxF64, NonMinF32, NonMinF64,
    NonNanF32, NonNanF64, NonSubnormalF32, NonSubnormalF64, NonValueF32, NonZeroF32, NonZeroF64,
};

// The NaN-free float types give their total order through `compare`.
trait TotalOrder: Copy + PartialOrd {
    fn total_cmp(&self, other: &Self) -> Ordering;
}

impl TotalOrder for NonNanF64 {
    fn total_cmp(&self, other: &Self) -> Ordering {
        self.compare(other)
    }
}

impl TotalOrder for FiniteF64 {
    fn total_cmp(&self, other: &Self) -> Ordering {
        self.compare(other)
    }
}

// Keys a `BTreeSet` by that total order.
#[derive(Clone, Copy)]
struct ByValue<T>(T);

impl<T: TotalOrder> PartialEq for ByValue<T> {
    fn eq(&self, other: &Self) -> bool {
        self.0.total_cmp(&other.0) == Ordering::Equal
    }
}

impl<T: TotalOrder> Eq for ByValue<T> {}

impl<T: TotalOrder> PartialOrd for ByValue<T> {
    fn partial_cmp(&self, other: &Self) -> Option<Ordering> {
        Some(self.cmp(other))
    }
}

impl<T: TotalOrder> Ord for ByValue<T> {
    fn cmp(&self, other: &Self) -> Ordering {
        self.0.total_cmp(&other.0)
    }
}

// Shared contract checks for the NaN-free float types: a total order and the
// `-0.0`-normalized `Hash`.
fn assert_total_order_f64<T: TotalOrder>(new: impl Fn(f64) -> T, get: impl Fn(&T) -> f64) {
    let a = new(-1.0);
    let b = new(0.0);
    let c = new(2.5);
    assert!(a < b && b < c);
    assert_eq!(a.total_cmp(&a), Ordering::Equal);
    assert_eq!(c.total_cmp(&a), Ordering::Greater);

    let mut set: BTreeSet<ByValue<T>> = BTreeSet::new();
    set.insert(ByValue(c));
    set.insert(ByValue(a));
    set.insert(ByValue(b));
    let sorted: Vec<f64> = set.iter().map(|x| get(&x.0)).collect();
    assert_eq!(sorted, vec![-1.0, 0.0, 2.5]);
}

fn assert_signed_zero_eq_hash_f32<T: Eq + core::hash::Hash + Copy + core::fmt::Debug>(
    new: impl Fn(f32) -> T,
) {
    // +0.0 and -0.0 compare and hash equal, so -0.0 must collide in the set.
    let mut hs: HashSet<T> = HashSet::new();
    assert!(hs.insert(new(0.0)));
    assert!(!hs.insert(new(-0.0)));
    assert_eq!(new(0.0), new(-0.0));
}

#[test]
fn bit_exact_rejection_and_roundtrip() {
    assert_eq!(f32::from_bits(NonMaxF32::from_bits(1.5f32.to_bits()).unwrap().to_bits()), 1.5);
    assert!(NonMaxF32::from_bits(f32::MAX.to_bits()).is_none());
    assert!(NonMinF32::from_bits(f32::MIN.to_bits()).is_none());
    assert_eq!(
        f32::from_bits(NonMaxF32::from_bits(f32::INFINITY.to_bits()).unwrap().to_bits()),
        f32::INFINITY
    );
    assert!(NonMaxF64::from_bits(f64::MAX.to_bits()).is_none());
    assert!(NonMinF64::from_bits(f64::MIN.to_bits()).is_none());
}

#[test]
fn signed_zero_is_bit_distinct() {
    // Forbid +0.0's bit pattern; -0.0 is a *different* pattern and allowed.
    type NoPosZero = NonValueF32<0x0000_0000>;
    assert!(NoPosZero::from_bits(0.0f32.to_bits()).is_none());
    let neg = NoPosZero::from_bits((-0.0f32).to_bits()).unwrap();
    assert!(f32::from_bits(neg.to_bits()).is_sign_negative());
    assert_eq!(f32::from_bits(neg.to_bits()), 0.0); // value-equal to +0.0
}

#[test]
fn nonnan_rejects_every_nan_but_keeps_infinity() {
    assert!(NonNanF32::from_bits(f32::NAN.to_bits()).is_none());
    // a different (signaling-ish) NaN bit pattern is also rejected
    assert!(NonNanF32::from_bits(0x7F80_0001).is_none());
    assert!(NonNanF32::from_bits(0xFFFF_FFFF).is_none());
    assert!(NonNanF64::from_bits(f64::NAN.to_bits()).is_none());
    assert!(NonNanF64::from_bits(0xFFFF_FFFF_FFFF_FFFF).is_none());
    // infinities are NOT NaN, so allowed
    assert_eq!(
        f32::from_bits(NonNanF32::from_bits(f32::INFINITY.to_bits()).unwrap().to_bits()),
        f32::INFINITY
    );
    assert_eq!(f32::from_bits(NonNanF32::from_bits((-2.5f32).to_bits()).unwrap().to_bits()), -2.5);
}

#[test]
fn noninf_rejects_both_infinities_but_keeps_nan() {
    assert!(NonInfF32::from_bits(f32::INFINITY.to_bits()).is_none());
    assert!(NonInfF32::from_bits(f32::NEG_INFINITY.to_bits()).is_none());
    assert!(NonInfF64::from_bits(f64::INFINITY.to_bits()).is_none());
    assert!(NonInfF64::from_bits(f64::NEG_INFINITY.to_bits()).is_none());
    // NaN is not infinite, so allowed (and thus NonInf is NOT Eq/Ord)
    assert!(f64::from_bits(NonInfF64::from_bits(f64::NAN.to_bits()).unwrap().to_bits()).is_nan());
    assert_eq!(f32::from_bits(NonInfF32::from_bits(3.0f32.to_bits()).unwrap().to_bits()), 3.0);
}

#[test]
fn nonnan_is_totally_ordered_and_hashable() {
    assert_total_order_f64(
        |v| NonNanF64::from_bits(v.to_bits()).unwrap(),
        |x| f64::from_bits(x.to_bits()),
    );
    assert_signed_zero_eq_hash_f32(|v| NonNanF32::from_bits(v.to_bits()).unwrap());
    // Infinities are allowed and sit at the ends of the order.
    let lo = NonNanF64::from_bits(f64::NEG_INFINITY.to_bits()).unwrap();
    let hi = NonNanF64::from_bits(f64::INFINITY.to_bits()).unwrap();
    assert!(lo < NonNanF64::from_bits(f64::MIN.to_bits()).unwrap());
    assert!(hi > NonNanF64::from_bits(f64::MAX.to_bits()).unwrap());
}

#[test]
fn nonnan_signed_zero_roundtrips_but_compares_equal() {
    let pos = NonNanF32::from_bits(0.0f32.to_bits()).unwrap();
    let neg = NonNanF32::from_bits((-0.0f32).to_bits()).unwrap();
    assert_eq!(pos, neg); // value equality
    assert_eq!(pos.compare(&neg), Ordering::Equal);
    // but the pattern is lossless on the sign bit
    assert!(f32::from_bits(pos.to_bits()).is_sign_positive());
    assert!(f32::from_bits(neg.to_bits()).is_sign_negative());
}

#[test]
fn nonzero_rejects_both_signed_zeros_but_keeps_nan() {
    // Both +0.0 and -0.0 are rejected as a *class* (unlike bit-exact
    // NonValueF32<0x0000_0000>, which forbids only +0.0).
    assert!(NonZeroF32::from_bits(0.0f32.to_bits()).is_none());
    assert!(NonZeroF32::from_bits((-0.0f32).to_bits()).is_none());
    assert!(NonZeroF64::from_bits(0.0f64.to_bits()).is_none());
    assert!(NonZeroF64::from_bits((-0.0f64).to_bits()).is_none());
    // nonzero values (including NaN and infinities) round-trip
    assert_eq!(f32::from_bits(NonZeroF32::from_bits(1.5f32.to_bits()).unwrap().to_bits()), 1.5);
    assert_eq!(f32::from_bits(NonZeroF32::from_bits((-2.0f32).to_bits()).unwrap().to_bits()), -2.0);
    assert_eq!(
        f32::from_bits(NonZeroF32::from_bits(f32::MIN_POSITIVE.to_bits()).unwrap().to_bits()),
        f32::MIN_POSITIVE
    );
    // the smallest subnormal is nonzero and must round-trip bit-exactly
    assert_eq!(NonZeroF32::from_bits(f32::from_bits(1).to_bits()).unwrap().to_bits(), 1);
    assert!(f64::from_bits(NonZeroF64::from_bits(f64::NAN.to_bits()).unwrap().to_bits()).is_nan());
    assert_eq!(
        f32::from_bits(NonZeroF32::from_bits(f32::INFINITY.to_bits()).unwrap().to_bits()),
        f32::INFINITY
    );
    assert_eq!(size_of::<Option<NonZeroF32>>(), size_of::<f32>());
    assert_eq!(size_of::<Option<NonZeroF64>>(), size_of::<f64>());
}

#[test]
fn finite_rejects_nan_and_both_infinities() {
    // Finite = NonNan ∩ NonInf: rejects the whole non-finite class.
    assert!(FiniteF32::from_bits(f32::NAN.to_bits()).is_none());
    assert!(FiniteF32::from_bits(0x7F80_0001).is_none()); // another NaN
    assert!(FiniteF32::from_bits(f32::INFINITY.to_bits()).is_none());
    assert!(FiniteF32::from_bits(f32::NEG_INFINITY.to_bits()).is_none());
    assert!(FiniteF64::from_bits(f64::NAN.to_bits()).is_none());
    assert!(FiniteF64::from_bits(f64::INFINITY.to_bits()).is_none());
    assert!(FiniteF64::from_bits(f64::NEG_INFINITY.to_bits()).is_none());
    // finite values (including subnormals and zeros) round-trip
    assert_eq!(f32::from_bits(FiniteF32::from_bits(1.5f32.to_bits()).unwrap().to_bits()), 1.5);
    assert_eq!(f64::from_bits(FiniteF64::from_bits((-2.5f64).to_bits()).unwrap().to_bits()), -2.5);
    assert_eq!(f32::from_bits(FiniteF32::from_bits(0.0f32.to_bits()).unwrap().to_bits()), 0.0);
    assert_eq!(f32::from_bits(FiniteF32::from_bits(f32::MAX.to_bits()).unwrap().to_bits()), f32::MAX);
    assert_eq!(size_of::<Option<FiniteF32>>(), size_of::<f32>());
    assert_eq!(size_of::<Option<FiniteF64>>(), size_of::<f64>());
}

#[test]
fn finite_is_totally_ordered_and_hashable() {
    assert_total_order_f64(
        |v| FiniteF64::from_bits(v.to_bits()).unwrap(),
        |x| f64::from_bits(x.to_bits()),
    );
    assert_signed_zero_eq_hash_f32(|v| FiniteF32::from_bits(v.to_bits()).unwrap());
    // +0.0 and -0.0 compare and hash equal, but the pattern keeps the sign.
    assert!(f32::from_bits(FiniteF32::from_bits((-0.0f32).to_bits()).unwrap().to_bits()).is_sign_negative());
}

#[test]
fn nonsubnormal_rejects_subnormals_but_keeps_nan_zero_and_normals() {
    // Smallest positive subnormal and a mid-range subnormal are rejected.
    assert!(NonSubnormalF32::from_bits(0x0000_0001).is_none());
    assert!(NonSubnormalF32::from_bits(0x0040_0000).is_none()); // larger subnormal
    assert!(NonSubnormalF64::from_bits(0x0000_0000_0000_0001).is_none());
    // Negative subnormals (sign bit set) are subnormal too, so also rejected.
    assert!(NonSubnormalF32::from_bits(0x8000_0001).is_none());
    assert!(NonSubnormalF64::from_bits(0x8000_0000_0000_0001).is_none());
    // -0.0/+0.0 are NOT subnormal, so allowed; NaN allowed; normals allowed.
    assert_eq!(f32::from_bits(NonSubnormalF32::from_bits(0.0f32.to_bits()).unwrap().to_bits()), 0.0);
    assert!(f32::from_bits(NonSubnormalF32::from_bits((-0.0f32).to_bits()).unwrap().to_bits()).is_sign_negative());
    assert!(f64::from_bits(NonSubnormalF64::from_bits(f64::NAN.to_bits()).unwrap().to_bits()).is_nan());
    assert_eq!(
        f32::from_bits(NonSubnormalF32::from_bits(f32::MIN_POSITIVE.to_bits()).unwrap().to_bits()),
        f32::MIN_POSITIVE
    );
    assert_eq!(f64::from_bits(NonSubnormalF64::from_bits(1.5f64.to_bits()).unwrap().to_bits()), 1.5);
    assert_eq!(size_of::<Option<NonSubnormalF32>>(), size_of::<f32>());
    assert_eq!(size_of::<Option<NonSubnormalF64>>(), size_of::<f64>());
}

#[test]
fn float_sizes_niche_optimized() {
    assert_eq!(size_of::<Option<NonValueF32<7>>>(), size_of::<f32>());
    assert_eq!(size_of::<Option<NonMaxF64>>(), size_of::<f64>());
    assert_eq!(size_of::<Option<NonNanF32>>(), size_of::<f32>());
    assert_eq!(size_of::<Option<NonNanF64>>(), size_of::<f64>());
    assert_eq!(size_of::<Option<NonInfF32>>(), size_of::<f32>());
}

#[test]
fn fmt_and_parse() {
    // The float text itself is the primitive's, printed in app/.
    let v = NonNanF64::from_bits(1.5f64.to_bits()).unwrap();
    assert_eq!(f64::from_bits(v.to_bits()), 1.5);
    let p = NonNanF32::from_parsed_bits("2.5".parse::<f32>().ok().map(f32::to_bits)).unwrap();
    assert_eq!(f32::from_bits(p.to_bits()), 2.5);
    assert!(NonNanF32::from_parsed_bits("NaN".parse::<f32>().ok().map(f32::to_bits)).is_err());
    assert!(FiniteF32::from_parsed_bits("inf".parse::<f32>().ok().map(f32::to_bits)).is_err());
    assert!(NonMaxF32::from_parsed_bits("abc".parse::<f32>().ok().map(f32::to_bits)).is_err());
    let b = NonMaxF32::from_parsed_bits("1e3".parse::<f32>().ok().map(f32::to_bits)).unwrap();
    assert_eq!(f32::from_bits(b.to_bits()), 1000.0);
}

#[test]
fn float_conversions() {
    assert_eq!(f32::from_bits(NonNanF32::from_bits(1.5f32.to_bits()).unwrap().to_bits()), 1.5);
    assert_eq!(f32::from_bits(NonNanF32::try_from_bits(1.5f32.to_bits()).unwrap().to_bits()), 1.5);
    NonNanF32::try_from_bits(f32::NAN.to_bits()).unwrap_err();
    NonMaxF64::try_from_bits(f64::MAX.to_bits()).unwrap_err();
}
