use core::cmp::Ordering;
use core::convert::TryFrom;
use std::collections::HashSet;
use niche_value::float32::{
    hash_bits_of32, is_finite32, is_infinite32, is_nan32, is_subnormal32, is_zero32,
    order_key_of32, values_equal32, FINITE_F32_ANCHOR, NONINF_F32_ANCHOR, NONNAN_F32_ANCHOR,
    NONSUBNORMAL_F32_ANCHOR, NONZERO_F32_ANCHOR,
};
use niche_value::float64::{is_nan64, NONNAN_F64_ANCHOR};
use niche_value::{
    FiniteF32, NonInfF32, NonMaxI128, NonMaxI16, NonMaxI32, NonMaxI64, NonMaxI8, NonMaxIsize,
    NonMaxU128, NonMaxU16, NonMaxU32, NonMaxU64, NonMaxU8, NonMaxUsize, NonMinI8, NonMinIsize,
    NonMinU16, NonNanF32, NonNanF64, NonSubnormalF32, NonValueF32, NonValueI16, NonValueI8,
    NonValueU128, NonValueU8, NonZeroF32, ParseFloatError, ParseIntError, TryFromFloatError,
    TryFromIntError,
};

#[test]
fn new_is_none_exactly_on_the_forbidden_value() {
    assert!(NonValueU128::<12345>::new(12345).is_none());
    assert_eq!(NonValueU128::<12345>::new(12346).unwrap().get(), 12346);
    assert!(NonMinU16::new(0).is_none());
    assert_eq!(NonMinU16::new(1).unwrap().get(), 1);
    // the forbidden i16 is -2, pattern 0xfffe
    assert!(NonValueI16::<0xfffe>::new(-2).is_none());
    assert_eq!(NonValueI16::<0xfffe>::new(-3).unwrap().get(), -3);
    assert_eq!(NonValueI16::<0xfffe>::new(0x7ffe).unwrap().get(), 0x7ffe);
}

#[test]
fn new_unchecked_holds_the_value() {
    assert_eq!(NonValueU8::<7>::new_unchecked(6).get(), 6);
    assert_eq!(NonMaxI8::new_unchecked(-128).get(), -128);
}

#[test]
fn conversion_round_trip() {
    for value in 0..=u8::MAX {
        match NonValueU8::<9>::try_from(value) {
            Ok(v) => assert_eq!(u8::from(v), value),
            Err(_) => assert_eq!(value, 9),
        }
    }
    assert_eq!(i8::from(NonMinI8::try_from(-127).unwrap()), -127);
    assert!(NonMinI8::try_from(-128).is_err());
}

#[test]
fn parse_accepts_exactly_std_integer_syntax() {
    assert_eq!("+5".parse::<NonMaxU8>().unwrap().get(), 5);
    assert_eq!("007".parse::<NonMaxU8>().unwrap().get(), 7);
    assert_eq!("254".parse::<NonMaxU8>().unwrap().get(), 254);
    assert!("255".parse::<NonMaxU8>().is_err()); // in range, but the forbidden value
    assert!("-5".parse::<NonMaxU8>().is_err());
    assert!("".parse::<NonMaxU8>().is_err());
    assert!("+".parse::<NonMaxU8>().is_err());
    assert!("1_0".parse::<NonMaxU8>().is_err());
    assert!(" 1".parse::<NonMaxU8>().is_err());
    assert_eq!("-0".parse::<NonMaxI8>().unwrap().get(), 0);
    assert_eq!("-128".parse::<NonMaxI8>().unwrap().get(), -128);
    assert!("128".parse::<NonMaxI8>().is_err());
    assert!("127".parse::<NonMaxI8>().is_err());
    assert!("-".parse::<NonMaxI8>().is_err());
    assert_eq!(NonMaxU8::from_decimal_str("12").unwrap().get(), 12);
    let err: ParseIntError = NonMaxU8::from_decimal_str("abc").unwrap_err();
    assert_eq!(err.to_string(), "unable to parse integer");
}

#[test]
fn formatting_of_signed_values_uses_twos_complement_bits() {
    let v = NonMaxI8::new(-1).unwrap();
    assert_eq!(v.to_string(), "-1");
    assert_eq!(v.to_debug_string(), "-1");
    assert_eq!(v.to_binary_string(), "11111111");
    assert_eq!(v.to_octal_string(), "377");
    assert_eq!(v.to_lower_hex_string(), "ff");
    assert_eq!(v.to_upper_hex_string(), "FF");
    let w = NonMaxI32::new(-2147483648).unwrap();
    assert_eq!(w.to_string(), "-2147483648");
    assert_eq!(w.to_upper_hex_string(), "80000000");
}

#[test]
fn formatting_of_unsigned_values() {
    let v = NonMaxU128::new(u128::MAX - 1).unwrap();
    assert_eq!(v.to_string(), "340282366920938463463374607431768211454");
    let z = NonMaxU8::ZERO();
    assert_eq!(z.to_string(), "0");
    assert_eq!(z.to_binary_string(), "0");
    let h = NonMaxU16::new(0xbeef).unwrap();
    assert_eq!(h.to_lower_hex_string(), "beef");
    assert_eq!(h.to_upper_hex_string(), "BEEF");
    assert_eq!(h.to_octal_string(), "137357");
}

#[test]
fn nonmax_constants_of_every_width() {
    assert_eq!(NonMaxU64::MAX().get(), u64::MAX - 1);
    assert_eq!(NonMaxUsize::MAX().get(), usize::MAX - 1);
    assert_eq!(NonMaxIsize::MAX().get(), isize::MAX - 1);
    assert_eq!(NonMaxI128::ONE().get(), 1);
    assert_eq!(NonMaxI64::default().get(), 0);
    assert!(NonMaxIsize::new(isize::MAX).is_none());
    assert!(NonMinIsize::new(isize::MIN).is_none());
    assert!(NonMaxUsize::new(usize::MAX).is_none());
}

#[test]
fn bitand_assign_forms() {
    let mut a = NonMaxU8::new(0b1100).unwrap();
    a &= NonMaxU8::new(0b1010).unwrap();
    assert_eq!(a.get(), 0b1000);
    a &= 0b0001u8;
    assert_eq!(a.get(), 0);
    let mut p: u8 = 0xff;
    p &= NonMaxU8::new(0x0f).unwrap();
    assert_eq!(p, 0x0f);
    let mut s = NonMaxI8::new(-1).unwrap();
    s &= NonMaxI8::new(0x3f).unwrap();
    assert_eq!(s.get(), 0x3f);
    assert_eq!((NonMaxU8::new(254).unwrap() & 0xffu8).get(), 254);
}

#[test]
fn widening_keeps_the_value() {
    let a: NonMaxI128 = NonMaxI8::new(-128).unwrap().into();
    assert_eq!(a.get(), -128);
    let b: NonMaxI128 = NonMaxU64::new(u64::MAX - 1).unwrap().into();
    assert_eq!(b.get(), (u64::MAX - 1) as i128);
    let c: NonMaxIsize = NonMaxI16::new(-300).unwrap().into();
    assert_eq!(c.get(), -300);
    let d: NonMaxU128 = u64::MAX.into();
    assert_eq!(d.get(), u64::MAX as u128);
    let e: NonMaxI64 = u32::MAX.into();
    assert_eq!(e.get(), u32::MAX as i64);
    let f: NonMaxUsize = NonMaxU16::new(7).unwrap().into();
    assert_eq!(f.get(), 7);
}

#[test]
fn order_and_equality_agree_with_values() {
    let a = NonMaxI8::new(-100).unwrap();
    let b = NonMaxI8::new(5).unwrap();
    assert!(a < b);
    assert_eq!(a.partial_cmp(&b), Some(Ordering::Less));
    assert_eq!(b.compare(&a), Ordering::Greater);
    assert_eq!(a.compare(&NonMaxI8::new(-100).unwrap()), Ordering::Equal);
    assert!(a == NonMaxI8::new(-100).unwrap());
    assert!(a != b);
    let mut set = HashSet::new();
    assert!(set.insert(NonValueU8::<3>::new(9).unwrap()));
    assert!(!set.insert(NonValueU8::<3>::new(9).unwrap()));
}

#[test]
fn error_messages() {
    let e = NonValueU8::<7>::try_from(7).unwrap_err();
    assert_eq!(e.to_string(), "out of range integral type conversion attempted");
    let f: TryFromFloatError = NonNanF32::try_from_bits(f32::NAN.to_bits()).unwrap_err();
    assert_eq!(f.to_string(), "float value is forbidden by this niche type");
    let g: ParseFloatError = NonNanF32::from_parsed_bits(None).unwrap_err();
    assert_eq!(g.to_string(), "unable to parse float");
}

#[test]
fn float_conversions_on_patterns() {
    assert_eq!(f32::from_bits(NonNanF32::try_from_bits(1.5f32.to_bits()).unwrap().to_bits()), 1.5);
    assert!(NonNanF32::from_parsed_bits(Some(f32::NAN.to_bits())).is_err());
    assert_eq!(
        f64::from_bits(NonNanF64::from_parsed_bits(Some(2.5f64.to_bits())).unwrap().to_bits()),
        2.5
    );
    assert!(NonValueF32::<7>::try_from_bits(7).is_err());
    assert_eq!(NonValueF32::<7>::from_parsed_bits(Some(8)).unwrap().to_bits(), 8);
    assert_eq!(FiniteF32::from_bits_unchecked(0x3f80_0000).to_bits(), 0x3f80_0000);
}

#[test]
fn anchors_lie_in_the_rejected_class() {
    assert!(is_nan32(NONNAN_F32_ANCHOR));
    assert!(is_infinite32(NONINF_F32_ANCHOR));
    assert!(is_zero32(NONZERO_F32_ANCHOR));
    assert!(!is_finite32(FINITE_F32_ANCHOR));
    assert!(is_subnormal32(NONSUBNORMAL_F32_ANCHOR));
    assert!(is_nan64(NONNAN_F64_ANCHOR));
    assert!(f32::from_bits(NONNAN_F32_ANCHOR).is_nan());
    assert!(NonNanF32::from_bits(NONNAN_F32_ANCHOR).is_none());
    assert!(NonSubnormalF32::from_bits(NONSUBNORMAL_F32_ANCHOR).is_none());
}

#[test]
fn classification_matches_the_primitive() {
    let samples: [f32; 12] = [
        0.0, -0.0, 1.0, -1.5, f32::MIN_POSITIVE, f32::from_bits(1), f32::from_bits(0x8000_0001),
        f32::INFINITY, f32::NEG_INFINITY, f32::NAN, f32::from_bits(0xffff_ffff), f32::MAX,
    ];
    for v in samples {
        let b = v.to_bits();
        assert_eq!(is_nan32(b), v.is_nan());
        assert_eq!(is_infinite32(b), v.is_infinite());
        assert_eq!(is_finite32(b), v.is_finite());
        assert_eq!(is_zero32(b), v == 0.0);
        assert_eq!(is_subnormal32(b), v.is_subnormal());
        // Finite rejects exactly what NonNan or NonInf rejects.
        assert_eq!(FiniteF32::from_bits(b).is_none(), NonNanF32::from_bits(b).is_none() || NonInfF32::from_bits(b).is_none());
        for w in samples {
            let c = w.to_bits();
            assert_eq!(values_equal32(b, c), v == w);
            if !v.is_nan() && !w.is_nan() {
                assert_eq!(order_key_of32(b) < order_key_of32(c), v < w);
            }
        }
    }
}

#[test]
fn equal_values_hash_alike() {
    assert_eq!(hash_bits_of32((-0.0f32).to_bits()), hash_bits_of32(0.0f32.to_bits()));
    assert_eq!(hash_bits_of32(1.5f32.to_bits()), 1.5f32.to_bits());
    let pos = NonNanF32::from_bits(0.0f32.to_bits()).unwrap();
    let neg = NonNanF32::from_bits((-0.0f32).to_bits()).unwrap();
    assert_eq!(pos.hash_bits(), neg.hash_bits());
    assert_eq!(pos.order_key(), neg.order_key());
}

#[test]
fn partial_order_of_nan_holding_types() {
    let nan = NonInfF32::from_bits(f32::NAN.to_bits()).unwrap();
    let one = NonInfF32::from_bits(1.0f32.to_bits()).unwrap();
    assert_eq!(nan.partial_cmp(&one), None);
    assert!(nan != nan);
    assert!(one == one);
    let a = NonValueF32::<7>::from_bits(f32::NAN.to_bits()).unwrap();
    assert!(a != a);
    let z = NonZeroF32::from_bits((-1.0f32).to_bits()).unwrap();
    assert!(z < one_z());
}

fn one_z() -> NonZeroF32 {
    NonZeroF32::from_bits(1.0f32.to_bits()).unwrap()
}

#[test]
fn every_error_value_is_the_same() {
    let a: TryFromIntError = NonValueU8::<9>::try_from(9).unwrap_err();
    assert_eq!(a, NonMaxU8::try_from(255).unwrap_err());
}
