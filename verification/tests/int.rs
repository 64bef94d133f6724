use core::mem::size_of;
use niche_value::{
    NonMaxI16, NonMaxI8, NonMaxU16, NonMaxU32, NonMaxU8, NonMinI64, NonMinI8, NonMinU8,
    NonValueI8, NonValueU8, NonValueUsize,
};

fn check_u8_forbidden<const N: u8>() {
    for value in 0..=u8::MAX {
        match NonValueU8::<N>::new(value) {
            None => assert_eq!(value, N),
            Some(v) => {
                assert_ne!(value, N);
                assert_eq!(v.get(), value);
            }
        }
    }
}

fn check_i8_forbidden<const BITS: u8>(forbidden: i8) {
    for value in i8::MIN..=i8::MAX {
        match NonValueI8::<BITS>::new(value) {
            None => assert_eq!(value, forbidden),
            Some(v) => assert_eq!(v.get(), value),
        }
    }
}

#[test]
fn generic_forbidden_value() {
    // Forbid an arbitrary value in the middle of the range.
    let v = NonValueU8::<7>::new(3).unwrap();
    assert_eq!(v.get(), 3);
    assert!(NonValueU8::<7>::new(7).is_none());
    assert_eq!(NonValueU8::<7>::new(0).unwrap().get(), 0);
    assert_eq!(NonValueU8::<7>::new(255).unwrap().get(), 255);
}

#[test]
fn exhaustive_u8_all_forbidden() {
    // For every forbidden value N, exactly N is rejected and all else round-trips.
    check_u8_forbidden::<0>();
    check_u8_forbidden::<1>();
    check_u8_forbidden::<42>();
    check_u8_forbidden::<128>();
    check_u8_forbidden::<254>();
    check_u8_forbidden::<255>();
}

#[test]
fn exhaustive_i8_all_forbidden() {
    // The forbidden i8 is given by its bit pattern.
    check_i8_forbidden::<0x80>(-128);
    check_i8_forbidden::<0xff>(-1);
    check_i8_forbidden::<0x00>(0);
    check_i8_forbidden::<0x01>(1);
    check_i8_forbidden::<0x7f>(127);
}

#[test]
fn nonmax_nonmin_aliases() {
    assert!(NonMaxU8::new(u8::MAX).is_none());
    assert_eq!(NonMaxU8::new(0).unwrap().get(), 0);
    assert!(NonMinU8::new(u8::MIN).is_none());
    assert_eq!(NonMinU8::new(255).unwrap().get(), 255);

    assert!(NonMaxI8::new(i8::MAX).is_none());
    assert!(NonMinI8::new(i8::MIN).is_none());
    assert_eq!(NonMinI8::new(-127).unwrap().get(), -127);
}

#[test]
fn nonmax_constants_and_default() {
    assert_eq!(NonMaxU8::ZERO().get(), 0);
    assert_eq!(NonMaxU8::ONE().get(), 1);
    assert_eq!(NonMaxU8::MAX().get(), 254);
    assert_eq!(NonMaxU8::default().get(), 0);
    assert_eq!(NonMaxI16::MAX().get(), i16::MAX - 1);
}

#[test]
fn ordering_is_by_value_not_bits() {
    let zero = NonMaxU8::new(0).unwrap();
    let one = NonMaxU8::new(1).unwrap();
    let big = NonMaxU8::new(200).unwrap();
    assert!(zero < one);
    assert!(one < big);
    // NonMax stores !value, which reverses bit order; ensure Ord ignores that.
    assert!(big > one);
}

#[test]
fn bitand_unsigned_matches_primitive() {
    for left in 0..=u8::MAX {
        for right in 0..=u8::MAX {
            let vanilla = left & right;
            if let (Some(l), Some(r)) = (NonMaxU8::new(left), NonMaxU8::new(right)) {
                assert_eq!((l & r).get(), vanilla);
            }
            if let Some(l) = NonMaxU8::new(left) {
                assert_eq!((l & right).get(), vanilla);
                assert_eq!((left & l).get(), left & left); // primitive & niche
            }
        }
    }
}

#[test]
fn bitand_signed_closed() {
    for left in i8::MIN..=i8::MAX {
        for right in i8::MIN..=i8::MAX {
            if let (Some(l), Some(r)) = (NonMaxI8::new(left), NonMaxI8::new(right)) {
                assert_eq!((l & r).get(), left & right);
            }
        }
    }
}

#[test]
fn int_conversions() {
    let v = NonValueU8::<7>::try_from(3).unwrap();
    assert_eq!(u8::from(v), 3);
    NonValueU8::<7>::try_from(7).unwrap_err();

    // widening From
    let small = NonMaxU8::new(200).unwrap();
    let large: NonMaxU32 = small.into();
    assert_eq!(large.get(), 200);
    let from_prim: NonMaxU16 = 200u8.into();
    assert_eq!(from_prim.get(), 200);
}

#[test]
fn parse() {
    let v: NonValueU8<7> = "3".parse().unwrap();
    assert_eq!(v.get(), 3);
    "7".parse::<NonValueU8<7>>().unwrap_err();
    "300".parse::<NonMaxU8>().unwrap_err();
}

#[test]
fn fmt_forwards_to_value() {
    let v = NonValueU8::<7>::new(200).unwrap();
    assert_eq!(v.to_string(), "200");
    assert_eq!(v.to_debug_string(), "200");
    assert_eq!(v.to_binary_string(), format!("{:b}", 200u8));
    assert_eq!(v.to_lower_hex_string(), format!("{:x}", 200u8));
}

#[test]
fn int_sizes_niche_optimized() {
    assert_eq!(size_of::<Option<NonValueU8<7>>>(), size_of::<u8>());
    assert_eq!(size_of::<Option<NonMaxU32>>(), size_of::<u32>());
    assert_eq!(size_of::<Option<NonMinI64>>(), size_of::<i64>());
    assert_eq!(size_of::<Option<NonValueUsize<3>>>(), size_of::<usize>());
}
