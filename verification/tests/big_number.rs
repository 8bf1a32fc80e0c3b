use bento_cauldron::common::big_number::U256;
use bento_cauldron::common::errors::ErrorCode;

#[test]
fn u256_from_and_back() {
    assert_eq!(U256::from(7u64).to_u64(), Some(7));
    assert_eq!(U256::from(u128::MAX).to_u128(), Some(u128::MAX));
    assert_eq!(U256::from(u128::MAX).to_u64(), None);
    assert_eq!(U256::from(u128::MAX).try_to_u64(), Err(ErrorCode::BnConversionError));
    assert_eq!(U256([0, 0, 1, 0]).try_to_u128(), Err(ErrorCode::BnConversionError));
    assert_eq!(U256::from(1u128 << 64), U256([0, 1, 0, 0]));
}

#[test]
fn u256_checked_mul_exact_and_overflow() {
    let a = U256::from(u128::MAX);
    let sq = a.checked_mul(&a).unwrap();
    // (2^128 - 1)^2 = 2^256 - 2^129 + 1
    assert_eq!(sq, U256([1, 0, u64::MAX - 1, u64::MAX]));
    let b = U256([0, 0, 1, 0]);
    assert_eq!(b.checked_mul(&b), None);
    assert_eq!(
        U256::from(1_000_000_007u64).checked_mul(&U256::from(998_244_353u64)).unwrap().to_u128(),
        Some(1_000_000_007u128 * 998_244_353u128)
    );
}

#[test]
fn u256_checked_div_matches_native() {
    let n = U256::from(0xDEAD_BEEF_0123_4567_89AB_CDEF_0011_2233u128);
    let d = U256::from(1_000_000_000_000_000_000u64);
    assert_eq!(
        n.checked_div(&d).unwrap().to_u128(),
        Some(0xDEAD_BEEF_0123_4567_89AB_CDEF_0011_2233u128 / 1_000_000_000_000_000_000u128)
    );
    assert_eq!(n.checked_div(&U256::zero()), None);
    assert_eq!(d.checked_div(&n).unwrap(), U256::zero());
    assert_eq!(n.checked_div(&n).unwrap(), U256::one());
    // (2^256 - 1) / 3 = 0x5555...5555
    let max = U256([u64::MAX; 4]);
    assert_eq!(
        max.checked_div(&U256::from(3u64)).unwrap(),
        U256([0x5555_5555_5555_5555; 4])
    );
    // a wide quotient: (a * b) / b == a
    let a = U256::from(0xFFFF_FFFF_FFFF_FFFF_FFFF_FFFFu128);
    let b = U256::from(0x1_0000_0000_0000_0001u128);
    let p = a.checked_mul(&b).unwrap();
    assert_eq!(p.checked_div(&b).unwrap(), a);
    assert_eq!(p.checked_div(&a).unwrap(), b);
}

#[test]
fn u256_add_sub_compare() {
    let max = U256([u64::MAX; 4]);
    assert_eq!(max.checked_add(&U256::one()), None);
    assert_eq!(U256::zero().checked_sub(&U256::one()), None);
    assert_eq!(U256([u64::MAX, 0, 0, 0]).checked_add(&U256::one()), Some(U256([0, 1, 0, 0])));
    assert_eq!(U256([0, 1, 0, 0]).checked_sub(&U256::one()), Some(U256([u64::MAX, 0, 0, 0])));
    assert!(U256([0, 1, 0, 0]).gt(&U256([u64::MAX, 0, 0, 0])));
    assert!(U256::from(5u64).ge(&U256::from(5u64)));
    assert!(U256::from(4u64).lt(&U256::from(5u64)));
    assert!(U256::from(5u64).le(&U256::from(5u64)));
    assert!(U256::zero().is_zero());
}

#[test]
fn u256_le_bytes_round_trip() {
    let mut bytes = [0u8; 32];
    for i in 0..32 {
        bytes[i] = (i as u8) * 7 + 1;
    }
    let x = U256::from_le_bytes(bytes);
    assert_eq!(x.0[0], u64::from_le_bytes([1, 8, 15, 22, 29, 36, 43, 50]));
    assert_eq!(x.to_le_bytes(), bytes);
    let one = U256::one().to_le_bytes();
    assert_eq!(one[0], 1);
    assert!(one[1..].iter().all(|b| *b == 0));
}

#[test]
fn u256_from_negative_is_refused() {
    assert_eq!(U256::try_from_i128(-1), Err(ErrorCode::BnConversionError));
    assert_eq!(U256::try_from_i128(12_500_500_000).unwrap().to_u64(), Some(12_500_500_000));
}
