use cairo_core::bigint::BigInt;
use cairo_core::felt::Felt252;

#[test]
fn bigint_decimal_text() {
    assert_eq!(BigInt::from_i128(0).to_string(), "0");
    assert_eq!(BigInt::from_i128(205).to_string(), "205");
    assert_eq!(BigInt::from_i128(-5).to_string(), "-5");
    assert_eq!(BigInt::from_u128(1u128 << 64).to_string(), "18446744073709551616");
    assert_eq!(
        BigInt::from_i128(i128::MIN).to_string(),
        "-170141183460469231731687303715884105728"
    );
    assert_eq!(BigInt::from_usize(10000).to_string(), "10000");
    assert_eq!(BigInt::from_i16(-32768).to_string(), "-32768");
}

#[test]
fn bigint_from_bytes_be() {
    assert_eq!(BigInt::from_bytes_be(b"A").to_string(), "65");
    assert_eq!(BigInt::from_bytes_be(b"AB").to_string(), "16706");
    assert_eq!(
        BigInt::from_bytes_be(b"Hello world!").to_string(),
        "22405534230753963835153736737"
    );
    assert_eq!(BigInt::from_bytes_be(b"").to_string(), "0");
    assert_eq!(BigInt::from_bytes_be(&[0, 0, 1, 0]), BigInt::from_i128(256));
}

#[test]
fn bigint_equal_numbers_are_equal_values() {
    assert_eq!(BigInt::from_u32_digits(false, vec![3, 0, 0]), BigInt::from_i128(3));
    assert_eq!(BigInt::from_u32_digits(true, vec![0, 0]), BigInt::from_i128(0));
    assert_eq!(BigInt::from_u32_digits(true, vec![7]), BigInt::from_i128(-7));
    assert!(BigInt::from_i128(12).equals(&BigInt::from_u128(12)));
    assert!(!BigInt::from_i128(12).equals(&BigInt::from_i128(-12)));
    assert!(!BigInt::from_i128(1).equals(&BigInt::from_u128(1u128 << 32)));
}

#[test]
fn bigint_digits_and_small_values() {
    assert_eq!(BigInt::from_u128((7u128 << 32) + 5).to_u32_digits(), (false, vec![5, 7]));
    assert_eq!(BigInt::from_i128(-1).to_u32_digits(), (true, vec![1]));
    assert_eq!(BigInt::from_i128(i128::MAX).to_u32_digits().1.len(), 4);
    assert_eq!(BigInt::from_u32_digits(false, vec![0, 0, 0, 0, 1]).to_u32_digits().1.len(), 5);
    assert!(BigInt::from_i128(-3).is_negative());
    assert!(!BigInt::from_i128(0).is_negative());
}

#[test]
fn felt_decimal_text() {
    assert_eq!(Felt252::from_u64(5).to_string(), "5");
    assert_eq!(Felt252::from_usize(0).to_string(), "0");
    assert_eq!(
        Felt252::two_pow_251().to_string(),
        "3618502788666131106986593281521497120414687020801267626233049500247285301248"
    );
}

#[test]
fn felt_negation_in_the_field() {
    assert_eq!(
        Felt252::from_u64(1).neg().to_string(),
        "3618502788666131213697322783095070105623107215331596699973092056135872020480"
    );
    assert_eq!(Felt252::zero().neg(), Felt252::zero());
    assert_eq!(
        Felt252::two_pow_251().neg().to_string(),
        "106710729501573572985208420194530329073740042555888586719233"
    );
    assert_eq!(Felt252::from_u64(17).neg().neg(), Felt252::from_u64(17));
}

#[test]
fn felt_from_bytes_be() {
    assert_eq!(
        Felt252::from_bytes_be(b"StorageRead").to_string(),
        "100890693370601760042082660"
    );
    assert_eq!(Felt252::from_bytes_be(&[1, 0]), Felt252::from_u64(256));
    // 2^256 - 1 is reduced modulo the prime.
    assert_eq!(
        Felt252::from_bytes_be(&[0xff; 32]).to_string(),
        "3618502788666127798953978732740734578953660990361066340291730267701097005024"
    );
}

#[test]
fn felt_digits_and_bounds() {
    assert_eq!(Felt252::from_le_digits(7, 0, 0, 0), Some(Felt252::from_u64(7)));
    // The prime itself is no element of the field.
    assert_eq!(Felt252::from_le_digits(1, 0, 0, 0x0800_0000_0000_0011), None);
    assert!(Felt252::from_le_digits(0, 0, 0, 0x0800_0000_0000_0011).is_some());
    assert_eq!(Felt252::from_le_digits(u64::MAX, u64::MAX, u64::MAX, u64::MAX), None);
    assert_eq!(Felt252::two_pow_251().to_le_digits(), (0, 0, 0, 0x0800_0000_0000_0000));
}

#[test]
fn felt_to_usize_and_comparison() {
    assert_eq!(Felt252::from_u64(7).to_usize(), Some(7));
    assert_eq!(Felt252::from_le_digits(0, 1, 0, 0).unwrap().to_usize(), None);
    assert!(Felt252::from_u64(0).is_zero());
    assert!(!Felt252::from_u64(1).is_zero());
    assert!(Felt252::from_u64(3).less_than(&Felt252::from_u64(4)));
    assert!(!Felt252::from_u64(4).less_than(&Felt252::from_u64(4)));
    assert!(Felt252::from_le_digits(u64::MAX, 0, 0, 0)
        .unwrap()
        .less_than(&Felt252::from_le_digits(0, 1, 0, 0).unwrap()));
    assert!(Felt252::storage_base_bound().less_than(&Felt252::two_pow_251()));
    assert_eq!(Felt252::from_u64(9).to_bigint(), cairo_core::bigint::BigInt::from_i128(9));
}
