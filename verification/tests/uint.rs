use hyperdrive_math::uint::{U256, U512};

fn word(text: &str) -> U256 {
    U256 { limbs: ethers::types::U256::from_dec_str(text).unwrap().0 }
}

#[test]
fn zero_is_zero() {
    assert_eq!(U256::zero().limbs, [0, 0, 0, 0]);
    assert!(U256::zero().is_zero());
}

#[test]
fn from_u64_fills_the_first_word() {
    assert_eq!(U256::from_u64(7).limbs, [7, 0, 0, 0]);
    assert_eq!(U256::from_u64(u64::MAX).limbs, [u64::MAX, 0, 0, 0]);
}

#[test]
fn from_u128_splits_into_two_words() {
    assert_eq!(U256::from_u128(0).limbs, [0, 0, 0, 0]);
    assert_eq!(U256::from_u128(1 << 64).limbs, [0, 1, 0, 0]);
    assert_eq!(U256::from_u128((5 << 64) + 9).limbs, [9, 5, 0, 0]);
    assert_eq!(U256::from_u128(u128::MAX).limbs, [u64::MAX, u64::MAX, 0, 0]);
}

#[test]
fn from_u128_agrees_with_the_decimal_number() {
    assert_eq!(U256::from_u128(1_000_000_000_000_000_000_000), word("1000000000000000000000"));
    assert_eq!(
        U256::from_u128(u128::MAX),
        word("340282366920938463463374607431768211455")
    );
}

#[test]
fn is_zero_looks_at_every_word() {
    assert!(!U256 { limbs: [1, 0, 0, 0] }.is_zero());
    assert!(!U256 { limbs: [0, 1, 0, 0] }.is_zero());
    assert!(!U256 { limbs: [0, 0, 1, 0] }.is_zero());
    assert!(!U256 { limbs: [0, 0, 0, 1] }.is_zero());
}

#[test]
fn lt_orders_by_the_most_significant_word_first() {
    let small = U256 { limbs: [u64::MAX, u64::MAX, u64::MAX, 0] };
    let large = U256 { limbs: [0, 0, 0, 1] };
    assert!(small.lt(&large));
    assert!(!large.lt(&small));
    assert!(U256 { limbs: [9, 1, 0, 0] }.lt(&U256 { limbs: [0, 2, 0, 0] }));
    assert!(U256 { limbs: [9, 0, 1, 0] }.lt(&U256 { limbs: [0, 0, 2, 0] }));
    assert!(U256 { limbs: [1, 5, 5, 5] }.lt(&U256 { limbs: [2, 5, 5, 5] }));
    assert!(!U256 { limbs: [2, 5, 5, 5] }.lt(&U256 { limbs: [1, 5, 5, 5] }));
}

#[test]
fn lt_is_strict() {
    let value = U256 { limbs: [3, 4, 5, 6] };
    assert!(!value.lt(&value));
    assert!(!U256::zero().lt(&U256::zero()));
}

#[test]
fn lt_agrees_with_the_reference_integers() {
    let samples = [
        "0",
        "1",
        "18446744073709551615",
        "18446744073709551616",
        "340282366920938463463374607431768211456",
        "6277101735386680763835789423207666416102355444464034512896",
        "115792089237316195423570985008687907853269984665640564039457584007913129639935",
    ];
    for left in samples {
        for right in samples {
            let expected = ethers::types::U256::from_dec_str(left).unwrap()
                < ethers::types::U256::from_dec_str(right).unwrap();
            assert_eq!(word(left).lt(&word(right)), expected);
        }
    }
}

#[test]
fn widening_keeps_the_low_words_and_clears_the_high_ones() {
    let value = U256 { limbs: [1, 2, 3, 4] };
    assert_eq!(U512::from_u256(value).limbs, [1, 2, 3, 4, 0, 0, 0, 0]);
}

#[test]
fn narrowing_gives_back_what_was_widened() {
    let value = U256 { limbs: [u64::MAX, 2, 3, u64::MAX] };
    assert_eq!(U512::from_u256(value).to_u256(), Some(value));
}

#[test]
fn narrowing_fails_when_a_high_word_is_set() {
    assert_eq!(U512 { limbs: [0, 0, 0, 0, 1, 0, 0, 0] }.to_u256(), None);
    assert_eq!(U512 { limbs: [0, 0, 0, 0, 0, 1, 0, 0] }.to_u256(), None);
    assert_eq!(U512 { limbs: [0, 0, 0, 0, 0, 0, 1, 0] }.to_u256(), None);
    assert_eq!(U512 { limbs: [7, 7, 7, 7, 0, 0, 0, 1] }.to_u256(), None);
}
