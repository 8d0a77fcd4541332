use ethers::types::U256;
use skale_gasless::difficulty::{evaluate, evaluate_digest};
use skale_gasless::word::{is_zero_word, max_word_bytes, word_of, xor_words};

fn word_with_last(last: u8) -> [u8; 32] {
    let mut word = [0u8; 32];
    word[31] = last;
    word
}

fn half_of_max() -> [u8; 32] {
    let mut word = [0xffu8; 32];
    word[0] = 0x7f;
    word
}

const ZERO_WORD_DIGEST: [u8; 32] = [
    0x29, 0x0d, 0xec, 0xd9, 0x54, 0x8b, 0x62, 0xa8, 0xd6, 0x03, 0x45, 0xa9, 0x88, 0x38, 0x6f, 0xc8,
    0x4b, 0xa6, 0xbc, 0x95, 0x48, 0x40, 0x08, 0xf6, 0x36, 0x2f, 0x93, 0x16, 0x0e, 0xf3, 0xe5, 0x63,
];

#[test]
fn max_word_is_all_ones() {
    assert_eq!(max_word_bytes(), [0xffu8; 32]);
    assert_eq!(U256::from_big_endian(&max_word_bytes()), U256::MAX);
}

#[test]
fn word_of_is_big_endian() {
    let word = word_of(0x0102_0304_0506_0708u64);
    let mut expected = [0u8; 32];
    expected[24..].copy_from_slice(&[1, 2, 3, 4, 5, 6, 7, 8]);
    assert_eq!(word, expected);
    assert_eq!(word_of(0u64), [0u8; 32]);
    assert_eq!(word_of(u64::MAX)[23], 0);
    assert_eq!(&word_of(u64::MAX)[24..], &[0xffu8; 8]);
}

#[test]
fn xor_words_is_bytewise() {
    let a = word_with_last(0b1100);
    let mut b = word_with_last(0b1010);
    b[0] = 0xf0;
    let out = xor_words(&a, &b);
    assert_eq!(out[31], 0b0110);
    assert_eq!(out[0], 0xf0);
    assert_eq!(xor_words(&b, &b), [0u8; 32]);
}

#[test]
fn zero_word_is_recognised() {
    assert!(is_zero_word(&[0u8; 32]));
    assert!(!is_zero_word(&word_with_last(1)));
    let mut high = [0u8; 32];
    high[0] = 1;
    assert!(!is_zero_word(&high));
}

#[test]
fn zero_result_hash_fails_without_fault() {
    let session = word_with_last(7);
    let result = evaluate_digest(&session, &session, &[0u8; 32]);
    assert_eq!(result.result_hash, [0u8; 32]);
    assert!(result.external_value.is_none());
    assert!(!result.passes);
    let again = evaluate_digest(&session, &session, &max_word_bytes());
    assert!(!again.passes);
}

#[test]
fn trivial_target_accepts_any_nonzero_result() {
    let session = word_with_last(1);
    let target = word_of(1);
    let digests = [[0u8; 32], word_with_last(2), [0xffu8; 32], ZERO_WORD_DIGEST];
    for digest in digests.iter() {
        let result = evaluate_digest(&session, digest, &target);
        assert!(result.passes);
        assert!(result.external_value.is_some());
    }
    let degenerate = evaluate_digest(&session, &session, &target);
    assert!(!degenerate.passes);
}

#[test]
fn extreme_target_accepts_only_result_one() {
    let session = word_with_last(1);
    let target = max_word_bytes();
    let one = evaluate_digest(&session, &[0u8; 32], &target);
    assert_eq!(one.result_hash, word_with_last(1));
    assert_eq!(one.external_value, Some([0xffu8; 32]));
    assert!(one.passes);
    let two = evaluate_digest(&session, &word_with_last(3), &target);
    assert_eq!(two.result_hash, word_with_last(2));
    assert_eq!(two.external_value, Some(half_of_max()));
    assert!(!two.passes);
}

#[test]
fn external_value_is_truncating_division() {
    let session = [0u8; 32];
    let three = evaluate_digest(&session, &word_with_last(3), &word_of(0));
    assert_eq!(three.external_value, Some([0x55u8; 32]));
    let mut divisor = [0u8; 32];
    divisor[0] = 0x80;
    let high = evaluate_digest(&session, &divisor, &word_of(1));
    assert_eq!(high.external_value, Some(word_with_last(1)));
    assert!(high.passes);
    let below = evaluate_digest(&session, &divisor, &word_of(2));
    assert!(!below.passes);
    let all = evaluate_digest(&session, &[0xffu8; 32], &word_of(1));
    assert_eq!(all.external_value, Some(word_with_last(1)));
    assert!(all.passes);
}

#[test]
fn target_comparison_is_inclusive() {
    let session = [0u8; 32];
    let mut divisor = [0u8; 32];
    divisor[7] = 1;
    // 2^192 divides 2^256 - 1 to 2^64 - 1.
    let at = evaluate_digest(&session, &divisor, &word_of(u64::MAX));
    assert_eq!(at.external_value, Some(word_of(u64::MAX)));
    assert!(at.passes);
    divisor[7] = 2;
    let under = evaluate_digest(&session, &divisor, &word_of(u64::MAX));
    assert_eq!(under.external_value, Some(word_of(u64::MAX / 2)));
    assert!(!under.passes);
}

#[test]
fn evaluate_hashes_the_candidate() {
    let candidate = [0u8; 32];
    let result = evaluate(&[0u8; 32], &candidate, 1);
    assert_eq!(result.result_hash, ZERO_WORD_DIGEST);
    assert_ne!(result.result_hash, candidate);
    assert_eq!(result.result_hash, ethers::utils::keccak256(candidate));
    let quotient = U256::MAX / U256::from_big_endian(&ZERO_WORD_DIGEST);
    assert_eq!(quotient, U256::from(6u64));
    assert_eq!(result.external_value, Some(word_of(6)));
    assert!(result.passes);
    assert!(evaluate(&[0u8; 32], &candidate, 6).passes);
    assert!(!evaluate(&[0u8; 32], &candidate, 7).passes);
}

#[test]
fn evaluate_is_deterministic() {
    let session = word_with_last(9);
    let candidate = [0xabu8; 32];
    let first = evaluate(&session, &candidate, 1000);
    let second = evaluate(&session, &candidate, 1000);
    assert_eq!(first.result_hash, second.result_hash);
    assert_eq!(first.external_value, second.external_value);
    assert_eq!(first.passes, second.passes);
}

#[test]
fn evaluate_agrees_with_wide_arithmetic() {
    let session = ZERO_WORD_DIGEST;
    for seed in 0u8..32 {
        let candidate = [seed; 32];
        let digest = U256::from_big_endian(&ethers::utils::keccak256(candidate));
        let result_hash = U256::from_big_endian(&session) ^ digest;
        if result_hash.is_zero() {
            assert_eq!(seed, 0);
            let result = evaluate(&session, &candidate, 0);
            assert!(result.external_value.is_none());
            assert!(!result.passes);
            continue;
        }
        let external = U256::MAX / result_hash;
        for target in [0u64, 1, 2, 3, 5, 100, u64::MAX] {
            let result = evaluate(&session, &candidate, target);
            assert_eq!(U256::from_big_endian(&result.result_hash), result_hash);
            let got = result.external_value.map(|word| U256::from_big_endian(&word));
            assert_eq!(got, Some(external));
            assert_eq!(result.passes, external >= U256::from(target));
        }
    }
}
