use std::collections::HashSet;

use tm::random::encode_id;
use tm::random::generate_id;

const SYMBOLS: &str = "0123456789ABCDEFGHIJKLMNOPQRSTUVWXYZabcdefghijklmnopqrstuvwxyz";

#[test]
fn encode_id_writes_the_lowest_digit_first() {
    assert_eq!(encode_id(0), "000000");
    assert_eq!(encode_id(1), "100000");
    assert_eq!(encode_id(9), "900000");
    assert_eq!(encode_id(10), "A00000");
    assert_eq!(encode_id(35), "Z00000");
    assert_eq!(encode_id(36), "a00000");
    assert_eq!(encode_id(61), "z00000");
    assert_eq!(encode_id(62), "010000");
    assert_eq!(encode_id(12345678901234567890), "wo5ZwH");
    assert_eq!(encode_id(u64::MAX), "FYHA61");
}

#[test]
fn encode_id_keeps_six_digits_only() {
    assert_eq!(encode_id(56_800_235_584), "000000");
    assert_eq!(encode_id(56_800_235_589), "500000");
}

#[test]
fn encode_id_tells_small_numbers_apart() {
    let mut seen = HashSet::new();
    for number in 0..10_000u64 {
        assert!(seen.insert(encode_id(number * 7919)));
    }
}

#[test]
fn generate_id_has_six_symbols() {
    for _ in 0..100 {
        let id = generate_id();
        assert_eq!(id.chars().count(), 6);
        assert!(id.chars().all(|symbol| SYMBOLS.contains(symbol)));
    }
}

#[test]
fn generated_ids_do_not_repeat() {
    let mut seen = HashSet::new();
    for _ in 0..10_000 {
        assert!(seen.insert(generate_id()));
    }
    assert_eq!(seen.len(), 10_000);
}
