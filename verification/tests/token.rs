use cwsite_server::{to_upper_hex, AuthenticationToken, ENTROPY_BYTES};
use std::collections::HashSet;

const ALPHABET: &str = "abcdefghijklmnopqrstuvwxyzABCDEFGHIJKLMNOPQRSTUVWXYZ0123456789[]";

#[test]
fn hex_rendering_is_upper_case_without_padding() {
    assert_eq!(to_upper_hex(0), "0");
    assert_eq!(to_upper_hex(9), "9");
    assert_eq!(to_upper_hex(10), "A");
    assert_eq!(to_upper_hex(15), "F");
    assert_eq!(to_upper_hex(16), "10");
    assert_eq!(to_upper_hex(255), "FF");
    assert_eq!(to_upper_hex(4096), "1000");
    assert_eq!(to_upper_hex(0xDEAD_BEEF), "DEADBEEF");
    assert_eq!(to_upper_hex(u64::MAX), "FFFFFFFFFFFFFFFF");
}

#[test]
fn hex_rendering_agrees_with_the_formatter() {
    for n in (0u64..5000).chain([u64::MAX - 1, 1 << 32, (1 << 63) + 12345]) {
        assert_eq!(to_upper_hex(n), format!("{:X}", n));
    }
}

#[test]
fn alphabet_has_sixty_four_symbols_in_order() {
    for (index, expected) in ALPHABET.chars().enumerate() {
        assert_eq!(AuthenticationToken::choose_char(index as u8), expected);
    }
}

#[test]
fn alphabet_edges() {
    assert_eq!(AuthenticationToken::choose_char(0), 'a');
    assert_eq!(AuthenticationToken::choose_char(25), 'z');
    assert_eq!(AuthenticationToken::choose_char(26), 'A');
    assert_eq!(AuthenticationToken::choose_char(51), 'Z');
    assert_eq!(AuthenticationToken::choose_char(52), '0');
    assert_eq!(AuthenticationToken::choose_char(61), '9');
    assert_eq!(AuthenticationToken::choose_char(62), '[');
    assert_eq!(AuthenticationToken::choose_char(63), ']');
}

#[test]
fn indexes_above_the_alphabet_give_the_last_symbol() {
    assert_eq!(AuthenticationToken::choose_char(64), ']');
    assert_eq!(AuthenticationToken::choose_char(200), ']');
    assert_eq!(AuthenticationToken::choose_char(255), ']');
}

#[test]
fn token_is_the_hex_id_then_two_symbols_per_byte() {
    let credential = AuthenticationToken::from_entropy(0xAB, &vec![0x00, 0xFF, 0x41]);
    assert_eq!(credential.discord_id, 0xAB);
    assert_eq!(credential.token, "ABaa]dbb");
}

#[test]
fn token_without_entropy_is_the_hex_id() {
    let credential = AuthenticationToken::from_entropy(0, &Vec::new());
    assert_eq!(credential.token, "0");
}

#[test]
fn second_symbol_of_a_pair_comes_from_the_high_two_bits() {
    let credential = AuthenticationToken::from_entropy(1, &vec![0b0100_0000, 0b1011_1110]);
    assert_eq!(credential.token, "1ab[c");
}

#[test]
fn fresh_token_has_prefix_and_full_filler() {
    let id = 0x1234_5678_9ABC_u64;
    let credential = AuthenticationToken::new(id).expect("the random source is there");
    assert_eq!(credential.discord_id, id);
    assert!(credential.token.starts_with("123456789ABC"));
    assert_eq!(credential.token.len(), 12 + 2 * ENTROPY_BYTES);
    let filler: Vec<char> = credential.token.chars().skip(12).collect();
    assert_eq!(filler.len(), 112);
    for pair in filler.chunks(2) {
        assert!(ALPHABET.contains(pair[0]));
        assert!("abcd".contains(pair[1]));
    }
}

#[test]
fn fresh_token_is_at_most_128_symbols() {
    let credential = AuthenticationToken::new(u64::MAX).expect("the random source is there");
    assert_eq!(credential.token.len(), 128);
    let credential = AuthenticationToken::new(0).expect("the random source is there");
    assert_eq!(credential.token.len(), 113);
}

#[test]
fn fresh_tokens_of_one_id_use_the_random_source() {
    let first = AuthenticationToken::new(7).expect("the random source is there");
    let second = AuthenticationToken::new(7).expect("the random source is there");
    assert_ne!(first.token, second.token);
    let zeros = AuthenticationToken::from_entropy(7, &vec![0u8; ENTROPY_BYTES]);
    assert_ne!(first.token, zeros.token);
}

#[test]
fn ten_thousand_ids_give_ten_thousand_tokens() {
    let mut seen = HashSet::new();
    for id in 0u64..10_000 {
        let credential = AuthenticationToken::new(id).expect("the random source is there");
        assert!(seen.insert(credential.token));
    }
    assert_eq!(seen.len(), 10_000);
}

#[test]
fn tokens_of_distinct_ids_differ_even_with_equal_entropy() {
    let bytes = vec![0x5Au8; ENTROPY_BYTES];
    let mut seen = HashSet::new();
    for id in [0u64, 1, 0xA, 0xAB, 0xABA, 0xB, 0xBA, u64::MAX] {
        assert!(seen.insert(AuthenticationToken::from_entropy(id, &bytes).token));
    }
}

#[test]
fn clone_keeps_both_fields() {
    let credential = AuthenticationToken::from_entropy(3, &vec![1, 2, 3]);
    let copy = credential.clone();
    assert_eq!(copy.discord_id, credential.discord_id);
    assert_eq!(copy.token, credential.token);
}
