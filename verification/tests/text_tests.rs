use bitcoin_da::hexid::{all_hex_exec, decode_hex_exec, is_hex_digit_exec};
use bitcoin_da::text::{str_contains, u64_to_string};

#[test]
fn decimal_rendering_is_exact() {
    assert_eq!(u64_to_string(0), "0");
    assert_eq!(u64_to_string(7), "7");
    assert_eq!(u64_to_string(10), "10");
    assert_eq!(u64_to_string(2_097_153), "2097153");
    assert_eq!(u64_to_string(u64::MAX), "18446744073709551615");
}

#[test]
fn containment_finds_substrings() {
    assert!(str_contains("the request timed out, try again", "timed out"));
    assert!(str_contains("timed out", "timed out"));
    assert!(str_contains("abc", ""));
    assert!(!str_contains("timedout", "timed out"));
    assert!(!str_contains("short", "much longer needle"));
    assert!(str_contains("aaab", "aab"));
}

#[test]
fn hex_digits_are_recognized() {
    assert!(is_hex_digit_exec('0'));
    assert!(is_hex_digit_exec('9'));
    assert!(is_hex_digit_exec('a'));
    assert!(is_hex_digit_exec('f'));
    assert!(is_hex_digit_exec('A'));
    assert!(is_hex_digit_exec('F'));
    assert!(!is_hex_digit_exec('g'));
    assert!(!is_hex_digit_exec('x'));
    assert!(!is_hex_digit_exec(' '));
}

#[test]
fn all_hex_checks_every_character() {
    assert!(all_hex_exec("00ffAA"));
    assert!(all_hex_exec(""));
    assert!(!all_hex_exec("00zz"));
}

#[test]
fn hex_decoding_matches_the_reference_encoder() {
    let bytes = decode_hex_exec("00ff10a2");
    assert_eq!(bytes, vec![0x00, 0xff, 0x10, 0xa2]);
    assert_eq!(bytes, hex::decode("00ff10a2").unwrap());
    assert_eq!(decode_hex_exec(""), Vec::<u8>::new());
    assert_eq!(decode_hex_exec("DEADBEEF"), hex::decode("DEADBEEF").unwrap());
}
