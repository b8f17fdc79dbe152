use kernel_core::utils::bytes_eq;
use kernel_core::utils::parse_dec_u32;
use kernel_core::utils::parse_hex_u32;
use kernel_core::utils::strip_0x;
use kernel_core::utils::tokenize;
use kernel_core::utils::trim;

#[test]
fn tokenize_splits_on_runs_of_whitespace() {
    let toks = tokenize(&b"  echo   hi there ".to_vec());
    assert_eq!(toks, vec![b"echo".to_vec(), b"hi".to_vec(), b"there".to_vec()]);
}

#[test]
fn tokenize_of_blank_input_is_empty() {
    assert!(tokenize(&b"".to_vec()).is_empty());
    assert!(tokenize(&b"   \t ".to_vec()).is_empty());
}

#[test]
fn trim_removes_both_ends_only() {
    assert_eq!(trim(&b"  a  b  ".to_vec()), b"a  b".to_vec());
    assert_eq!(trim(&b"".to_vec()), b"".to_vec());
    assert_eq!(trim(&b" \t ".to_vec()), b"".to_vec());
}

#[test]
fn parse_hex_reads_both_digit_cases() {
    assert_eq!(parse_hex_u32(&b"1000".to_vec()), Some(0x1000));
    assert_eq!(parse_hex_u32(&b"deadBEEF".to_vec()), Some(0xDEAD_BEEF));
    assert_eq!(parse_hex_u32(&b"0".to_vec()), Some(0));
    assert_eq!(parse_hex_u32(&b"ffffffff".to_vec()), Some(0xFFFF_FFFF));
}

#[test]
fn parse_hex_rejects_empty_invalid_and_overflowing_input() {
    assert_eq!(parse_hex_u32(&b"".to_vec()), None);
    assert_eq!(parse_hex_u32(&b"12g4".to_vec()), None);
    assert_eq!(parse_hex_u32(&b"100000000".to_vec()), None);
}

#[test]
fn parse_dec_reads_numbers_up_to_the_32_bit_limit() {
    assert_eq!(parse_dec_u32(&b"80".to_vec()), Some(80));
    assert_eq!(parse_dec_u32(&b"4294967295".to_vec()), Some(4294967295));
    assert_eq!(parse_dec_u32(&b"4294967296".to_vec()), None);
    assert_eq!(parse_dec_u32(&b"12a".to_vec()), None);
    assert_eq!(parse_dec_u32(&b"".to_vec()), None);
}

#[test]
fn strip_0x_removes_every_leading_prefix_pair() {
    assert_eq!(strip_0x(&b"0x1000".to_vec()), b"1000".to_vec());
    assert_eq!(strip_0x(&b"0x0x12".to_vec()), b"12".to_vec());
    assert_eq!(strip_0x(&b"1000".to_vec()), b"1000".to_vec());
    assert_eq!(strip_0x(&b"0x".to_vec()), b"".to_vec());
}

#[test]
fn bytes_eq_compares_exactly() {
    assert!(bytes_eq(&b"help".to_vec(), b"help"));
    assert!(!bytes_eq(&b"help".to_vec(), b"hel"));
    assert!(!bytes_eq(&b"help".to_vec(), b"helq"));
}
