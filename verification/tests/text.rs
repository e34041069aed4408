use akispace::text::{
    append_bool, append_decimal, append_decimal_padded, append_signed_decimal, contains, decimal,
    ends_with, starts_with, utf8_bytes,
};

#[test]
fn decimals() {
    assert_eq!(decimal(0), "0");
    assert_eq!(decimal(u64::MAX), "18446744073709551615");
    let mut s = String::from("x=");
    append_decimal(&mut s, 42);
    assert_eq!(s, "x=42");
    let mut p = String::new();
    append_decimal_padded(&mut p, 7, 3);
    append_decimal_padded(&mut p, 1234, 2);
    assert_eq!(p, "0071234");
    let mut n = String::new();
    append_signed_decimal(&mut n, -15);
    append_signed_decimal(&mut n, i64::MIN);
    assert_eq!(n, "-15-9223372036854775808");
    let mut b = String::new();
    append_bool(&mut b, true);
    append_bool(&mut b, false);
    assert_eq!(b, "truefalse");
}

#[test]
fn searching() {
    assert!(starts_with("nonce_1.bin", "nonce_"));
    assert!(!starts_with("no", "nonce_"));
    assert!(ends_with("a.bin", ".bin"));
    assert!(!ends_with("a.bi", ".bin"));
    assert!(contains("abc rdpwrap.dll", "rdpwrap"));
    assert!(contains("abc", ""));
    assert!(!contains("ab", "abc"));
}

#[test]
fn utf8() {
    assert_eq!(utf8_bytes("é"), vec![0xc3, 0xa9]);
}
