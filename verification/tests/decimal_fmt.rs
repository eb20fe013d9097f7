//! Decimal rendering used by the per-page seed.

use lending_client::decimal::push_decimal;

fn rendered(n: u64) -> Vec<u8> {
    let mut buf: Vec<u8> = Vec::new();
    push_decimal(&mut buf, n);
    buf
}

#[test]
fn renders_single_digits() {
    assert_eq!(rendered(0), b"0".to_vec());
    assert_eq!(rendered(9), b"9".to_vec());
}

#[test]
fn renders_multi_digit_numbers() {
    assert_eq!(rendered(10), b"10".to_vec());
    assert_eq!(rendered(1234), b"1234".to_vec());
    assert_eq!(rendered(1000000), b"1000000".to_vec());
    assert_eq!(rendered(u64::MAX), b"18446744073709551615".to_vec());
}

#[test]
fn appends_after_existing_bytes() {
    let mut buf: Vec<u8> = b"UsersPage_".to_vec();
    push_decimal(&mut buf, 42);
    assert_eq!(buf, b"UsersPage_42".to_vec());
}
