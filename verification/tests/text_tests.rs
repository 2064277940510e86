use bench_pg_rs::text::{digit_count, format_padded, push_digits, push_padded, push_signed_padded};

#[test]
fn padded_numbers() {
    assert_eq!(format_padded(7, 5), "00007");
    assert_eq!(format_padded(123456, 5), "123456");
    assert_eq!(format_padded(0, 0), "0");
}

#[test]
fn digits_are_appended() {
    let mut s = String::from("n=");
    push_digits(&mut s, 18446744073709551615);
    assert_eq!(s, "n=18446744073709551615");
    assert_eq!(digit_count(0), 1);
    assert_eq!(digit_count(999), 3);
    assert_eq!(digit_count(u64::MAX), 20);
}

#[test]
fn signed_padding_counts_the_sign() {
    let mut s = String::new();
    push_signed_padded(&mut s, -7, 3);
    assert_eq!(s, "-07");
    let mut t = String::new();
    push_padded(&mut t, 42, 8);
    assert_eq!(t, "00000042");
    assert_eq!(format!("{:03}", -7), s);
}
