use botline::text::{integer_text, magnitude, unsigned_text};

#[test]
fn decimal_text_of_integers() {
    assert_eq!(integer_text(0), "0");
    assert_eq!(integer_text(7), "7");
    assert_eq!(integer_text(10), "10");
    assert_eq!(integer_text(-1), "-1");
    assert_eq!(integer_text(1234567890), "1234567890");
    assert_eq!(integer_text(i64::MAX), "9223372036854775807");
    assert_eq!(integer_text(i64::MIN), "-9223372036854775808");
}

#[test]
fn decimal_text_of_unsigned() {
    assert_eq!(unsigned_text(0), "0");
    assert_eq!(unsigned_text(909), "909");
    assert_eq!(unsigned_text(u64::MAX), "18446744073709551615");
}

#[test]
fn magnitude_of_integers() {
    assert_eq!(magnitude(0), 0);
    assert_eq!(magnitude(-5), 5);
    assert_eq!(magnitude(5), 5);
    assert_eq!(magnitude(i64::MIN), 9223372036854775808);
}
