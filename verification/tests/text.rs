use hypatia::text::{append_decimal, to_decimal};

#[test]
fn decimal_digits() {
    assert_eq!(to_decimal(0), "0");
    assert_eq!(to_decimal(7), "7");
    assert_eq!(to_decimal(10), "10");
    assert_eq!(to_decimal(65535), "65535");
    assert_eq!(to_decimal(u64::MAX), u64::MAX.to_string());
    let mut s = "texture_".to_owned();
    append_decimal(&mut s, 42);
    assert_eq!(s, "texture_42");
}
