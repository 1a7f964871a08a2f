use victorops::text::{encode_path_segment, i32_to_decimal, str_eq, u16_to_decimal};

#[test]
fn decimals() {
    assert_eq!(i32_to_decimal(0), "0");
    assert_eq!(i32_to_decimal(42), "42");
    assert_eq!(i32_to_decimal(-1), "-1");
    assert_eq!(i32_to_decimal(i32::MAX), "2147483647");
    assert_eq!(i32_to_decimal(i32::MIN), "-2147483648");
    assert_eq!(u16_to_decimal(65535), "65535");
    assert_eq!(u16_to_decimal(10), "10");
}

#[test]
fn string_equality() {
    assert!(str_eq("abc", "abc"));
    assert!(!str_eq("abc", "abd"));
    assert!(!str_eq("abc", "ab"));
    assert!(str_eq("", ""));
    assert!(str_eq("caf\u{e9}", "caf\u{e9}"));
}

#[test]
fn path_segments_are_percent_encoded() {
    assert_eq!(encode_path_segment("Updated Team"), "Updated%20Team");
    assert_eq!(encode_path_segment("a-b.c_d~e"), "a-b.c_d~e");
    assert_eq!(encode_path_segment("x/y?z#w+v@u"), "x%2Fy%3Fz%23w%2Bv%40u");
    assert_eq!(encode_path_segment("\u{e9}\u{1f600}"), "%C3%A9%F0%9F%98%80");
    assert_eq!(encode_path_segment(""), "");
}
