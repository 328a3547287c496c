use blur_core::numfmt::{i32_decimal, u32_decimal};

#[test]
fn unsigned_decimal_text() {
    assert_eq!(u32_decimal(0), "0".to_string());
    assert_eq!(u32_decimal(7), "7".to_string());
    assert_eq!(u32_decimal(10), "10".to_string());
    assert_eq!(u32_decimal(305), "305".to_string());
    assert_eq!(u32_decimal(4_294_967_295), "4294967295".to_string());
}

#[test]
fn signed_decimal_text() {
    assert_eq!(i32_decimal(0), "0".to_string());
    assert_eq!(i32_decimal(9), "9".to_string());
    assert_eq!(i32_decimal(-1), "-1".to_string());
    assert_eq!(i32_decimal(2_147_483_647), "2147483647".to_string());
    assert_eq!(i32_decimal(-2_147_483_648), "-2147483648".to_string());
}
