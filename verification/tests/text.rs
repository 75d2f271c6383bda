use tpt_chassis::text::{decimal, hex, hex_number};

#[test]
fn hex_renders_two_upper_case_digits_per_byte() {
    assert_eq!(hex(&[]), "");
    assert_eq!(hex(&[0x00, 0x0F, 0xA5, 0xFF]), "000FA5FF");
}

#[test]
fn numbers_render_without_leading_zeros() {
    assert_eq!(decimal(0), "0");
    assert_eq!(decimal(7), "7");
    assert_eq!(decimal(255), "255");
    assert_eq!(decimal(4_294_967_295), "4294967295");
    assert_eq!(hex_number(0), "0");
    assert_eq!(hex_number(0x7E0), "7E0");
    assert_eq!(hex_number(0x1FFF_FFFF), "1FFFFFFF");
}
