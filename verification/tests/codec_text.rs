use hello_graphics::codec::{get_le, put_bytes, put_le};
use hello_graphics::text::{hex_lower, push_decimal, push_decimal_pad2};

#[test]
fn little_endian_fields() {
    let mut buf = [0xEEu8; 8];
    put_le(&mut buf, 2, 0x0A0B0C, 3);
    assert_eq!(buf, [0xEE, 0xEE, 0x0C, 0x0B, 0x0A, 0xEE, 0xEE, 0xEE]);
    assert_eq!(get_le(&buf, 2, 3), 0x0A0B0C);
    assert_eq!(get_le(&buf, 0, 0), 0);
    put_bytes(&mut buf, 6, &[1, 2]);
    assert_eq!(&buf[5..], &[0xEE, 1, 2]);
    let mut wide = [0u8; 16];
    put_le(&mut wide, 0, u128::MAX, 16);
    assert_eq!(get_le(&wide, 0, 16), u128::MAX);
}

#[test]
fn decimal_and_hex_text() {
    let mut s = String::new();
    push_decimal(&mut s, 0);
    s.push('|');
    push_decimal(&mut s, 4294967295);
    s.push('|');
    push_decimal_pad2(&mut s, 7);
    s.push('|');
    push_decimal_pad2(&mut s, 123);
    assert_eq!(s, "0|4294967295|07|123");
    assert_eq!(hex_lower(&[0x00, 0x0f, 0xa0, 0xff]), "000fa0ff");
}
