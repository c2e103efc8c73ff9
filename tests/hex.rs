use cpu_helper::lexer::{hex_u16, hex_u8};

#[test]
fn test_hex_u8() {
    assert_eq!(hex_u8("0x00"), Some((String::from(""), 0)));
    assert_eq!(hex_u8("0x01"), Some((String::from(""), 1)));
    assert_eq!(hex_u8("0x12"), Some((String::from(""), 18)));
    assert_eq!(hex_u8("0xFF"), Some((String::from(""), 255)));
}

#[test]
fn hex_u8_keeps_the_rest() {
    assert_eq!(hex_u8("0xaB, B"), Some((String::from(", B"), 0xab)));
    assert_eq!(hex_u8("0x7"), Some((String::from(""), 7)));
}

#[test]
fn hex_u8_rejects_too_many_digits() {
    assert_eq!(hex_u8("0x123"), None);
    assert_eq!(hex_u8("0x"), None);
    assert_eq!(hex_u8("12"), None);
}

#[test]
fn hex_u16_reads_up_to_four_digits() {
    assert_eq!(hex_u16("0x1234"), Some((String::from(""), 0x1234)));
    assert_eq!(hex_u16("0xFFFF rest"), Some((String::from(" rest"), 0xFFFF)));
    assert_eq!(hex_u16("0x12345"), None);
}
