use cpu_helper::starts_with::StartsWith;

#[test]
fn starts_with() {
    let value: u8 = 0b00_10_11_11;
    assert!(value.starts_with(0b00_10, 4));
    assert!(value.starts_with(0b00, 2));
    assert!(!value.starts_with(0b01, 2));
}

#[test]
fn starts_with_str() {
    let value: u8 = 0b00_10_11_11;
    assert!(value.binary_representation_starts_with("0010"));
    assert!(value.binary_representation_starts_with("00"));
    assert!(!value.binary_representation_starts_with("01"));
    assert!(value.binary_representation_starts_with("00_10"));
    assert!(value.binary_representation_starts_with("00_10_11"));
}

#[test]
fn starts_with_full_width() {
    let value: u8 = 0b11_00_01_00;
    assert!(value.starts_with(0b11_00_01_00, 8));
    assert!(!value.starts_with(0b11_00_01_01, 8));
    assert!(value.starts_with(0b1, 1));
    assert!(value.binary_representation_starts_with("11_00_01_00"));
}

#[test]
fn starts_with_ignores_prefix_high_bits() {
    let value: u8 = 0b10_00_00_00;
    assert!(value.starts_with(0b110, 2));
}
