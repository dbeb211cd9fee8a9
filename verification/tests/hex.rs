use transfers::hex::to_lower_hex;

#[test]
fn hex_of_no_bytes_is_empty() {
    assert_eq!(to_lower_hex(&[]), "");
}

#[test]
fn hex_has_two_digits_per_byte_high_half_first() {
    assert_eq!(to_lower_hex(&[0x00, 0x0f, 0xa0, 0xff]), "000fa0ff");
    assert_eq!(to_lower_hex(&[0x01, 0x23, 0x45, 0x67, 0x89, 0xab, 0xcd, 0xef]), "0123456789abcdef");
}

#[test]
fn hex_covers_every_byte_value() {
    for value in 0..=255u8 {
        let text = to_lower_hex(&[value]);
        assert_eq!(text, format!("{:02x}", value));
    }
}

#[test]
fn hex_uses_lowercase_digits_only() {
    let bytes: Vec<u8> = (0..=255u8).collect();
    let text = to_lower_hex(&bytes);
    assert_eq!(text.len(), 512);
    assert!(text.chars().all(|c| matches!(c, '0'..='9' | 'a'..='f')));
}

#[test]
fn hex_tells_byte_strings_apart() {
    assert_ne!(to_lower_hex(&[0x1f]), to_lower_hex(&[0xf1]));
    assert_ne!(to_lower_hex(&[0x01, 0x10]), to_lower_hex(&[0x10, 0x01]));
    assert_ne!(to_lower_hex(&[0x00]), to_lower_hex(&[0x00, 0x00]));
}
