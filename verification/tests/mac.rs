use dot11::mac::MACField;

#[test]
fn formats_six_octets() {
    let field = MACField::from_slice(&[0x00, 0x11, 0x22, 0x33, 0x44, 0x55]);
    assert_eq!(field.addr, "00:11:22:33:44:55");
}

#[test]
fn letters_are_lowercase() {
    let field = MACField::from_slice(&[0xab, 0xcd, 0xef, 0xff, 0x0a, 0xa0]);
    assert_eq!(field.addr, "ab:cd:ef:ff:0a:a0");
    assert_eq!(field.addr, field.addr.to_lowercase());
}

#[test]
fn small_octets_keep_their_leading_zero() {
    let field = MACField::from_slice(&[0x00, 0x01, 0x09, 0x0a, 0x0f, 0x10]);
    assert_eq!(field.addr, "00:01:09:0a:0f:10");
    assert_eq!(field.addr.len(), 17);
}

#[test]
fn every_octet_value_in_every_place() {
    for value in 0..=255u8 {
        for place in 0..6 {
            let mut octets = [0x5au8; 6];
            octets[place] = value;
            let field = MACField::from_slice(&octets);
            let expected = format!(
                "{:02x}:{:02x}:{:02x}:{:02x}:{:02x}:{:02x}",
                octets[0], octets[1], octets[2], octets[3], octets[4], octets[5]
            );
            assert_eq!(field.addr, expected);
            assert!(field
                .addr
                .chars()
                .all(|c| c == ':' || c.is_ascii_digit() || ('a'..='f').contains(&c)));
        }
    }
}

#[test]
fn distinct_octets_give_distinct_text() {
    let base = [0x10u8, 0x20, 0x30, 0x40, 0x50, 0x60];
    let base_text = MACField::from_slice(&base).addr;
    for place in 0..6 {
        for value in 0..=255u8 {
            let mut octets = base;
            octets[place] = value;
            let text = MACField::from_slice(&octets).addr;
            assert_eq!(text == base_text, octets == base);
        }
    }
    assert_ne!(
        MACField::from_slice(&[0x01, 0x10, 0, 0, 0, 0]).addr,
        MACField::from_slice(&[0x10, 0x01, 0, 0, 0, 0]).addr
    );
}

#[test]
fn same_octets_give_equal_fields() {
    let a = MACField::from_slice(&[1, 2, 3, 4, 5, 6]);
    let b = MACField::from_slice(&[1, 2, 3, 4, 5, 6]);
    assert_eq!(a, b);
    assert_eq!(a.clone(), a);
}
