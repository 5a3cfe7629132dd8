use admin_server::address::Address;

#[test]
fn hex_round_trip() {
    let mut bytes = [0u8; 20];
    for (i, b) in bytes.iter_mut().enumerate() {
        *b = (i as u8) * 13;
    }
    let a = Address { bytes };
    let text = a.to_hex();
    assert_eq!(text.len(), 42);
    assert_eq!(Address::from_hex(&text), Some(a));
}

#[test]
fn hex_exact_text() {
    let mut bytes = [0u8; 20];
    bytes[0] = 0xa0;
    bytes[19] = 0x0f;
    let a = Address { bytes };
    assert_eq!(a.to_hex(), "0xa00000000000000000000000000000000000000f");
}

#[test]
fn zero_address() {
    let z = Address::zero();
    assert_eq!(z.bytes, [0u8; 20]);
    assert_eq!(z.to_hex(), "0x0000000000000000000000000000000000000000");
}

#[test]
fn upper_case_digits_are_read() {
    let a = Address::from_hex("0xA0B86991C6218B36C1D19D4A2E9EB0CE3606EB48").unwrap();
    assert_eq!(a.bytes[0], 0xa0);
    assert_eq!(a.bytes[19], 0x48);
    assert_eq!(a.to_hex(), "0xa0b86991c6218b36c1d19d4a2e9eb0ce3606eb48");
}

#[test]
fn malformed_addresses_are_refused() {
    assert_eq!(Address::from_hex(""), None);
    assert_eq!(Address::from_hex("a0b86991c6218b36c1d19d4a2e9eb0ce3606eb48"), None);
    assert_eq!(Address::from_hex("0xa0b86991c6218b36c1d19d4a2e9eb0ce3606eb4"), None);
    assert_eq!(Address::from_hex("0xa0b86991c6218b36c1d19d4a2e9eb0ce3606eb4g"), None);
    assert_eq!(Address::from_hex("0Xa0b86991c6218b36c1d19d4a2e9eb0ce3606eb48"), None);
}
