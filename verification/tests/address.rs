use arbi_transfer::address::parse_address;
use arbi_transfer::error::TransferError;

#[test]
fn parses_prefixed_address() {
    let a = parse_address("0x3f1f78ED98Cd180794f1346F5bD379D5Ec47DE90").unwrap();
    assert_eq!(a.bytes.len(), 20);
    assert_eq!(a.bytes[0], 0x3f);
    assert_eq!(a.bytes[1], 0x1f);
    assert_eq!(a.bytes[19], 0x90);
}

#[test]
fn parses_bare_address() {
    let a = parse_address("802cc0f559ebc79da798bf3f3bab44141a1a06ed").unwrap();
    assert_eq!(a.bytes.len(), 20);
    assert_eq!(a.bytes[0], 0x80);
    assert_eq!(a.bytes[19], 0xed);
}

#[test]
fn parse_is_case_insensitive_on_digits() {
    let lower = parse_address("0x802cc0f559ebc79da798bf3f3bab44141a1a06ed").unwrap();
    let upper = parse_address("0x802CC0F559EBC79DA798BF3F3BAB44141A1A06ED").unwrap();
    assert!(lower.same_as(&upper));
}

#[test]
fn duplicate_keeps_the_bytes() {
    let a = parse_address("0x0000000000000000000000000000000000000001").unwrap();
    let b = a.duplicate();
    assert!(a.same_as(&b));
    assert_eq!(b.bytes, a.bytes);
}

#[test]
fn same_as_is_byte_exact() {
    let a = parse_address("0x0000000000000000000000000000000000000001").unwrap();
    let b = parse_address("0x0000000000000000000000000000000000000002").unwrap();
    assert!(!a.same_as(&b));
}

#[test]
fn rejects_malformed_addresses() {
    assert!(matches!(parse_address(""), Err(TransferError::AddressFormat)));
    assert!(matches!(parse_address("0x"), Err(TransferError::AddressFormat)));
    // one digit short
    assert!(matches!(
        parse_address("0x3f1f78ED98Cd180794f1346F5bD379D5Ec47DE9"),
        Err(TransferError::AddressFormat)
    ));
    // one digit long
    assert!(matches!(
        parse_address("0x3f1f78ED98Cd180794f1346F5bD379D5Ec47DE901"),
        Err(TransferError::AddressFormat)
    ));
    // a non-hex character
    assert!(matches!(
        parse_address("0x3g1f78ED98Cd180794f1346F5bD379D5Ec47DE90"),
        Err(TransferError::AddressFormat)
    ));
}
