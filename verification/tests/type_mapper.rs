use solpact::compact::sol_to_compact_type;

#[test]
fn maps_every_explicit_width() {
    for n in 1..=256u32 {
        let u = format!("uint{}", n);
        assert_eq!(sol_to_compact_type(&u), Some(format!("Uint<{}>", n)));
        let b = format!("bytes{}", n);
        assert_eq!(sol_to_compact_type(&b), Some(format!("Bytes<{}>", n)));
    }
}

#[test]
fn maps_default_widths() {
    assert_eq!(sol_to_compact_type("uint"), Some(String::from("Uint<256>")));
    assert_eq!(sol_to_compact_type("bytes"), Some(String::from("Bytes<256>")));
}

#[test]
fn maps_bool() {
    assert_eq!(sol_to_compact_type("bool"), Some(String::from("Boolean")));
}

#[test]
fn rejects_unknown_spellings() {
    assert_eq!(sol_to_compact_type("address"), None);
    assert_eq!(sol_to_compact_type("string"), None);
    assert_eq!(sol_to_compact_type("uint8x"), None);
    assert_eq!(sol_to_compact_type("bytes32x"), None);
    assert_eq!(sol_to_compact_type("boolean"), None);
    assert_eq!(sol_to_compact_type(""), None);
}
