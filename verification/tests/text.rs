use magic_wormhole_core::utf8_text::decode_text;
use magic_wormhole_core::greeting::greeting;
use magic_wormhole_core::verification_code::verifier_line;

#[test]
fn verifier_line_is_lowercase_hex() {
    assert_eq!(verifier_line(&[1, 2, 3, 15, 16]), "verifier: 0102030f10");
    assert_eq!(verifier_line(b"Hello world!"), "verifier: 48656c6c6f20776f726c6421");
    assert_eq!(verifier_line(&[]), "verifier: ");
    assert_eq!(verifier_line(&[0x00, 0xff, 0xab]), "verifier: 00ffab");
}

#[test]
fn verifier_hex_has_two_digits_per_byte() {
    let bytes: Vec<u8> = (0..=255u8).collect();
    let line = verifier_line(&bytes);
    let hex = &line["verifier: ".len()..];
    assert_eq!(hex.len(), 512);
    assert!(hex.chars().all(|c| c.is_ascii_digit() || ('a'..='f').contains(&c)));
}

#[test]
fn greeting_names_the_recipient() {
    assert_eq!(greeting(b"world"), "Hello world");
    assert_eq!(greeting("Grüße".as_bytes()), "Hello Grüße");
    assert_eq!(greeting(b""), "Hello ");
}

#[test]
fn greeting_falls_back_on_invalid_utf8() {
    assert_eq!(greeting(&[0xff, 0xfe]), "Hello there");
    assert_eq!(greeting(&[b'a', 0xc3]), "Hello there");
}

#[test]
fn decode_text_reads_valid_utf8_only() {
    assert_eq!(decode_text(b"{\"offer\": {\"message\": \"hi\"}}"), Some("{\"offer\": {\"message\": \"hi\"}}".to_string()));
    assert_eq!(decode_text("日本".as_bytes()), Some("日本".to_string()));
    assert_eq!(decode_text(b""), Some(String::new()));
    assert_eq!(decode_text(&[0x80]), None);
    assert_eq!(decode_text(&[0xed, 0xa0, 0x80]), None);
}

#[test]
fn distinct_verifiers_print_differently() {
    let a = verifier_line(&[0x01, 0x23]);
    let b = verifier_line(&[0x12, 0x03]);
    let c = verifier_line(&[0x01, 0x02, 0x03]);
    assert_ne!(a, b);
    assert_ne!(a, c);
    assert_eq!(a, "verifier: 0123");
    assert_eq!(b, "verifier: 1203");
}
