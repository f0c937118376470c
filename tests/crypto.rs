use ecash_sdk_core::crypto::{decode_signature, signature_to_hex};

#[test]
fn signature_text_round_trip() {
    let bytes: Vec<u8> = (0u8..64).collect();
    let text = signature_to_hex(&bytes);
    assert_eq!(text.len(), 130);
    assert!(text.starts_with("0x000102"));
    assert_eq!(decode_signature(&text), Ok(bytes.clone()));
    assert_eq!(decode_signature(&text[2..]), Ok(bytes));
}

#[test]
fn signature_text_uppercase_digits_are_read() {
    let text = "AB".repeat(64);
    assert_eq!(decode_signature(&text), Ok(vec![0xab; 64]));
}

#[test]
fn test_verify_signature_invalid_hex() {
    let result = decode_signature("not_valid_hex");
    assert!(result.is_err());
    assert!(result.unwrap_err().starts_with("invalid hex: "));
    assert!(decode_signature("0x123").unwrap_err().starts_with("invalid hex: "));
}

#[test]
fn test_verify_signature_wrong_length() {
    let result = decode_signature("0x1234567890abcdef");
    assert!(result.is_err());
    assert!(result.clone().unwrap_err().contains("invalid signature length"));
    assert_eq!(result.unwrap_err(), "invalid signature length: expected 64 bytes, got 8");
    assert_eq!(
        decode_signature("").unwrap_err(),
        "invalid signature length: expected 64 bytes, got 0"
    );
}
