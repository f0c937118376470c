use ecash_sdk_core::types::{ChainId, IntentType, TransactionRequest};
use ecash_sdk_core::validator::{
    validate_address, validate_amount, validate_chain, validate_transaction_request,
};

fn request(amount: &str, recipient: Option<&str>, shielded: bool) -> TransactionRequest {
    TransactionRequest {
        reference_id: "ref_001".to_string(),
        intent_type: IntentType::Transfer,
        amount: amount.to_string(),
        asset: "USDC".to_string(),
        recipient: recipient.map(|r| r.to_string()),
        source_chain: ChainId::Base,
        target_chain: None,
        is_shielded: shielded,
    }
}

#[test]
fn test_validate_address_valid() {
    assert!(validate_address("0x742d35Cc6634C0532925a3b844Bc9e7595f0bEb0").is_ok());
}

#[test]
fn test_validate_address_invalid_short() {
    assert!(validate_address("0x742d35Cc6634C0532925a3b844Bc9e7595f0bE").is_err());
}

#[test]
fn test_validate_address_invalid_no_prefix() {
    assert!(validate_address("742d35Cc6634C0532925a3b844Bc9e7595f0bEb").is_err());
}

#[test]
fn validate_address_rejects_non_hex_and_long() {
    assert_eq!(
        validate_address("0x742d35Cc6634C0532925a3b844Bc9e7595f0bEbg"),
        Err("invalid address format: 0x742d35Cc6634C0532925a3b844Bc9e7595f0bEbg".to_string())
    );
    assert!(validate_address("0x742d35Cc6634C0532925a3b844Bc9e7595f0bEb00").is_err());
    assert!(validate_address("0X742d35Cc6634C0532925a3b844Bc9e7595f0bEb0").is_err());
}

#[test]
fn test_validate_amount_valid() {
    assert!(validate_amount("100.50").is_ok());
    assert!(validate_amount("1000").is_ok());
    assert!(validate_amount("0.001").is_ok());
}

#[test]
fn test_validate_amount_invalid_negative() {
    assert!(validate_amount("-100").is_err());
}

#[test]
fn test_validate_amount_invalid_zero() {
    assert!(validate_amount("0").is_err());
}

#[test]
fn test_validate_amount_invalid_format() {
    assert!(validate_amount("abc").is_err());
    assert!(validate_amount("100.50.25").is_err());
    assert!(validate_amount("").is_err());
}

#[test]
fn test_validate_amount_too_large() {
    assert!(validate_amount("2000000000000000").is_err()); // > 1e15 (2e15)
}

#[test]
fn validate_amount_messages_and_edges() {
    assert_eq!(validate_amount(""), Err("amount cannot be empty".to_string()));
    assert_eq!(
        validate_amount("1."),
        Err("invalid amount format: 1. (expected positive number)".to_string())
    );
    assert!(validate_amount(".5").is_err());
    assert_eq!(validate_amount("0.000"), Err("amount must be positive".to_string()));
    assert_eq!(validate_amount("1000000000000000"), Ok(()));
    assert_eq!(validate_amount("1000000000000000.000"), Ok(()));
    assert_eq!(
        validate_amount("1000000000000000.001"),
        Err("amount exceeds maximum allowed value".to_string())
    );
    assert!(validate_amount("999999999999999.999").is_ok());
    assert!(validate_amount("00000000000000000000000000000001").is_ok());
}

#[test]
fn test_validate_chain() {
    assert!(validate_chain(ChainId::Ethereum).is_ok());
    assert!(validate_chain(ChainId::Base).is_ok());
    assert!(validate_chain(ChainId::Solana).is_ok());
}

#[test]
fn test_validate_transaction_request_valid() {
    let req = request("1000.00", Some("0x742d35Cc6634C0532925a3b844Bc9e7595f0bEb0"), true);
    assert!(validate_transaction_request(&req).is_ok());
}

#[test]
fn test_validate_transaction_request_invalid_amount() {
    let req = request("", None, false);
    assert!(validate_transaction_request(&req).is_err());
}

#[test]
fn test_validate_transaction_request_invalid_recipient() {
    let req = request("1000.00", Some("invalid_address"), false);
    assert!(validate_transaction_request(&req).is_err());
}

#[test]
fn validate_transaction_request_messages() {
    let req = request("", None, false);
    assert_eq!(
        validate_transaction_request(&req),
        Err("amount validation failed: amount cannot be empty".to_string())
    );
    let req = request("5", Some("nope"), false);
    assert_eq!(
        validate_transaction_request(&req),
        Err("recipient validation failed: invalid address format: nope".to_string())
    );
}
