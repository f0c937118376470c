use ecash_sdk_core::types::{ChainId, IntentType, TransactionRequest};
use std::str::FromStr;

fn request(amount: &str) -> TransactionRequest {
    TransactionRequest {
        reference_id: "ref_001".to_string(),
        intent_type: IntentType::Transfer,
        amount: amount.to_string(),
        asset: "USDC".to_string(),
        recipient: None,
        source_chain: ChainId::Base,
        target_chain: None,
        is_shielded: false,
    }
}

#[test]
fn test_chain_id_display() {
    assert_eq!(ChainId::Ethereum.to_string(), "ethereum");
    assert_eq!(ChainId::Base.to_string(), "base");
    assert_eq!(ChainId::Solana.to_string(), "solana");
}

#[test]
fn test_chain_id_as_str() {
    assert_eq!(ChainId::Ethereum.as_str(), "ethereum");
    assert_eq!(ChainId::Base.as_str(), "base");
    assert_eq!(ChainId::Solana.as_str(), "solana");
}

#[test]
fn test_intent_type_display() {
    assert_eq!(IntentType::Transfer.to_string(), "transfer");
    assert_eq!(IntentType::Swap.to_string(), "swap");
    assert_eq!(IntentType::Shield.to_string(), "shield");
}

#[test]
fn test_transaction_request_validate() {
    let req = request("1000.00");
    assert!(req.validate().is_ok());
}

#[test]
fn test_transaction_request_validate_empty_amount() {
    let req = request("");
    assert!(req.validate().is_err());
}

#[test]
fn transaction_request_validate_empty_asset() {
    let mut req = request("5");
    req.asset = String::new();
    assert_eq!(req.validate(), Err("asset is required".to_string()));
    req.amount = String::new();
    assert_eq!(req.validate(), Err("amount is required".to_string()));
}

#[test]
fn test_chain_id_from_str() {
    assert_eq!(ChainId::from_str("ethereum").unwrap(), ChainId::Ethereum);
    assert_eq!(ChainId::from_str("base").unwrap(), ChainId::Base);
    assert_eq!(ChainId::from_str("solana").unwrap(), ChainId::Solana);
    assert!(ChainId::from_str("invalid").is_err());
}

#[test]
fn test_intent_type_from_str() {
    assert_eq!(IntentType::from_str("transfer").unwrap(), IntentType::Transfer);
    assert_eq!(IntentType::from_str("swap").unwrap(), IntentType::Swap);
    assert_eq!(IntentType::from_str("shield").unwrap(), IntentType::Shield);
    assert!(IntentType::from_str("invalid").is_err());
}

#[test]
fn names_parse_ignoring_case() {
    assert_eq!(ChainId::parse("BaSe"), Ok(ChainId::Base));
    assert_eq!(IntentType::parse("SWAP"), Ok(IntentType::Swap));
    assert_eq!(ChainId::parse("Mars"), Err("unknown chain: Mars".to_string()));
    assert_eq!(IntentType::parse("Lend"), Err("unknown intent type: Lend".to_string()));
    assert_eq!(ChainId::from_lowercase("Base"), None);
    assert_eq!(IntentType::from_lowercase("shield"), Some(IntentType::Shield));
}
