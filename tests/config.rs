use ecash_sdk_core::config::SdkConfig;

#[test]
fn test_default_config() {
    let config = SdkConfig::default_config();
    assert!(!config.api_endpoint.is_empty());
    assert_eq!(config.max_retries, 3);
    assert!(config.enable_zk_proofs);
    assert!(config.enable_metrics);
}

#[test]
fn test_config_with_api_key() {
    let config = SdkConfig::default_config().with_api_key("test_key");
    assert_eq!(config.api_key, "test_key");
}

#[test]
fn test_config_validate() {
    let mut config = SdkConfig::default_config();
    assert!(config.validate().is_ok());

    config.timeout_ms = 0;
    assert!(config.validate().is_err());
}

#[test]
fn test_config_validate_environment() {
    let mut config = SdkConfig::default_config();
    config.environment = "invalid".to_string();
    assert!(config.validate().is_err());

    config.environment = "mainnet".to_string();
    assert!(config.validate().is_ok());

    config.environment = "testnet".to_string();
    assert!(config.validate().is_ok());
}

#[test]
fn test_config_validate_max_retries() {
    let mut config = SdkConfig::default_config();
    config.max_retries = 0;
    assert!(config.validate().is_err());
}

#[test]
fn config_validate_messages() {
    let mut config = SdkConfig::default_config();
    config.cache_ttl_ms = 999;
    assert_eq!(config.validate(), Err("cache_ttl must be greater than 0".to_string()));
    config.cache_ttl_ms = 1000;
    config.proof_cache_ttl_ms = 0;
    assert_eq!(config.validate(), Err("proof_cache_ttl must be greater than 0".to_string()));
    config.proof_cache_ttl_ms = 1000;
    config.environment = "staging".to_string();
    assert_eq!(
        config.validate(),
        Err("invalid environment: staging (must be mainnet, testnet, or devnet)".to_string())
    );
    config.environment = "devnet".to_string();
    assert_eq!(config.validate(), Ok(()));
}

#[test]
fn default_trait_matches_default_config() {
    let config = SdkConfig::default();
    assert_eq!(config.api_endpoint, "https://api.useeasy.cash");
    assert_eq!(config.environment, "mainnet");
    assert_eq!(config.cache_ttl_ms, 60_000);
    assert_eq!(config.timeout_ms, 30_000);
}
