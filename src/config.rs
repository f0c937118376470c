//! Client configuration and its validation.

use vstd::prelude::*;
use vstd::string::*;
use crate::text::{join, str_eq};

verus! {

/// Settings of a client. Durations are in milliseconds.
#[derive(Debug, Clone)]
pub struct SdkConfig {
    pub api_endpoint: String,
    pub api_key: String,
    /// One of `mainnet`, `testnet` or `devnet`.
    pub environment: String,
    pub timeout_ms: u64,
    pub max_retries: u32,
    pub retry_backoff_ms: u64,
    pub enable_zk_proofs: bool,
    pub proof_cache_ttl_ms: u64,
    pub enable_metrics: bool,
    pub enable_caching: bool,
    pub cache_ttl_ms: u64,
}

/// Whether a duration covers at least one whole second.
pub open spec fn whole_seconds(ms: u64) -> bool {
    ms >= 1000
}

pub open spec fn known_environment(e: Seq<char>) -> bool {
    e == "mainnet"@ || e == "testnet"@ || e == "devnet"@
}

/// Whether a configuration is usable.
pub open spec fn config_valid(c: SdkConfig) -> bool {
    &&& whole_seconds(c.timeout_ms)
    &&& whole_seconds(c.cache_ttl_ms)
    &&& whole_seconds(c.proof_cache_ttl_ms)
    &&& known_environment(c.environment@)
    &&& c.max_retries > 0
}

/// The message of the first check that an unusable configuration fails.
pub open spec fn config_error(c: SdkConfig) -> Seq<char> {
    if !whole_seconds(c.timeout_ms) {
        "timeout must be greater than 0"@
    } else if !whole_seconds(c.cache_ttl_ms) {
        "cache_ttl must be greater than 0"@
    } else if !whole_seconds(c.proof_cache_ttl_ms) {
        "proof_cache_ttl must be greater than 0"@
    } else if !known_environment(c.environment@) {
        "invalid environment: "@ + c.environment@ + " (must be mainnet, testnet, or devnet)"@
    } else {
        "max_retries must be greater than 0"@
    }
}

/// The default settings.
pub open spec fn is_default_config(c: SdkConfig) -> bool {
    &&& c.api_endpoint@ == "https://api.useeasy.cash"@
    &&& c.api_key@ == Seq::<char>::empty()
    &&& c.environment@ == "mainnet"@
    &&& c.timeout_ms == 30_000
    &&& c.max_retries == 3
    &&& c.retry_backoff_ms == 2_000
    &&& c.enable_zk_proofs
    &&& c.proof_cache_ttl_ms == 300_000
    &&& c.enable_metrics
    &&& c.enable_caching
    &&& c.cache_ttl_ms == 60_000
}

impl Default for SdkConfig {
    fn default() -> (r: SdkConfig)
        ensures
            is_default_config(r),
    {
        SdkConfig::default_config()
    }
}

impl SdkConfig {
    /// Returns the default settings: the public endpoint on mainnet, no API
    /// key, a 30 s timeout, 3 retries 2 s apart, proofs, metrics and caching
    /// on, a 5 min proof cache and a 1 min response cache.
    pub fn default_config() -> (r: SdkConfig)
        ensures
            is_default_config(r),
            config_valid(r),
    {
        proof {
            reveal_strlit("mainnet");
        }
        SdkConfig {
            api_endpoint: String::from_str("https://api.useeasy.cash"),
            api_key: String::new(),
            environment: String::from_str("mainnet"),
            timeout_ms: 30_000,
            max_retries: 3,
            retry_backoff_ms: 2_000,
            enable_zk_proofs: true,
            proof_cache_ttl_ms: 300_000,
            enable_metrics: true,
            enable_caching: true,
            cache_ttl_ms: 60_000,
        }
    }

    /// Sets the API key.
    pub fn with_api_key(self, api_key: &str) -> (r: SdkConfig)
        ensures
            r.api_key@ == api_key@,
            r == (SdkConfig { api_key: r.api_key, ..self }),
    {
        let mut c = self;
        c.api_key = String::from_str(api_key);
        c
    }

    /// Checks the settings, reporting the first problem found.
    pub fn validate(&self) -> (r: Result<(), String>)
        ensures
            r is Ok <==> config_valid(*self),
            r is Err ==> r->Err_0@ == config_error(*self),
    {
        if self.timeout_ms < 1000 {
            return Err(String::from_str("timeout must be greater than 0"));
        }
        if self.cache_ttl_ms < 1000 {
            return Err(String::from_str("cache_ttl must be greater than 0"));
        }
        if self.proof_cache_ttl_ms < 1000 {
            return Err(String::from_str("proof_cache_ttl must be greater than 0"));
        }
        let env = self.environment.as_str();
        if !(str_eq(env, "mainnet") || str_eq(env, "testnet") || str_eq(env, "devnet")) {
            let m = join("invalid environment: ", env);
            return Err(m.concat(" (must be mainnet, testnet, or devnet)"));
        }
        if self.max_retries == 0 {
            return Err(String::from_str("max_retries must be greater than 0"));
        }
        Ok(())
    }
}

} // verus!
