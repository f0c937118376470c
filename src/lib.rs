//! Client-side orchestration of transfer, swap and shield requests: input
//! validation, a response cache, a proof gate, route negotiation and
//! selection, rate limiting and metrics, each with a verified contract.

pub mod agent;
pub mod cache;
pub mod client;
pub mod codec;
pub mod config;
pub mod crypto;
pub mod errors;
pub mod fee;
pub mod monitoring;
pub mod rate_limiter;
pub mod settlement;
pub mod text;
pub mod types;
pub mod validator;
pub mod zk;

pub use client::EasyCashClient;
pub use config::SdkConfig;
pub use errors::{ErrorCode, Result, SdkError};
pub use types::{ChainId, IntentType, TransactionRequest, TransactionResponse};
pub use zk::ZkProofGenerator;
