//! Error codes and the structured error that every pipeline stage maps to.

use vstd::prelude::*;
use vstd::string::*;
use crate::text::join;

verus! {

/// Relies on `anyhow::Error` only as an opaque carrier of an underlying cause.
#[verifier::external_type_specification]
#[verifier::external_body]
pub struct ExAnyhowError(anyhow::Error);

/// Standardized error codes; automation branches on these.
#[derive(Debug, Clone, Copy, PartialEq, Eq, Structural)]
pub enum ErrorCode {
    InvalidRequest,
    InsufficientFunds,
    NetworkFailure,
    ProofGeneration,
    AgentUnavailable,
    Timeout,
    RateLimited,
}

/// The display text of a code.
pub open spec fn code_text(c: ErrorCode) -> Seq<char> {
    match c {
        ErrorCode::InvalidRequest => "INVALID_REQUEST"@,
        ErrorCode::InsufficientFunds => "INSUFFICIENT_FUNDS"@,
        ErrorCode::NetworkFailure => "NETWORK_FAILURE"@,
        ErrorCode::ProofGeneration => "PROOF_GENERATION_FAILED"@,
        ErrorCode::AgentUnavailable => "AGENT_UNAVAILABLE"@,
        ErrorCode::Timeout => "TIMEOUT"@,
        ErrorCode::RateLimited => "RATE_LIMITED"@,
    }
}

impl ErrorCode {
    pub fn as_str(&self) -> (r: &'static str)
        ensures
            r@ == code_text(*self),
    {
        match self {
            ErrorCode::InvalidRequest => "INVALID_REQUEST",
            ErrorCode::InsufficientFunds => "INSUFFICIENT_FUNDS",
            ErrorCode::NetworkFailure => "NETWORK_FAILURE",
            ErrorCode::ProofGeneration => "PROOF_GENERATION_FAILED",
            ErrorCode::AgentUnavailable => "AGENT_UNAVAILABLE",
            ErrorCode::Timeout => "TIMEOUT",
            ErrorCode::RateLimited => "RATE_LIMITED",
        }
    }

    /// The display form of a code.
    pub fn to_string(&self) -> (r: String)
        ensures
            r@ == code_text(*self),
    {
        String::from_str(self.as_str())
    }
}

/// A failure: a code for automation, a message for humans, and optionally
/// the underlying cause.
#[derive(Debug)]
pub struct SdkError {
    pub code: ErrorCode,
    pub message: String,
    pub cause: Option<anyhow::Error>,
}

/// The display text of an error with the given code and message.
pub open spec fn error_text(c: ErrorCode, message: Seq<char>) -> Seq<char> {
    "["@ + code_text(c) + "] "@ + message
}

impl SdkError {
    /// Creates an error without an underlying cause.
    pub fn new(code: ErrorCode, message: &str) -> (r: SdkError)
        ensures
            r.code == code,
            r.message@ == message@,
            r.cause is None,
    {
        SdkError { code, message: String::from_str(message), cause: None }
    }

    /// Creates an error that carries its underlying cause.
    pub fn wrap(code: ErrorCode, message: &str, cause: anyhow::Error) -> (r: SdkError)
        ensures
            r.code == code,
            r.message@ == message@,
            r.cause is Some,
    {
        SdkError { code, message: String::from_str(message), cause: Some(cause) }
    }

    /// The display form: `[CODE] message`.
    pub fn to_string(&self) -> (r: String)
        ensures
            r@ == error_text(self.code, self.message@),
    {
        let head = join("[", self.code.as_str());
        let head = head.concat("] ");
        head.concat(self.message.as_str())
    }
}

/// The result of a pipeline operation.
pub type Result<T> = std::result::Result<T, SdkError>;

} // verus!
