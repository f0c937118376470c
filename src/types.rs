//! The request and response values that flow through the pipeline.

use vstd::prelude::*;
use vstd::string::*;
use crate::text::{join, str_eq};

verus! {

/// Relies on `str::to_lowercase`: the lowercase form depends on the characters alone.
pub uninterp spec fn lower_of(s: Seq<char>) -> Seq<char>;

/// Relies on `str::to_lowercase`, which maps every character to its lowercase form.
#[verifier::external_body]
fn lowercase(s: &str) -> (r: String)
    ensures
        r@ == lower_of(s@),
{
    s.to_lowercase()
}

/// Supported blockchain networks.
#[derive(Debug, Clone, Copy, PartialEq, Eq, Hash, Structural)]
pub enum ChainId {
    Ethereum,
    Base,
    Solana,
}

/// The canonical lowercase name of a chain.
pub open spec fn chain_name(c: ChainId) -> Seq<char> {
    match c {
        ChainId::Ethereum => "ethereum"@,
        ChainId::Base => "base"@,
        ChainId::Solana => "solana"@,
    }
}

/// The chain whose canonical name is exactly `s`, if any.
pub open spec fn chain_named(s: Seq<char>) -> Option<ChainId> {
    if s == "ethereum"@ {
        Some(ChainId::Ethereum)
    } else if s == "base"@ {
        Some(ChainId::Base)
    } else if s == "solana"@ {
        Some(ChainId::Solana)
    } else {
        None
    }
}

impl ChainId {
    pub fn as_str(&self) -> (r: &'static str)
        ensures
            r@ == chain_name(*self),
    {
        match self {
            ChainId::Ethereum => "ethereum",
            ChainId::Base => "base",
            ChainId::Solana => "solana",
        }
    }

    /// The display form of a chain: its canonical name.
    pub fn to_string(&self) -> (r: String)
        ensures
            r@ == chain_name(*self),
    {
        String::from_str(self.as_str())
    }

    /// Looks a chain up by a name that is already in lowercase.
    pub fn from_lowercase(name: &str) -> (r: Option<ChainId>)
        ensures
            r == chain_named(name@),
    {
        if str_eq(name, "ethereum") {
            Some(ChainId::Ethereum)
        } else if str_eq(name, "base") {
            Some(ChainId::Base)
        } else if str_eq(name, "solana") {
            Some(ChainId::Solana)
        } else {
            None
        }
    }

    /// Parses a chain name, ignoring case.
    pub fn parse(s: &str) -> (r: Result<ChainId, String>)
        ensures
            chain_named(lower_of(s@)) is Some ==> r == Ok::<ChainId, String>(
                chain_named(lower_of(s@))->0,
            ),
            chain_named(lower_of(s@)) is None ==> r is Err && r->Err_0@ == "unknown chain: "@
                + s@,
    {
        let lower = lowercase(s);
        match ChainId::from_lowercase(lower.as_str()) {
            Some(c) => Ok(c),
            None => Err(join("unknown chain: ", s)),
        }
    }
}

impl std::str::FromStr for ChainId {
    type Err = String;

    fn from_str(s: &str) -> Result<ChainId, String> {
        ChainId::parse(s)
    }
}

/// Classification of the operation.
#[derive(Debug, Clone, Copy, PartialEq, Eq, Hash, Structural)]
pub enum IntentType {
    Transfer,
    Swap,
    Shield,
}

/// The canonical lowercase name of an intent.
pub open spec fn intent_name(t: IntentType) -> Seq<char> {
    match t {
        IntentType::Transfer => "transfer"@,
        IntentType::Swap => "swap"@,
        IntentType::Shield => "shield"@,
    }
}

/// The intent whose canonical name is exactly `s`, if any.
pub open spec fn intent_named(s: Seq<char>) -> Option<IntentType> {
    if s == "transfer"@ {
        Some(IntentType::Transfer)
    } else if s == "swap"@ {
        Some(IntentType::Swap)
    } else if s == "shield"@ {
        Some(IntentType::Shield)
    } else {
        None
    }
}

impl IntentType {
    pub fn as_str(&self) -> (r: &'static str)
        ensures
            r@ == intent_name(*self),
    {
        match self {
            IntentType::Transfer => "transfer",
            IntentType::Swap => "swap",
            IntentType::Shield => "shield",
        }
    }

    /// The display form of an intent: its canonical name.
    pub fn to_string(&self) -> (r: String)
        ensures
            r@ == intent_name(*self),
    {
        String::from_str(self.as_str())
    }

    /// Looks an intent up by a name that is already in lowercase.
    pub fn from_lowercase(name: &str) -> (r: Option<IntentType>)
        ensures
            r == intent_named(name@),
    {
        if str_eq(name, "transfer") {
            Some(IntentType::Transfer)
        } else if str_eq(name, "swap") {
            Some(IntentType::Swap)
        } else if str_eq(name, "shield") {
            Some(IntentType::Shield)
        } else {
            None
        }
    }

    /// Parses an intent name, ignoring case.
    pub fn parse(s: &str) -> (r: Result<IntentType, String>)
        ensures
            intent_named(lower_of(s@)) is Some ==> r == Ok::<IntentType, String>(
                intent_named(lower_of(s@))->0,
            ),
            intent_named(lower_of(s@)) is None ==> r is Err && r->Err_0@
                == "unknown intent type: "@ + s@,
    {
        let lower = lowercase(s);
        match IntentType::from_lowercase(lower.as_str()) {
            Some(t) => Ok(t),
            None => Err(join("unknown intent type: ", s)),
        }
    }
}

impl std::str::FromStr for IntentType {
    type Err = String;

    fn from_str(s: &str) -> Result<IntentType, String> {
        IntentType::parse(s)
    }
}

/// Standard payload for initiating an operation.
#[derive(Debug, Clone)]
pub struct TransactionRequest {
    /// Caller-supplied tracing key; not required to be unique.
    pub reference_id: String,
    pub intent_type: IntentType,
    /// Decimal amount, kept as text so that large values survive.
    pub amount: String,
    /// Asset symbol, such as `USDC`.
    pub asset: String,
    pub recipient: Option<String>,
    pub source_chain: ChainId,
    pub target_chain: Option<ChainId>,
    /// Whether the request asks for privacy (a proof before settlement).
    pub is_shielded: bool,
}

impl TransactionRequest {
    /// Checks that the amount and the asset are present.
    pub fn validate(&self) -> (r: Result<(), String>)
        ensures
            r is Ok <==> (self.amount@.len() > 0 && self.asset@.len() > 0),
            self.amount@.len() == 0 ==> r is Err && r->Err_0@ == "amount is required"@,
            self.amount@.len() > 0 && self.asset@.len() == 0 ==> r is Err && r->Err_0@
                == "asset is required"@,
    {
        if self.amount.as_str().unicode_len() == 0 {
            return Err(String::from_str("amount is required"));
        }
        if self.asset.as_str().unicode_len() == 0 {
            return Err(String::from_str("asset is required"));
        }
        Ok(())
    }
}

/// Result of an executed request.
#[derive(Debug, Clone, PartialEq, Eq)]
pub struct TransactionResponse {
    pub tx_hash: String,
    pub status: String,
    pub block_height: u64,
    /// The fee charged, as `<number> <symbol>`.
    pub fee_used: String,
}

/// A response as plain values.
pub struct ResponseView {
    pub tx_hash: Seq<char>,
    pub status: Seq<char>,
    pub block_height: u64,
    pub fee_used: Seq<char>,
}

impl View for TransactionResponse {
    type V = ResponseView;

    open spec fn view(&self) -> ResponseView {
        ResponseView {
            tx_hash: self.tx_hash@,
            status: self.status@,
            block_height: self.block_height,
            fee_used: self.fee_used@,
        }
    }
}

} // verus!
