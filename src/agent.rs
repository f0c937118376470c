//! Route quotes and the multi-factor selection of the best route.

use vstd::prelude::*;
use vstd::string::*;
use crate::fee::{fee_units, parse_fee_units, UNITS_PER_WHOLE};
use crate::text::str_eq;
use crate::types::{chain_name, ChainId, TransactionRequest};

verus! {

/// The largest security score: a score is in ten-thousandths of one.
pub const MAX_SECURITY_SCORE: u32 = 10_000;

/// One agent's offer to execute a request.
#[derive(Debug)]
pub struct RouteQuote {
    /// Unique identifier of the agent giving this quote.
    pub agent_id: String,
    /// Estimated fee as `<number> <symbol>`, such as `0.05 USDC`.
    pub estimated_fee: String,
    /// Estimated time to complete, in milliseconds.
    pub estimated_time_ms: u64,
    /// Chain hops of the route, in order.
    pub route: Vec<String>,
    /// Security score in ten-thousandths: 0 is the lowest, 10000 the highest.
    pub security_score: u32,
}

/// A quote as plain values.
pub struct QuoteView {
    pub agent_id: Seq<char>,
    pub estimated_fee: Seq<char>,
    pub estimated_time_ms: u64,
    pub route: Seq<Seq<char>>,
    pub security_score: u32,
}

impl View for RouteQuote {
    type V = QuoteView;

    open spec fn view(&self) -> QuoteView {
        QuoteView {
            agent_id: self.agent_id@,
            estimated_fee: self.estimated_fee@,
            estimated_time_ms: self.estimated_time_ms,
            route: self.route@.map_values(|h: String| h@),
            security_score: self.security_score,
        }
    }
}

/// What the selection optimises.
#[derive(Debug, Clone, Copy, PartialEq, Eq, Structural)]
pub enum RoutePreference {
    Speed,
    Cost,
    Security,
    Balanced,
}

/// The preference a name stands for: any name other than `speed`, `cost`
/// and `security` means the balanced weighting.
pub open spec fn preference_named(s: Seq<char>) -> RoutePreference {
    if s == "speed"@ {
        RoutePreference::Speed
    } else if s == "cost"@ {
        RoutePreference::Cost
    } else if s == "security"@ {
        RoutePreference::Security
    } else {
        RoutePreference::Balanced
    }
}

impl RoutePreference {
    pub fn from_name(s: &str) -> (r: RoutePreference)
        ensures
            r == preference_named(s@),
    {
        if str_eq(s, "speed") {
            RoutePreference::Speed
        } else if str_eq(s, "cost") {
            RoutePreference::Cost
        } else if str_eq(s, "security") {
            RoutePreference::Security
        } else {
            RoutePreference::Balanced
        }
    }
}

/// The fee of a quote in units of `10^-18`, where an unreadable fee counts
/// as larger than any readable one (a readable fee has at most eighteen
/// digits, so it stays below `10^36` units).
pub open spec fn cost_units(q: RouteQuote) -> int {
    match fee_units(q.estimated_fee@) {
        Some(u) => u as int,
        None => 1_000_000_000_000_000_000_000_000_000_000_000_000int,
    }
}

/// The fee of a quote in units for the balanced weighting, where an
/// unreadable fee counts as exactly one whole.
pub open spec fn balanced_fee_units(q: RouteQuote) -> int {
    match fee_units(q.estimated_fee@) {
        Some(u) => u as int,
        None => UNITS_PER_WHOLE as int,
    }
}

/// The balanced score in units of `10^-12`, each term rounded down:
/// `0.5 * security + 0.3 / (seconds + 1) + 0.2 / (fee + 1)`, where the
/// security score is read as a fraction of one.
pub open spec fn balanced_score(q: RouteQuote) -> int {
    q.security_score as int * 50_000_000int + 300_000_000_000_000int / (q.estimated_time_ms
        as int + 1000) + 200_000_000_000_000_000_000_000_000_000int / (balanced_fee_units(q)
        + UNITS_PER_WHOLE as int)
}

/// How good a quote is under a preference: higher is better.
pub open spec fn rank(p: RoutePreference, q: RouteQuote) -> int {
    match p {
        RoutePreference::Speed => -(q.estimated_time_ms as int),
        RoutePreference::Cost => -cost_units(q),
        RoutePreference::Security => q.security_score as int,
        RoutePreference::Balanced => balanced_score(q),
    }
}

/// Whether quote `a` is strictly better than quote `b` under `p`.
pub open spec fn prefers(p: RoutePreference, a: RouteQuote, b: RouteQuote) -> bool {
    rank(p, a) > rank(p, b)
}

/// `i` is the first of the best quotes: none is better, and every earlier
/// one is strictly worse.
pub open spec fn is_first_best(qs: Seq<RouteQuote>, p: RoutePreference, i: int) -> bool {
    &&& 0 <= i < qs.len()
    &&& forall|j: int| 0 <= j < qs.len() ==> !prefers(p, #[trigger] qs[j], qs[i])
    &&& forall|j: int| 0 <= j < i ==> prefers(p, qs[i], #[trigger] qs[j])
}

fn balanced_score_exec(q: &RouteQuote) -> (r: u128)
    ensures
        r == balanced_score(*q),
{
    let u: u128 = match parse_fee_units(q.estimated_fee.as_str()) {
        Some(u) => u,
        None => UNITS_PER_WHOLE,
    };
    let sec = q.security_score as u128 * 50_000_000;
    let time = 300_000_000_000_000u128 / (q.estimated_time_ms as u128 + 1000);
    let fee = 200_000_000_000_000_000_000_000_000_000u128 / (u + UNITS_PER_WHOLE);
    sec + time + fee
}

fn rank_exec(p: RoutePreference, q: &RouteQuote) -> (r: i128)
    ensures
        r == rank(p, *q),
{
    match p {
        RoutePreference::Speed => -(q.estimated_time_ms as i128),
        RoutePreference::Cost => match parse_fee_units(q.estimated_fee.as_str()) {
            Some(u) => -(u as i128),
            None => -1_000_000_000_000_000_000_000_000_000_000_000_000i128,
        },
        RoutePreference::Security => q.security_score as i128,
        RoutePreference::Balanced => balanced_score_exec(q) as i128,
    }
}

/// The position of the first best quote, or `None` for no quotes.
pub fn select_best_index(quotes: &[RouteQuote], preference: RoutePreference) -> (r: Option<
    usize,
>)
    ensures
        quotes@.len() == 0 <==> r is None,
        r matches Some(i) ==> is_first_best(quotes@, preference, i as int),
{
    if quotes.len() == 0 {
        return None;
    }
    let mut best: usize = 0;
    let mut best_rank = rank_exec(preference, &quotes[0]);
    let mut i: usize = 1;
    while i < quotes.len()
        invariant
            1 <= i <= quotes@.len(),
            best < i,
            best_rank == rank(preference, quotes@[best as int]),
            forall|j: int| 0 <= j < i ==> !prefers(preference, #[trigger] quotes@[j], quotes@[best as int]),
            forall|j: int| 0 <= j < best ==> prefers(preference, quotes@[best as int], #[trigger] quotes@[j]),
        decreases quotes@.len() - i,
    {
        let r = rank_exec(preference, &quotes[i]);
        if r > best_rank {
            best = i;
            best_rank = r;
        }
        i += 1;
    }
    Some(best)
}

/// A field-by-field copy of a quote.
pub fn copy_quote(q: &RouteQuote) -> (r: RouteQuote)
    ensures
        r@ == q@,
{
    let mut route: Vec<String> = Vec::new();
    let mut i: usize = 0;
    while i < q.route.len()
        invariant
            i <= q.route@.len(),
            route@ == q.route@.subrange(0, i as int),
        decreases q.route@.len() - i,
    {
        route.push(q.route[i].clone());
        assert(route@ =~= q.route@.subrange(0, i + 1));
        i += 1;
    }
    assert(route@ =~= q.route@);
    assert(route@.map_values(|h: String| h@) =~= q.route@.map_values(|h: String| h@));
    RouteQuote {
        agent_id: q.agent_id.clone(),
        estimated_fee: q.estimated_fee.clone(),
        estimated_time_ms: q.estimated_time_ms,
        route,
        security_score: q.security_score,
    }
}

/// Picks the best of `quotes` under the preference named `preference`; on
/// exact ties the earliest quote wins.
pub fn select_best_route(quotes: &[RouteQuote], preference: &str) -> (r: Result<RouteQuote, String>)
    ensures
        quotes@.len() == 0 ==> r is Err && r->Err_0@ == "no quotes available"@,
        quotes@.len() > 0 ==> (r matches Ok(q) && exists|i: int|
            is_first_best(quotes@, preference_named(preference@), i) && q@ == quotes@[i]@),
{
    let p = RoutePreference::from_name(preference);
    match select_best_index(quotes, p) {
        Some(i) => Ok(copy_quote(&quotes[i])),
        None => Err(String::from_str("no quotes available")),
    }
}

/// The name of the chain a request ends on: its target, or else its source.
pub open spec fn destination_name(req: TransactionRequest) -> Seq<char> {
    match req.target_chain {
        Some(c) => chain_name(c),
        None => chain_name(req.source_chain),
    }
}

/// The two quotes that the stand-in agent network offers for a request.
pub open spec fn offered_quotes(req: TransactionRequest) -> Seq<QuoteView> {
    seq![
        QuoteView {
            agent_id: "agent-001"@,
            estimated_fee: "0.05 USDC"@,
            estimated_time_ms: 15_000,
            route: seq![chain_name(req.source_chain), destination_name(req)],
            security_score: 9800,
        },
        QuoteView {
            agent_id: "agent-002"@,
            estimated_fee: "0.03 USDC"@,
            estimated_time_ms: 30_000,
            route: seq![chain_name(req.source_chain), "polygon"@, destination_name(req)],
            security_score: 8500,
        },
    ]
}

/// A stand-in for the agent network: fixed quotes, and the selection above.
pub struct MockAgentNegotiator {
    timeout_ms: u64,
}

fn destination(req: &TransactionRequest) -> (r: String)
    ensures
        r@ == destination_name(*req),
{
    match req.target_chain {
        Some(c) => c.to_string(),
        None => req.source_chain.to_string(),
    }
}

impl MockAgentNegotiator {
    pub closed spec fn wait_ms(&self) -> nat {
        self.timeout_ms as nat
    }

    /// Creates a negotiator that waits at most `timeout_ms` for agents.
    pub fn new(timeout_ms: u64) -> (r: MockAgentNegotiator)
        ensures
            r.wait_ms() == timeout_ms,
    {
        MockAgentNegotiator { timeout_ms }
    }

    /// The configured timeout, in milliseconds.
    pub fn timeout(&self) -> (r: u64)
        ensures
            r == self.wait_ms(),
    {
        self.timeout_ms
    }

    /// The quotes offered for `req`: a direct route and a cheaper, slower,
    /// less secure route through polygon.
    pub fn quotes_for(&self, req: &TransactionRequest) -> (r: Vec<RouteQuote>)
        ensures
            r@.len() == 2,
            r@[0]@ == offered_quotes(*req)[0],
            r@[1]@ == offered_quotes(*req)[1],
    {
        let first = RouteQuote {
            agent_id: String::from_str("agent-001"),
            estimated_fee: String::from_str("0.05 USDC"),
            estimated_time_ms: 15_000,
            route: vec![req.source_chain.to_string(), destination(req)],
            security_score: 9800,
        };
        let second = RouteQuote {
            agent_id: String::from_str("agent-002"),
            estimated_fee: String::from_str("0.03 USDC"),
            estimated_time_ms: 30_000,
            route: vec![req.source_chain.to_string(), String::from_str("polygon"), destination(req)],
            security_score: 8500,
        };
        assert(first.route@.map_values(|h: String| h@) =~= offered_quotes(*req)[0].route);
        assert(second.route@.map_values(|h: String| h@) =~= offered_quotes(*req)[1].route);
        vec![first, second]
    }

    /// Picks the best of `quotes` under the preference named `preference`.
    pub fn select_best_route(&self, quotes: &[RouteQuote], preference: &str) -> (r: Result<
        RouteQuote,
        String,
    >)
        ensures
            quotes@.len() == 0 ==> r is Err && r->Err_0@ == "no quotes available"@,
            quotes@.len() > 0 ==> (r matches Ok(q) && exists|i: int|
                is_first_best(quotes@, preference_named(preference@), i) && q@ == quotes@[i]@),
    {
        select_best_route(quotes, preference)
    }
}

/// The negotiator in use; a real agent network can take its place.
pub type AgentNegotiator = MockAgentNegotiator;

} // verus!
