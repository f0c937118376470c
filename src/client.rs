//! The execution pipeline: validation, rate gate, cache lookup, proof gate,
//! negotiation, settlement, cache write and metrics, in that order.
//!
//! The pipeline is a state machine driven by its caller. `begin` runs the
//! local stages and either finishes or asks for quotes; `on_quotes` takes
//! the quotes (or the failure to get them) and either finishes or names the
//! route to settle through; `on_settled` takes the settlement outcome and
//! finishes. Every finish records the outcome in the metrics exactly once.
//! Times are milliseconds on a monotonic clock: `start_ms` is when the
//! request entered the pipeline, `now_ms` the current reading.

use vstd::prelude::*;
use vstd::string::*;
use crate::agent::{is_first_best, offered_quotes, preference_named, select_best_route, MockAgentNegotiator, RoutePreference, RouteQuote};
use crate::cache::{expiry, lookup, Cache};
use crate::config::{config_error, config_valid, is_default_config, SdkConfig};
use crate::errors::{ErrorCode, SdkError};
use crate::fee::{fee_units, parse_fee_units};
use crate::monitoring::{recorded, Metrics, MetricsSnapshot, MetricsView};
use crate::rate_limiter::{check_step, limit_message, RateLimiter, RateLimiterConfig, RateWindow};
use crate::text::join;
use crate::types::{intent_name, ResponseView, TransactionRequest, TransactionResponse};
use crate::validator::{request_error, request_valid, validate_transaction_request};
use crate::zk::MockProofGenerator;

verus! {

/// Where the circuit of the proof gate lives.
pub const CIRCUIT_PATH: &'static str = "./circuits/spend.wasm";

/// What the caller of the pipeline does next.
#[derive(Debug)]
pub enum Step {
    /// Ask the quote source for quotes, then call `on_quotes`.
    FetchQuotes,
    /// Settle through this route, then call `on_settled`.
    Settle(RouteQuote),
    /// The request is finished.
    Done(Result<TransactionResponse, SdkError>),
}

/// The cache key of a request: its intent, amount and asset. Chains and
/// recipient are not part of it, so requests that differ only there share
/// one cached response.
pub open spec fn cache_key(req: TransactionRequest) -> Seq<char> {
    intent_name(req.intent_type) + "-"@ + req.amount@ + "-"@ + req.asset@
}

/// Builds the cache key of a request.
pub fn cache_key_of(req: &TransactionRequest) -> (r: String)
    ensures
        r@ == cache_key(*req),
{
    let k = join(req.intent_type.as_str(), "-");
    let k = k.concat(req.amount.as_str());
    let k = k.concat("-");
    k.concat(req.asset.as_str())
}

/// Milliseconds from `start` to `now`; zero if the clock reads earlier.
pub open spec fn elapsed(start: u64, now: u64) -> u64 {
    if now >= start {
        (now - start) as u64
    } else {
        0
    }
}

/// The fee that a successful outcome adds to the metrics: the fee text's
/// value in units, or zero if it cannot be read.
pub open spec fn fee_or_zero(fee: Seq<char>) -> nat {
    match fee_units(fee) {
        Some(u) => u,
        None => 0,
    }
}

/// The metrics after one finished request: recorded when metrics are on and
/// the counters are not full.
pub open spec fn metrics_after(m: MetricsView, enabled: bool, success: bool, fee: nat, latency: u64) -> MetricsView {
    if enabled && m.total < u64::MAX {
        recorded(m, success, fee, latency as nat)
    } else {
        m
    }
}

/// The cache after a lookup of `key` at `now`: an expired entry is gone.
pub open spec fn cache_after_lookup(
    c: Option<Map<Seq<char>, (ResponseView, u64)>>,
    key: Seq<char>,
    now: nat,
) -> Option<Map<Seq<char>, (ResponseView, u64)>> {
    match c {
        Some(m) => if lookup(m, key, now) is Some {
            Some(m)
        } else {
            Some(m.remove(key))
        },
        None => None,
    }
}

/// The response that a lookup in an optional cache finds.
pub open spec fn cached(c: Option<Map<Seq<char>, (ResponseView, u64)>>, key: Seq<char>, now: nat) -> Option<ResponseView> {
    match c {
        Some(m) => lookup(m, key, now),
        None => None,
    }
}

/// Two requests that agree on intent, amount and asset share a cache key:
/// once a response is cached for one, a lookup for the other before the
/// entry expires finds that same response, whatever their chains and
/// recipients.
pub proof fn lemma_cache_key_collision(
    a: TransactionRequest,
    b: TransactionRequest,
    entries: Map<Seq<char>, (ResponseView, u64)>,
    response: ResponseView,
    stored_at: nat,
    ttl: nat,
    now: nat,
)
    requires
        a.intent_type == b.intent_type,
        a.amount@ == b.amount@,
        a.asset@ == b.asset@,
        now < expiry(stored_at, ttl),
    ensures
        cache_key(a) == cache_key(b),
        cached(
            Some(entries.insert(cache_key(a), (response, expiry(stored_at, ttl)))),
            cache_key(b),
            now,
        ) == Some(response),
{
}

pub struct EasyCashClient {
    config: SdkConfig,
    zk: MockProofGenerator,
    negotiator: MockAgentNegotiator,
    cache: Option<Cache>,
    metrics: Metrics,
    limiter: RateLimiter,
}

/// An error whose message is a stage's prefix followed by the detail.
fn stage_error(code: ErrorCode, prefix: &str, detail: &str) -> (r: SdkError)
    ensures
        r.code == code,
        r.message@ == prefix@ + detail@,
        r.cause is None,
{
    let m = join(prefix, detail);
    SdkError::new(code, m.as_str())
}

impl EasyCashClient {
    pub closed spec fn config(&self) -> SdkConfig {
        self.config
    }

    pub closed spec fn metrics(&self) -> MetricsView {
        self.metrics@
    }

    /// The cached entries, or `None` when caching is off.
    pub closed spec fn cache(&self) -> Option<Map<Seq<char>, (ResponseView, u64)>> {
        match self.cache {
            Some(c) => Some(c.entries()),
            None => None,
        }
    }

    pub closed spec fn limit_config(&self) -> RateLimiterConfig {
        self.limiter.config()
    }

    pub closed spec fn limit_window(&self) -> RateWindow {
        self.limiter.window()
    }

    pub closed spec fn wf(&self) -> bool {
        &&& self.metrics.wf()
        &&& self.limiter.wf()
        &&& (self.cache is Some <==> self.config.enable_caching)
        &&& (self.cache matches Some(c) ==> c.ttl() == self.config.cache_ttl_ms)
        &&& self.negotiator.wait_ms() == self.config.timeout_ms
    }

    /// Creates a client from `config`, or from the defaults when it is
    /// `None`. Metrics start at zero, the cache (when on) empty, and rate
    /// limiting is off until `set_rate_limit` is called.
    pub fn new(config: Option<SdkConfig>) -> (r: Result<EasyCashClient, SdkError>)
        ensures
            config is Some ==> (r is Ok <==> config_valid(config->0)),
            config is Some && !config_valid(config->0) ==> (r matches Err(e) && e.code
                == ErrorCode::InvalidRequest && e.message@ == "invalid configuration: "@
                + config_error(config->0)),
            config is Some && config_valid(config->0) ==> (r matches Ok(client)
                && client.config() == config->0),
            config is None ==> (r matches Ok(client) && is_default_config(client.config())),
            r matches Ok(client) ==> {
                &&& client.wf()
                &&& client.metrics() == (MetricsView { total: 0, successful: 0, failed: 0, fee_units: 0, latency_ms: 0 })
                &&& client.cache() == if client.config().enable_caching {
                    Some(Map::<Seq<char>, (ResponseView, u64)>::empty())
                } else {
                    None
                }
                &&& !client.limit_config().enabled
            },
    {
        let cfg = match config {
            Some(c) => c,
            None => SdkConfig::default_config(),
        };
        match cfg.validate() {
            Ok(()) => {},
            Err(e) => {
                return Err(stage_error(ErrorCode::InvalidRequest, "invalid configuration: ", e.as_str()));
            },
        }
        let cache = if cfg.enable_caching {
            Some(Cache::new(cfg.cache_ttl_ms))
        } else {
            None
        };
        let negotiator = MockAgentNegotiator::new(cfg.timeout_ms);
        Ok(EasyCashClient {
            config: cfg,
            zk: MockProofGenerator::new(CIRCUIT_PATH),
            negotiator,
            cache,
            metrics: Metrics::new(),
            limiter: RateLimiter::disabled(),
        })
    }

    /// Puts every later request through a rate limiter with `limit`, whose
    /// first window begins at `now_ms`.
    pub fn set_rate_limit(&mut self, limit: RateLimiterConfig, now_ms: u64)
        requires
            old(self).wf(),
        ensures
            final(self).wf(),
            final(self).config() == old(self).config(),
            final(self).metrics() == old(self).metrics(),
            final(self).cache() == old(self).cache(),
            final(self).limit_config() == limit,
            final(self).limit_window() == (RateWindow { start: now_ms as nat, count: 0 }),
    {
        self.limiter = RateLimiter::new(limit, now_ms);
    }

    /// Records a finished outcome in the metrics and hands it back.
    fn finish(&mut self, result: Result<TransactionResponse, SdkError>, start_ms: u64, now_ms: u64) -> (r: Result<TransactionResponse, SdkError>)
        requires
            old(self).wf(),
        ensures
            final(self).wf(),
            final(self).config() == old(self).config(),
            final(self).cache() == old(self).cache(),
            final(self).limit_config() == old(self).limit_config(),
            final(self).limit_window() == old(self).limit_window(),
            r == result,
            final(self).metrics() == metrics_after(
                old(self).metrics(),
                old(self).config().enable_metrics,
                result is Ok,
                match result {
                    Ok(resp) => fee_or_zero(resp.fee_used@),
                    Err(_) => 0,
                },
                elapsed(start_ms, now_ms),
            ),
    {
        if self.config.enable_metrics && self.metrics.get_stats().total_transactions < u64::MAX {
            let latency = if now_ms >= start_ms {
                now_ms - start_ms
            } else {
                0
            };
            let (success, fee) = match &result {
                Ok(resp) => (true, match parse_fee_units(resp.fee_used.as_str()) {
                    Some(u) => u,
                    None => 0,
                }),
                Err(_) => (false, 0),
            };
            self.metrics.record_transaction(success, fee, latency);
        }
        result
    }

    /// Runs the local stages for `req`: validation, the rate gate, the cache
    /// lookup and the proof gate.
    pub fn begin(&mut self, req: &TransactionRequest, start_ms: u64, now_ms: u64) -> (r: Step)
        requires
            old(self).wf(),
        ensures
            final(self).wf(),
            final(self).config() == old(self).config(),
            final(self).limit_config() == old(self).limit_config(),
            !request_valid(*req) ==> {
                &&& r matches Step::Done(Err(e)) && e.code == ErrorCode::InvalidRequest
                    && e.message@ == "validation failed: "@ + request_error(*req)
                &&& final(self).cache() == old(self).cache()
                &&& final(self).limit_window() == old(self).limit_window()
                &&& final(self).metrics() == metrics_after(old(self).metrics(), old(self).config().enable_metrics, false, 0, elapsed(start_ms, now_ms))
            },
            request_valid(*req) ==> final(self).limit_window() == check_step(
                old(self).limit_config(),
                old(self).limit_window(),
                now_ms as nat,
            ).0,
            request_valid(*req) && !check_step(old(self).limit_config(), old(self).limit_window(), now_ms as nat).1 ==> {
                &&& r matches Step::Done(Err(e)) && e.code == ErrorCode::RateLimited
                    && e.message@ == limit_message(old(self).limit_config())
                &&& final(self).cache() == old(self).cache()
                &&& final(self).metrics() == metrics_after(old(self).metrics(), old(self).config().enable_metrics, false, 0, elapsed(start_ms, now_ms))
            },
            request_valid(*req) && check_step(old(self).limit_config(), old(self).limit_window(), now_ms as nat).1 ==> {
                &&& final(self).cache() == cache_after_lookup(old(self).cache(), cache_key(*req), now_ms as nat)
                &&& match cached(old(self).cache(), cache_key(*req), now_ms as nat) {
                    Some(v) => r matches Step::Done(Ok(resp)) && resp@ == v
                        && final(self).metrics() == metrics_after(old(self).metrics(), old(self).config().enable_metrics, true, fee_or_zero(v.fee_used), elapsed(start_ms, now_ms)),
                    None => r is FetchQuotes && final(self).metrics() == old(self).metrics(),
                }
            },
    {
        match validate_transaction_request(req) {
            Ok(()) => {},
            Err(e) => {
                let err = stage_error(ErrorCode::InvalidRequest, "validation failed: ", e.as_str());
                return Step::Done(self.finish(Err(err), start_ms, now_ms));
            },
        }
        match self.limiter.check(now_ms) {
            Ok(()) => {},
            Err(e) => {
                let err = SdkError::new(ErrorCode::RateLimited, e.as_str());
                return Step::Done(self.finish(Err(err), start_ms, now_ms));
            },
        }
        let key = cache_key_of(req);
        let hit = match &mut self.cache {
            Some(c) => c.get(key.as_str(), now_ms),
            None => None,
        };
        match hit {
            Some(resp) => {
                return Step::Done(self.finish(Ok(resp), start_ms, now_ms));
            },
            None => {},
        }
        if self.config.enable_zk_proofs && req.is_shielded {
            match self.zk.generate_solvency_proof(req.amount.as_str(), "0") {
                Ok(_) => {},
                Err(e) => {
                    let err = stage_error(ErrorCode::ProofGeneration, "failed to generate privacy proof: ", e.as_str());
                    return Step::Done(self.finish(Err(err), start_ms, now_ms));
                },
            }
        }
        Step::FetchQuotes
    }

    /// Takes the quotes for `req`, or the failure to get them, and picks the
    /// route under the balanced preference.
    pub fn on_quotes(&mut self, quotes: Result<Vec<RouteQuote>, String>, start_ms: u64, now_ms: u64) -> (r: Step)
        requires
            old(self).wf(),
        ensures
            final(self).wf(),
            final(self).config() == old(self).config(),
            final(self).cache() == old(self).cache(),
            final(self).limit_config() == old(self).limit_config(),
            final(self).limit_window() == old(self).limit_window(),
            quotes matches Err(m) ==> (r matches Step::Done(Err(e)) && e.code
                == ErrorCode::AgentUnavailable && e.message@ == "failed to get agent quotes: "@ + m@),
            quotes is Ok && quotes->Ok_0@.len() == 0 ==> (r matches Step::Done(Err(e)) && e.code
                == ErrorCode::AgentUnavailable && e.message@ == "no suitable route found: "@ + "no quotes available"@),
            quotes is Ok && quotes->Ok_0@.len() > 0 ==> (r matches Step::Settle(q) && exists|i: int|
                is_first_best(quotes->Ok_0@, RoutePreference::Balanced, i) && q@ == quotes->Ok_0@[i]@),
            quotes is Ok && quotes->Ok_0@.len() > 0 ==> final(self).metrics() == old(self).metrics(),
            !(quotes is Ok && quotes->Ok_0@.len() > 0) ==> final(self).metrics() == metrics_after(
                old(self).metrics(),
                old(self).config().enable_metrics,
                false,
                0,
                elapsed(start_ms, now_ms),
            ),
    {
        let qs = match quotes {
            Ok(qs) => qs,
            Err(m) => {
                let err = stage_error(ErrorCode::AgentUnavailable, "failed to get agent quotes: ", m.as_str());
                return Step::Done(self.finish(Err(err), start_ms, now_ms));
            },
        };
        proof {
            reveal_strlit("balanced");
            reveal_strlit("speed");
            reveal_strlit("cost");
            reveal_strlit("security");
            assert("balanced"@.len() != "speed"@.len());
            assert("balanced"@.len() != "cost"@.len());
            assert("balanced"@[0] != "security"@[0]);
            assert(preference_named("balanced"@) == RoutePreference::Balanced);
        }
        match select_best_route(qs.as_slice(), "balanced") {
            Ok(q) => Step::Settle(q),
            Err(m) => {
                let err = stage_error(ErrorCode::AgentUnavailable, "no suitable route found: ", m.as_str());
                Step::Done(self.finish(Err(err), start_ms, now_ms))
            },
        }
    }

    /// Takes the outcome of settling `req` through `route`: a transaction
    /// hash and block height, or a failure. On success the response is
    /// cached under the request's key.
    pub fn on_settled(
        &mut self,
        req: &TransactionRequest,
        route: &RouteQuote,
        settlement: Result<(String, u64), String>,
        start_ms: u64,
        now_ms: u64,
    ) -> (r: Result<TransactionResponse, SdkError>)
        requires
            old(self).wf(),
        ensures
            final(self).wf(),
            final(self).config() == old(self).config(),
            final(self).limit_config() == old(self).limit_config(),
            final(self).limit_window() == old(self).limit_window(),
            settlement matches Err(m) ==> {
                &&& r matches Err(e) && e.code == ErrorCode::NetworkFailure && e.message@
                    == "settlement failed: "@ + m@
                &&& final(self).cache() == old(self).cache()
                &&& final(self).metrics() == metrics_after(old(self).metrics(), old(self).config().enable_metrics, false, 0, elapsed(start_ms, now_ms))
            },
            settlement matches Ok(s) ==> {
                &&& r matches Ok(resp) && resp@ == (ResponseView {
                    tx_hash: s.0@,
                    status: "confirmed"@,
                    block_height: s.1,
                    fee_used: route.estimated_fee@,
                })
                &&& final(self).cache() == match old(self).cache() {
                    Some(m) => Some(m.insert(cache_key(*req), (r->Ok_0@, expiry(now_ms as nat, old(self).config().cache_ttl_ms as nat)))),
                    None => None,
                }
                &&& final(self).metrics() == metrics_after(old(self).metrics(), old(self).config().enable_metrics, true, fee_or_zero(route.estimated_fee@), elapsed(start_ms, now_ms))
            },
    {
        let (tx_hash, block_height) = match settlement {
            Ok(s) => s,
            Err(m) => {
                let err = stage_error(ErrorCode::NetworkFailure, "settlement failed: ", m.as_str());
                return self.finish(Err(err), start_ms, now_ms);
            },
        };
        let resp = TransactionResponse {
            tx_hash,
            status: String::from_str("confirmed"),
            block_height,
            fee_used: route.estimated_fee.clone(),
        };
        match &mut self.cache {
            Some(c) => {
                let key = cache_key_of(req);
                let stored = TransactionResponse {
                    tx_hash: resp.tx_hash.clone(),
                    status: resp.status.clone(),
                    block_height: resp.block_height,
                    fee_used: resp.fee_used.clone(),
                };
                c.set(key, stored, now_ms);
            },
            None => {},
        }
        self.finish(Ok(resp), start_ms, now_ms)
    }

    /// Removes every cached response that has expired at `now_ms`.
    pub fn sweep_cache(&mut self, now_ms: u64)
        requires
            old(self).wf(),
        ensures
            final(self).wf(),
            final(self).config() == old(self).config(),
            final(self).metrics() == old(self).metrics(),
            final(self).limit_config() == old(self).limit_config(),
            final(self).limit_window() == old(self).limit_window(),
            old(self).cache() is None ==> final(self).cache() is None,
            old(self).cache() matches Some(before) ==> (final(self).cache() matches Some(after)
                && forall|k: Seq<char>|
                #![trigger after.contains_key(k)]
                after.contains_key(k) <==> (before.contains_key(k) && now_ms < before[k].1)),
    {
        match &mut self.cache {
            Some(c) => c.sweep(now_ms),
            None => {},
        }
    }

    /// The quotes that the configured negotiator offers for `req`.
    pub fn quotes_for(&self, req: &TransactionRequest) -> (r: Vec<RouteQuote>)
        ensures
            r@.len() == 2,
            r@[0]@ == offered_quotes(*req)[0],
            r@[1]@ == offered_quotes(*req)[1],
    {
        self.negotiator.quotes_for(req)
    }

    /// The configured negotiator's timeout, in milliseconds.
    pub fn negotiation_timeout_ms(&self) -> (r: u64)
        requires
            self.wf(),
        ensures
            r == self.config().timeout_ms,
    {
        self.negotiator.timeout()
    }

    /// The current statistics, or `None` when metrics are off.
    pub fn get_metrics(&self) -> (r: Option<MetricsSnapshot>)
        requires
            self.wf(),
        ensures
            self.config().enable_metrics ==> r == Some(crate::monitoring::snapshot_of(self.metrics())),
            !self.config().enable_metrics ==> r is None,
    {
        if self.config.enable_metrics {
            Some(self.metrics.get_stats())
        } else {
            None
        }
    }
}

} // verus!
