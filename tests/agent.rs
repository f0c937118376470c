use ecash_sdk_core::agent::{select_best_index, MockAgentNegotiator, RoutePreference, RouteQuote};
use ecash_sdk_core::types::{ChainId, IntentType, TransactionRequest};

fn quote(id: &str, fee: &str, secs: u64, route: &[&str], security: u32) -> RouteQuote {
    RouteQuote {
        agent_id: id.to_string(),
        estimated_fee: fee.to_string(),
        estimated_time_ms: secs * 1000,
        route: route.iter().map(|h| h.to_string()).collect(),
        security_score: security,
    }
}

#[test]
fn test_request_quotes() {
    let negotiator = MockAgentNegotiator::new(30_000);
    let req = TransactionRequest {
        reference_id: "ref_001".to_string(),
        intent_type: IntentType::Transfer,
        amount: "1000.00".to_string(),
        asset: "USDC".to_string(),
        recipient: None,
        source_chain: ChainId::Base,
        target_chain: Some(ChainId::Ethereum),
        is_shielded: false,
    };

    let quotes = negotiator.quotes_for(&req);
    assert_eq!(quotes.len(), 2);
    assert_eq!(quotes[0].agent_id, "agent-001");
    assert_eq!(quotes[1].agent_id, "agent-002");
    assert_eq!(quotes[0].route, vec!["base".to_string(), "ethereum".to_string()]);
    assert_eq!(
        quotes[1].route,
        vec!["base".to_string(), "polygon".to_string(), "ethereum".to_string()]
    );
    assert_eq!(negotiator.timeout(), 30_000);
}

#[test]
fn request_quotes_without_target_stay_on_source() {
    let negotiator = MockAgentNegotiator::new(30_000);
    let req = TransactionRequest {
        reference_id: "ref_009".to_string(),
        intent_type: IntentType::Swap,
        amount: "1".to_string(),
        asset: "ETH".to_string(),
        recipient: None,
        source_chain: ChainId::Solana,
        target_chain: None,
        is_shielded: false,
    };
    let quotes = negotiator.quotes_for(&req);
    assert_eq!(quotes[0].route, vec!["solana".to_string(), "solana".to_string()]);
    assert_eq!(quotes[1].estimated_fee, "0.03 USDC");
    assert_eq!(quotes[1].security_score, 8500);
}

#[test]
fn test_select_best_route_balanced() {
    let negotiator = MockAgentNegotiator::new(30_000);
    let quotes = vec![
        quote("agent-001", "0.05 USDC", 15, &["base", "ethereum"], 9800),
        quote("agent-002", "0.03 USDC", 30, &["base", "polygon", "ethereum"], 8500),
    ];

    let best = negotiator.select_best_route(&quotes, "balanced").unwrap();
    assert_eq!(best.agent_id, "agent-001");
    assert_eq!(best.security_score, 9800);
}

#[test]
fn test_select_best_route_by_cost() {
    let negotiator = MockAgentNegotiator::new(30_000);
    let quotes = vec![
        quote("agent-001", "0.05 USDC", 15, &["base"], 9800),
        quote("agent-002", "0.02 USDC", 30, &["base"], 8500),
    ];

    let best = negotiator.select_best_route(&quotes, "cost").unwrap();
    assert_eq!(best.agent_id, "agent-002");
    assert_eq!(best.estimated_fee, "0.02 USDC");
}

#[test]
fn test_select_best_route_by_speed() {
    let negotiator = MockAgentNegotiator::new(30_000);
    let quotes = vec![
        quote("agent-001", "0.05 USDC", 60, &["base"], 9800),
        quote("agent-002", "0.10 USDC", 10, &["base"], 8500),
    ];

    let best = negotiator.select_best_route(&quotes, "speed").unwrap();
    assert_eq!(best.agent_id, "agent-002");
    assert_eq!(best.estimated_time_ms, 10_000);
}

#[test]
fn test_select_best_route_by_security() {
    let negotiator = MockAgentNegotiator::new(30_000);
    let quotes = vec![
        quote("agent-001", "0.01 USDC", 5, &["base"], 7000),
        quote("agent-002", "0.10 USDC", 60, &["base"], 9900),
    ];

    let best = negotiator.select_best_route(&quotes, "security").unwrap();
    assert_eq!(best.agent_id, "agent-002");
    assert_eq!(best.security_score, 9900);
}

#[test]
fn test_select_best_route_empty() {
    let negotiator = MockAgentNegotiator::new(30_000);
    let quotes: Vec<RouteQuote> = vec![];
    assert!(negotiator.select_best_route(&quotes, "balanced").is_err());
}

#[test]
fn empty_quotes_fail_under_every_preference() {
    let quotes: Vec<RouteQuote> = vec![];
    for p in ["speed", "cost", "security", "balanced", "anything"] {
        let r = ecash_sdk_core::agent::select_best_route(&quotes, p);
        assert_eq!(r.unwrap_err(), "no quotes available");
    }
}

#[test]
fn ties_go_to_the_first_quote() {
    let quotes = vec![
        quote("a", "0.05 USDC", 15, &["base"], 9000),
        quote("b", "0.05 USDC", 15, &["base"], 9000),
        quote("c", "0.05 USDC", 15, &["base"], 9000),
    ];
    for p in [
        RoutePreference::Speed,
        RoutePreference::Cost,
        RoutePreference::Security,
        RoutePreference::Balanced,
    ] {
        assert_eq!(select_best_index(&quotes, p), Some(0));
    }
}

#[test]
fn unreadable_fee_loses_on_cost_but_not_on_balance() {
    let quotes = vec![
        quote("a", "free", 1, &["base"], 10_000),
        quote("b", "0.90 USDC", 1, &["base"], 10_000),
    ];
    assert_eq!(select_best_index(&quotes, RoutePreference::Cost), Some(1));
    // An unreadable fee counts as 1.0 in the balanced score, which beats 0.90
    // only if it is lower; here 0.90 is lower, so b still wins.
    assert_eq!(select_best_index(&quotes, RoutePreference::Balanced), Some(1));
    let quotes = vec![
        quote("a", "garbage", 1, &["base"], 10_000),
        quote("b", "5 USDC", 1, &["base"], 10_000),
    ];
    assert_eq!(select_best_index(&quotes, RoutePreference::Cost), Some(1));
    assert_eq!(select_best_index(&quotes, RoutePreference::Balanced), Some(0));
    let only = vec![quote("a", "n/a", 1, &["base"], 0)];
    assert_eq!(select_best_index(&only, RoutePreference::Cost), Some(0));
}

#[test]
fn fees_compare_by_value_not_by_text() {
    let quotes = vec![
        quote("a", "0.5 USDC", 1, &["base"], 0),
        quote("b", "0.25 USDC", 1, &["base"], 0),
        quote("c", "  0.250000 USDC", 1, &["base"], 0),
    ];
    assert_eq!(select_best_index(&quotes, RoutePreference::Cost), Some(1));
}

#[test]
fn unknown_preference_means_balanced() {
    assert_eq!(RoutePreference::from_name("fastest"), RoutePreference::Balanced);
    assert_eq!(RoutePreference::from_name("speed"), RoutePreference::Speed);
    assert_eq!(RoutePreference::from_name("cost"), RoutePreference::Cost);
    assert_eq!(RoutePreference::from_name("security"), RoutePreference::Security);
}
