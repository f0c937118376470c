use ecash_sdk_core::cache::Cache;
use ecash_sdk_core::types::TransactionResponse;

fn response(hash: &str) -> TransactionResponse {
    TransactionResponse {
        tx_hash: hash.to_string(),
        status: "confirmed".to_string(),
        block_height: 7,
        fee_used: "0.05 USDC".to_string(),
    }
}

#[test]
fn test_cache_set_get() {
    let mut cache = Cache::new(60_000);
    cache.set("key1".to_string(), response("value1"), 0);
    assert_eq!(cache.get("key1", 0), Some(response("value1")));
}

#[test]
fn test_cache_expiration() {
    let mut cache = Cache::new(100);
    cache.set("key1".to_string(), response("value1"), 0);
    assert_eq!(cache.get("key1", 0), Some(response("value1")));
    assert_eq!(cache.get("key1", 150), None);
}

#[test]
fn test_cache_delete() {
    let mut cache = Cache::new(60_000);
    cache.set("key1".to_string(), response("value1"), 0);
    cache.delete("key1");
    assert_eq!(cache.get("key1", 1), None);
    cache.delete("key1");
}

#[test]
fn test_cache_multiple_keys() {
    let mut cache = Cache::new(60_000);
    cache.set("key1".to_string(), response("value1"), 0);
    cache.set("key2".to_string(), response("value2"), 0);
    assert_eq!(cache.get("key1", 1), Some(response("value1")));
    assert_eq!(cache.get("key2", 1), Some(response("value2")));
}

#[test]
fn cache_entry_expires_exactly_at_its_time() {
    let mut cache = Cache::new(100);
    cache.set("k".to_string(), response("v"), 1000);
    assert_eq!(cache.get("k", 1099), Some(response("v")));
    assert_eq!(cache.get("k", 1100), None);
    // The expired entry was removed: a later set starts afresh.
    cache.set("k".to_string(), response("w"), 1100);
    assert_eq!(cache.get("k", 1150), Some(response("w")));
}

#[test]
fn cache_overwrite_and_sweep() {
    let mut cache = Cache::new(100);
    cache.set("a".to_string(), response("old"), 0);
    cache.set("a".to_string(), response("new"), 50);
    cache.set("b".to_string(), response("b"), 0);
    cache.sweep(120);
    assert_eq!(cache.get("a", 120), Some(response("new")));
    assert_eq!(cache.get("b", 10), None);
    assert_eq!(cache.ttl_ms(), 100);
}
