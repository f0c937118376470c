//! A response cache with a time to live per entry.
//!
//! Entries live in a `dashmap::DashMap`. An entry is never handed out once
//! its expiry time is reached; a lookup that finds an expired entry removes
//! it, and `sweep` removes every expired entry. Time is handed in by the
//! caller as milliseconds on a monotonic clock.

use vstd::prelude::*;
use dashmap::DashMap;
use crate::types::{ResponseView, TransactionResponse};

verus! {

/// Relies on `dashmap::DashMap` as a map from keys to values.
#[verifier::external_type_specification]
#[verifier::external_body]
#[verifier::reject_recursive_types(K)]
#[verifier::reject_recursive_types(V)]
#[verifier::reject_recursive_types(S)]
pub struct ExDashMap<K, V, S>(DashMap<K, V, S>);

/// The map that holds the entries of a cache.
pub type CacheMap = DashMap<String, CacheEntry>;

/// A cached response and the time at which it expires.
#[derive(Debug, Clone)]
pub struct CacheEntry {
    pub value: TransactionResponse,
    pub expires_at_ms: u64,
}

impl CacheEntry {
    /// Whether the entry may still be handed out at `now_ms`.
    pub fn is_live(&self, now_ms: u64) -> (r: bool)
        ensures
            r == (now_ms < self.expires_at_ms),
    {
        now_ms < self.expires_at_ms
    }
}

/// What a cache map holds: for each key, the response and its expiry time.
pub uninterp spec fn entries_of(m: CacheMap) -> Map<Seq<char>, (ResponseView, u64)>;

/// The entries of an empty cache.
pub open spec fn no_entries() -> Map<Seq<char>, (ResponseView, u64)> {
    Map::empty()
}

/// Relies on `DashMap::new`: a new map is empty.
#[verifier::external_body]
fn map_new() -> (r: CacheMap)
    ensures
        entries_of(r) == no_entries(),
{
    DashMap::new()
}

/// Relies on `DashMap::insert`: the key maps to the entry afterwards,
/// replacing any earlier entry, and nothing else changes.
#[verifier::external_body]
fn map_insert(m: &mut CacheMap, key: String, entry: CacheEntry)
    ensures
        entries_of(*final(m)) == entries_of(*old(m)).insert(
            key@,
            (entry.value@, entry.expires_at_ms),
        ),
{
    m.insert(key, entry);
}

/// Relies on `DashMap::get`: it finds the entry of a key, which is cloned.
#[verifier::external_body]
fn map_get(m: &CacheMap, key: &str) -> (r: Option<CacheEntry>)
    ensures
        entries_of(*m).contains_key(key@) <==> r is Some,
        r matches Some(e) ==> (e.value@, e.expires_at_ms) == entries_of(*m)[key@],
{
    m.get(key).map(|e| e.value().clone())
}

/// Relies on `DashMap::remove`: the key has no entry afterwards.
#[verifier::external_body]
fn map_remove(m: &mut CacheMap, key: &str)
    ensures
        entries_of(*final(m)) == entries_of(*old(m)).remove(key@),
{
    m.remove(key);
}

/// Relies on `DashMap::retain`: it keeps exactly the entries for which the
/// predicate holds.
#[verifier::external_body]
fn map_retain_live(m: &mut CacheMap, now_ms: u64)
    ensures
        entries_of(*final(m)) == entries_of(*old(m)).restrict(
            Set::new(|k: Seq<char>| entries_of(*old(m)).contains_key(k) && now_ms < entries_of(*old(m))[k].1),
        ),
{
    m.retain(|_, e| e.is_live(now_ms));
}

/// What a lookup of `key` at `now` returns: the response, unless it is
/// absent or expired.
pub open spec fn lookup(entries: Map<Seq<char>, (ResponseView, u64)>, key: Seq<char>, now: nat) -> Option<ResponseView> {
    if entries.contains_key(key) && now < entries[key].1 {
        Some(entries[key].0)
    } else {
        None
    }
}

/// The expiry time of an entry stored at `now` with time to live `ttl`; a
/// time beyond the clock's range stays at its end.
pub open spec fn expiry(now: nat, ttl: nat) -> u64 {
    if now + ttl > u64::MAX {
        u64::MAX
    } else {
        (now + ttl) as u64
    }
}

/// A value stored at `now` is found by a lookup at that same time, for any
/// time to live above zero (short of the clock's very last millisecond).
pub proof fn lemma_set_then_get(
    entries: Map<Seq<char>, (ResponseView, u64)>,
    key: Seq<char>,
    value: ResponseView,
    now: u64,
    ttl: nat,
)
    requires
        ttl > 0,
        now < u64::MAX,
    ensures
        lookup(entries.insert(key, (value, expiry(now as nat, ttl))), key, now as nat) == Some(value),
{
}

/// A value stored at `now` with time to live `ttl` is no longer found once
/// `ttl` has elapsed.
pub proof fn lemma_expired_after_ttl(
    entries: Map<Seq<char>, (ResponseView, u64)>,
    key: Seq<char>,
    value: ResponseView,
    now: u64,
    ttl: nat,
    later: nat,
)
    requires
        later >= now + ttl,
    ensures
        lookup(entries.insert(key, (value, expiry(now as nat, ttl))), key, later) is None,
{
}

pub struct Cache {
    items: CacheMap,
    ttl_ms: u64,
}

impl Cache {
    /// The entries held, live or expired.
    pub closed spec fn entries(&self) -> Map<Seq<char>, (ResponseView, u64)> {
        entries_of(self.items)
    }

    pub closed spec fn ttl(&self) -> nat {
        self.ttl_ms as nat
    }

    /// Creates an empty cache whose entries live for `ttl_ms`.
    pub fn new(ttl_ms: u64) -> (r: Cache)
        ensures
            r.entries() == no_entries(),
            r.ttl() == ttl_ms,
    {
        Cache { items: map_new(), ttl_ms }
    }

    /// The time to live of an entry, in milliseconds.
    pub fn ttl_ms(&self) -> (r: u64)
        ensures
            r == self.ttl(),
    {
        self.ttl_ms
    }

    /// Stores `value` under `key` at time `now_ms`, replacing any entry.
    pub fn set(&mut self, key: String, value: TransactionResponse, now_ms: u64)
        ensures
            final(self).ttl() == old(self).ttl(),
            final(self).entries() == old(self).entries().insert(
                key@,
                (value@, expiry(now_ms as nat, old(self).ttl())),
            ),
    {
        let expires_at_ms = now_ms.saturating_add(self.ttl_ms);
        map_insert(&mut self.items, key, CacheEntry { value, expires_at_ms });
    }

    /// Looks `key` up at time `now_ms`. An expired entry found on the way is
    /// removed.
    pub fn get(&mut self, key: &str, now_ms: u64) -> (r: Option<TransactionResponse>)
        ensures
            final(self).ttl() == old(self).ttl(),
            match lookup(old(self).entries(), key@, now_ms as nat) {
                Some(v) => r matches Some(x) && x@ == v,
                None => r is None,
            },
            lookup(old(self).entries(), key@, now_ms as nat) is Some ==> final(self).entries()
                == old(self).entries(),
            lookup(old(self).entries(), key@, now_ms as nat) is None ==> final(self).entries()
                == old(self).entries().remove(key@),
    {
        match map_get(&self.items, key) {
            Some(e) => {
                if e.is_live(now_ms) {
                    Some(e.value)
                } else {
                    map_remove(&mut self.items, key);
                    None
                }
            },
            None => {
                assert(old(self).entries().remove(key@) =~= old(self).entries());
                None
            },
        }
    }

    /// Removes the entry of `key`, if any.
    pub fn delete(&mut self, key: &str)
        ensures
            final(self).ttl() == old(self).ttl(),
            final(self).entries() == old(self).entries().remove(key@),
    {
        map_remove(&mut self.items, key);
    }

    /// Removes every entry that has expired at `now_ms`.
    pub fn sweep(&mut self, now_ms: u64)
        ensures
            final(self).ttl() == old(self).ttl(),
            forall|k: Seq<char>|
                #![trigger final(self).entries().contains_key(k)]
                final(self).entries().contains_key(k) <==> (old(self).entries().contains_key(k)
                    && now_ms < old(self).entries()[k].1),
            forall|k: Seq<char>|
                #![trigger final(self).entries()[k]]
                final(self).entries().contains_key(k) ==> final(self).entries()[k]
                    == old(self).entries()[k],
    {
        map_retain_live(&mut self.items, now_ms);
    }
}

} // verus!
