use vstd::prelude::*;

use crate::cloud::CacheStats;
use crate::models::ApiError;

verus! {

/// The least-recently-used map of the `lru` crate.
#[verifier::external_type_specification]
#[verifier::external_body]
#[verifier::reject_recursive_types(K)]
#[verifier::reject_recursive_types(V)]
#[verifier::reject_recursive_types(S)]
pub struct ExLruCache<K, V, S>(lru::LruCache<K, V, S>);

/// What the cache keeps per key: the cached text, when it was stored (in
/// milliseconds since the epoch) and how long it stays fresh (in seconds).
pub type Stored = (String, i64, u64);

/// The map behind the cache.
pub type Lru = lru::LruCache<String, Stored, std::collections::hash_map::RandomState>;

/// The plain value of a stored entry.
pub type Slot = (Seq<char>, (Seq<char>, i64, u64));

/// The entries of an lru map, least recently used first.
pub uninterp spec fn lru_slots(c: lru::LruCache<String, (String, i64, u64), std::collections::hash_map::RandomState>) -> Seq<
    (Seq<char>, (Seq<char>, i64, u64)),
>;

/// The capacity that an lru map was made with.
pub uninterp spec fn lru_capacity(c: lru::LruCache<String, (String, i64, u64), std::collections::hash_map::RandomState>) -> nat;

pub open spec fn stored_view(v: Stored) -> (Seq<char>, i64, u64) {
    (v.0@, v.1, v.2)
}

/// The position of an entry with key `k`, or -1.
pub open spec fn slot_index(s: Seq<Slot>, k: Seq<char>) -> int {
    if exists|i: int| 0 <= i < s.len() && (#[trigger] s[i]).0 == k {
        choose|i: int| 0 <= i < s.len() && (#[trigger] s[i]).0 == k
    } else {
        -1
    }
}

/// The entries without the one of key `k`.
pub open spec fn without_slot(s: Seq<Slot>, k: Seq<char>) -> Seq<Slot> {
    if slot_index(s, k) >= 0 {
        s.remove(slot_index(s, k))
    } else {
        s
    }
}

/// The entries after a lookup of key `k`: it becomes the most recent.
pub open spec fn touched(s: Seq<Slot>, k: Seq<char>) -> Seq<Slot> {
    if slot_index(s, k) >= 0 {
        without_slot(s, k).push(s[slot_index(s, k)])
    } else {
        s
    }
}

/// The entries after storing `v` under `k` with capacity `cap`: an entry of
/// that key is replaced, else the least recent entry leaves a full map; the
/// new entry is the most recent.
pub open spec fn put_slots(s: Seq<Slot>, cap: nat, k: Seq<char>, v: (Seq<char>, i64, u64)) -> Seq<
    Slot,
> {
    if slot_index(s, k) >= 0 {
        without_slot(s, k).push((k, v))
    } else if s.len() >= cap {
        s.drop_first().push((k, v))
    } else {
        s.push((k, v))
    }
}

/// Relies on `LruCache::with_hasher`: an empty map that holds at most `cap` entries.
#[verifier::external_body]
fn lru_new(cap: usize) -> (r: Lru)
    requires
        cap > 0,
    ensures
        lru_slots(r) == Seq::<Slot>::empty(),
        lru_capacity(r) == cap,
{
    lru::LruCache::with_hasher(
        std::num::NonZeroUsize::new(cap).unwrap(),
        std::collections::hash_map::RandomState::new(),
    )
}

/// Relies on `LruCache::put`: replaces the entry of the key, or evicts the
/// least recently used entry when the map is full; the entry becomes the
/// most recent.
#[verifier::external_body]
fn lru_put(c: &mut Lru, k: String, v: Stored)
    ensures
        lru_capacity(*final(c)) == lru_capacity(*old(c)),
        lru_slots(*final(c)) == put_slots(lru_slots(*old(c)), lru_capacity(*old(c)), k@, stored_view(v)),
{
    c.put(k, v);
}

/// Relies on `LruCache::get`: a copy of the key's entry, which becomes the
/// most recent; the map is unchanged where the key is absent.
#[verifier::external_body]
fn lru_get(c: &mut Lru, k: &str) -> (r: Option<Stored>)
    ensures
        lru_capacity(*final(c)) == lru_capacity(*old(c)),
        lru_slots(*final(c)) == touched(lru_slots(*old(c)), k@),
        slot_index(lru_slots(*old(c)), k@) >= 0 ==> (r matches Some(v) && stored_view(v)
            == lru_slots(*old(c))[slot_index(lru_slots(*old(c)), k@)].1),
        slot_index(lru_slots(*old(c)), k@) < 0 ==> r is None,
{
    c.get(k).cloned()
}

/// Relies on `LruCache::pop`: removes the key's entry.
#[verifier::external_body]
fn lru_pop(c: &mut Lru, k: &str)
    ensures
        lru_capacity(*final(c)) == lru_capacity(*old(c)),
        lru_slots(*final(c)) == without_slot(lru_slots(*old(c)), k@),
{
    c.pop(k);
}

/// Relies on `LruCache::len`: the number of entries.
#[verifier::external_body]
fn lru_len(c: &Lru) -> (r: usize)
    ensures
        r == lru_slots(*c).len(),
{
    c.len()
}

/// Relies on `LruCache::clear`: removes every entry.
#[verifier::external_body]
fn lru_clear(c: &mut Lru)
    ensures
        lru_capacity(*final(c)) == lru_capacity(*old(c)),
        lru_slots(*final(c)) == Seq::<Slot>::empty(),
{
    c.clear();
}

/// Relies on `chrono::Utc::now` and `DateTime::timestamp_millis`: the current
/// time in milliseconds since the epoch.
#[verifier::external_body]
fn now_millis() -> (r: i64) {
    chrono::Utc::now().timestamp_millis()
}

/// The capacity of the map when the cache is made with `capacity` (zero
/// gives a default).
pub const DEFAULT_CACHE_CAPACITY: usize = 100;

/// Whole seconds from `created_ms` to `now_ms`, rounded toward zero.
pub open spec fn elapsed_seconds(created_ms: i64, now_ms: i64) -> int {
    let d = now_ms - created_ms;
    if d >= 0 {
        d / 1000
    } else {
        -((-d) / 1000)
    }
}

/// An entry stored at `created_ms` with `ttl` seconds of freshness is stale
/// at `now_ms`: the elapsed seconds, read as an unsigned number (a clock that
/// went back reads as a huge time), exceed the freshness.
pub open spec fn is_stale(created_ms: i64, ttl: u64, now_ms: i64) -> bool {
    let e = elapsed_seconds(created_ms, now_ms);
    let unsigned = if e >= 0 {
        e
    } else {
        e + 0x1_0000_0000_0000_0000
    };
    unsigned > ttl
}

/// Whether an entry is stale.
pub fn stale(created_ms: i64, ttl: u64, now_ms: i64) -> (r: bool)
    ensures
        r == is_stale(created_ms, ttl, now_ms),
{
    let d: i128 = now_ms as i128 - created_ms as i128;
    let e: i128 = if d >= 0 {
        d / 1000
    } else {
        0 - ((0 - d) / 1000)
    };
    let unsigned: i128 = if e >= 0 {
        e
    } else {
        e + 0x1_0000_0000_0000_0000
    };
    unsigned > ttl as i128
}

pub open spec fn bumped(n: u64) -> u64 {
    if n < u64::MAX {
        (n + 1) as u64
    } else {
        n
    }
}

fn bump(n: u64) -> (r: u64)
    ensures
        r == bumped(n),
{
    if n < u64::MAX {
        n + 1
    } else {
        n
    }
}

/// A response cache with least-recently-used eviction, per-entry freshness
/// and hit/miss counters.
pub struct Cache {
    entries: Lru,
    hits: u64,
    misses: u64,
    size: usize,
    capacity: usize,
}

impl Cache {
    /// The entries, least recently used first.
    pub closed spec fn slots(&self) -> Seq<Slot> {
        lru_slots(self.entries)
    }

    /// The most entries the cache holds.
    pub closed spec fn limit(&self) -> nat {
        lru_capacity(self.entries)
    }

    pub closed spec fn stats(&self) -> CacheStats {
        CacheStats { hits: self.hits, misses: self.misses, size: self.size, capacity: self.capacity }
    }

    /// An empty cache of `capacity` entries (a default number where it is zero).
    pub fn new(capacity: usize) -> (r: Cache)
        ensures
            r.slots() == Seq::<Slot>::empty(),
            r.limit() == if capacity == 0 {
                DEFAULT_CACHE_CAPACITY
            } else {
                capacity
            },
            r.stats() == (CacheStats { hits: 0, misses: 0, size: 0, capacity }),
    {
        let cap = if capacity == 0 {
            DEFAULT_CACHE_CAPACITY
        } else {
            capacity
        };
        Cache { entries: lru_new(cap), hits: 0, misses: 0, size: 0, capacity }
    }

    /// The fresh text under `key` at time `now_ms`. A hit makes the entry the
    /// most recent and counts a hit; a stale entry is dropped and counts a
    /// miss, as does an absent key.
    pub fn get_at(&mut self, key: &str, now_ms: i64) -> (r: Option<String>)
        ensures
            final(self).limit() == old(self).limit(),
            final(self).stats().size == old(self).stats().size,
            final(self).stats().capacity == old(self).stats().capacity,
            ({
                let s = old(self).slots();
                let i = slot_index(s, key@);
                if i < 0 {
                    &&& r is None
                    &&& final(self).slots() == s
                    &&& final(self).stats().hits == old(self).stats().hits
                    &&& final(self).stats().misses == bumped(old(self).stats().misses)
                } else if is_stale(s[i].1.1, s[i].1.2, now_ms) {
                    &&& r is None
                    &&& final(self).slots() == without_slot(touched(s, key@), key@)
                    &&& final(self).stats().hits == old(self).stats().hits
                    &&& final(self).stats().misses == bumped(old(self).stats().misses)
                } else {
                    &&& r matches Some(v) && v@ == s[i].1.0
                    &&& final(self).slots() == touched(s, key@)
                    &&& final(self).stats().hits == bumped(old(self).stats().hits)
                    &&& final(self).stats().misses == old(self).stats().misses
                }
            }),
    {
        match lru_get(&mut self.entries, key) {
            Some(entry) => {
                if stale(entry.1, entry.2, now_ms) {
                    lru_pop(&mut self.entries, key);
                    self.misses = bump(self.misses);
                    None
                } else {
                    self.hits = bump(self.hits);
                    Some(entry.0)
                }
            },
            None => {
                self.misses = bump(self.misses);
                None
            },
        }
    }

    /// `get_at` at the current time.
    pub fn get(&mut self, key: &str) -> (r: Option<String>)
        ensures
            final(self).limit() == old(self).limit(),
            final(self).stats().size == old(self).stats().size,
            r matches Some(v) ==> slot_index(old(self).slots(), key@) >= 0 && v@ == old(
                self,
            ).slots()[slot_index(old(self).slots(), key@)].1.0,
            slot_index(old(self).slots(), key@) < 0 ==> r is None,
    {
        let now = now_millis();
        self.get_at(key, now)
    }

    /// Stores `value` under `key` at time `now_ms`, fresh for `ttl_seconds`.
    pub fn set_at(&mut self, key: String, value: String, ttl_seconds: u64, now_ms: i64)
        ensures
            final(self).limit() == old(self).limit(),
            final(self).slots() == put_slots(
                old(self).slots(),
                old(self).limit(),
                key@,
                (value@, now_ms, ttl_seconds),
            ),
            final(self).stats() == (CacheStats {
                size: final(self).slots().len() as usize,
                ..old(self).stats()
            }),
    {
        lru_put(&mut self.entries, key, (value, now_ms, ttl_seconds));
        self.size = lru_len(&self.entries);
    }

    /// `set_at` at the current time.
    pub fn set(&mut self, key: String, value: String, ttl_seconds: u64)
        ensures
            final(self).limit() == old(self).limit(),
            exists|now: i64|
                final(self).slots() == put_slots(
                    old(self).slots(),
                    old(self).limit(),
                    key@,
                    (value@, now, ttl_seconds),
                ),
            final(self).stats() == (CacheStats {
                size: final(self).slots().len() as usize,
                ..old(self).stats()
            }),
    {
        let now = now_millis();
        self.set_at(key, value, ttl_seconds, now);
    }

    /// Drops every entry and resets the counters.
    pub fn clear(&mut self)
        ensures
            final(self).limit() == old(self).limit(),
            final(self).slots() == Seq::<Slot>::empty(),
            final(self).stats() == (CacheStats {
                hits: 0,
                misses: 0,
                size: 0,
                capacity: old(self).stats().capacity,
            }),
    {
        lru_clear(&mut self.entries);
        self.hits = 0;
        self.misses = 0;
        self.size = 0;
    }

    /// The counters.
    pub fn get_stats(&self) -> (r: CacheStats)
        ensures
            r == self.stats(),
    {
        CacheStats { hits: self.hits, misses: self.misses, size: self.size, capacity: self.capacity }
    }

    /// Drops the entry of `key`.
    pub fn remove(&mut self, key: &str)
        ensures
            final(self).limit() == old(self).limit(),
            final(self).slots() == without_slot(old(self).slots(), key@),
            final(self).stats() == (CacheStats {
                size: final(self).slots().len() as usize,
                ..old(self).stats()
            }),
    {
        lru_pop(&mut self.entries, key);
        self.size = lru_len(&self.entries);
    }
}

/// The key under which the tunnel list is cached.
pub const TUNNEL_CACHE_KEY: &'static str = "tunnels_list";

/// How long the cached tunnel list stays fresh, in seconds.
pub const TUNNEL_CACHE_TTL: u64 = 300;

/// An answer that carries cached data, with the failure that made it necessary.
pub const SERVED_FROM_CACHE: u32 = 2000;

/// Whether a failed listing may fall back to cached data: only where the
/// network failed or the credentials were refused.
pub fn falls_back_to_cache(error_code: u32) -> (r: bool)
    ensures
        r == (error_code == 1008 || error_code == 1009),
{
    error_code == 1008 || error_code == 1009
}

/// The note attached to an answer served from the cache.
pub fn offline_note(failure: &str) -> (r: ApiError)
    ensures
        r.code == SERVED_FROM_CACHE,
        r.message@ == "offline mode (cached data): "@ + failure@,
{
    ApiError { code: SERVED_FROM_CACHE, message: String::from_str("offline mode (cached data): ").concat(failure) }
}

} // verus!
