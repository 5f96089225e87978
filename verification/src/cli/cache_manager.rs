//! The analysis cache: keys, entries with an expiry, statistics, and the
//! decisions taken on a lookup. The entries themselves live in an embedded
//! key-value store driven by the front end.
use vstd::prelude::*;
use super::change_detector::unix_seconds_now;
use super::facts::{clone_facts, CodeSmellFact};

verus! {

/// Errors of the analysis cache.
#[derive(Debug)]
pub enum CacheError {
    /// The key-value store failed.
    RocksDB(String),
    /// An entry could not be encoded or decoded.
    Serialization(String),
    /// Reading or writing files failed.
    Io(String),
    /// Any other error.
    Custom { message: String },
}

/// The text of a cache error.
pub open spec fn cache_error_text(e: CacheError) -> Seq<char> {
    match e {
        CacheError::RocksDB(m) => "RocksDB error: "@ + m@,
        CacheError::Serialization(m) => "Serialization error: "@ + m@,
        CacheError::Io(m) => "IO error: "@ + m@,
        CacheError::Custom { message } => "Custom error: "@ + message@,
    }
}

impl CacheError {
    /// A custom error.
    pub fn msg(message: &str) -> (e: Self)
        ensures
            e matches CacheError::Custom { message: m } && m@ == message@,
    {
        CacheError::Custom { message: String::from_str(message) }
    }

    /// The error's text.
    pub fn to_string(&self) -> (s: String)
        ensures
            s@ == cache_error_text(*self),
    {
        match self {
            CacheError::RocksDB(m) => String::from_str("RocksDB error: ").concat(m.as_str()),
            CacheError::Serialization(m) => String::from_str("Serialization error: ").concat(m.as_str()),
            CacheError::Io(m) => String::from_str("IO error: ").concat(m.as_str()),
            CacheError::Custom { message } => String::from_str("Custom error: ").concat(message.as_str()),
        }
    }
}

/// Key of a cache entry: a file, the hash of its content and the time it
/// was last modified.
#[derive(Debug, Clone, PartialEq, Eq, Hash)]
pub struct CacheKey {
    pub path: String,
    pub file_hash: String,
    /// Modification time, in seconds since the Unix epoch
    pub modified_at: u64,
}

impl CacheKey {
    /// The key of a file, given its modification time in seconds since the
    /// Unix epoch as the file system reports it (none where it cannot).
    pub fn from_file(path: &str, file_hash: String, modified: Option<u64>) -> (k: Self)
        ensures
            k.path@ == path@,
            k.file_hash == file_hash,
            k.modified_at == match modified {
                Some(t) => t,
                None => 0,
            },
    {
        let modified_at = match modified {
            Some(t) => t,
            None => 0,
        };
        CacheKey { path: String::from_str(path), file_hash, modified_at }
    }
}

/// A cache entry: the facts found in a file, with its lifetime.
#[derive(Debug, Clone)]
pub struct CacheValue {
    pub facts: Vec<CodeSmellFact>,
    /// Creation time, in seconds since the Unix epoch
    pub created_at: u64,
    /// Expiry time, in seconds since the Unix epoch
    pub expires_at: Option<u64>,
    pub access_count: u64,
}

/// The expiry of an entry created at `now` with a lifetime of `ttl` seconds,
/// the latest time that a 64-bit count of seconds holds where the sum does
/// not fit.
pub open spec fn expiry(now: u64, ttl: Option<u64>) -> Option<u64> {
    match ttl {
        Some(t) => Some(if now + t <= u64::MAX { (now + t) as u64 } else { u64::MAX }),
        None => None,
    }
}

/// Whether an entry has expired at time `now`.
pub open spec fn expired_at(v: CacheValue, now: u64) -> bool {
    match v.expires_at {
        Some(e) => now >= e,
        None => false,
    }
}

/// An entry created with a time to live stays alive for exactly that many
/// seconds; an entry without one never expires.
pub proof fn law_entry_lives_for_its_ttl(v: CacheValue, now: u64, ttl: Option<u64>, t: u64)
    requires
        v.expires_at == expiry(now, ttl),
        ttl matches Some(s) ==> now + s <= u64::MAX,
    ensures
        ttl matches Some(s) ==> (expired_at(v, t) <==> t >= now + s),
        ttl is None ==> !expired_at(v, t),
{
}

impl CacheValue {
    /// An entry created now, expiring after `ttl_seconds` where given.
    pub fn new(facts: Vec<CodeSmellFact>, ttl_seconds: Option<u64>) -> (v: Self)
        ensures
            v.facts == facts,
            v.expires_at == expiry(v.created_at, ttl_seconds),
            v.access_count == 0,
    {
        let now = unix_seconds_now();
        CacheValue::created_at(facts, ttl_seconds, now)
    }

    /// An entry created at time `now`, expiring after `ttl_seconds` where
    /// given.
    pub fn created_at(facts: Vec<CodeSmellFact>, ttl_seconds: Option<u64>, now: u64) -> (v: Self)
        ensures
            v.facts == facts,
            v.created_at == now,
            v.expires_at == expiry(now, ttl_seconds),
            v.access_count == 0,
    {
        let expires_at = match ttl_seconds {
            Some(ttl) => Some(now.saturating_add(ttl)),
            None => None,
        };
        CacheValue { facts, created_at: now, expires_at, access_count: 0 }
    }

    /// Whether the entry has expired at time `now`.
    pub fn is_expired_at(&self, now: u64) -> (b: bool)
        ensures
            b == expired_at(*self, now),
    {
        match self.expires_at {
            Some(e) => now >= e,
            None => false,
        }
    }

    /// Whether the entry has expired by the machine's clock: whether it has
    /// expired at the time that the clock gives. An entry without an expiry
    /// never expires.
    pub fn is_expired(&self) -> (b: bool)
        ensures
            exists|now: u64| b == #[trigger] expired_at(*self, now),
            b ==> self.expires_at is Some,
    {
        let now = unix_seconds_now();
        let b = self.is_expired_at(now);
        assert(b == expired_at(*self, now));
        b
    }

    /// Count an access to the entry.
    pub fn access(&mut self)
        requires
            old(self).access_count < u64::MAX,
        ensures
            final(self).access_count == old(self).access_count + 1,
            final(self).facts == old(self).facts,
            final(self).created_at == old(self).created_at,
            final(self).expires_at == old(self).expires_at,
    {
        self.access_count = self.access_count + 1;
    }
}

/// Hits out of all lookups.
#[derive(Debug, Clone, Copy, PartialEq, Eq, Default)]
pub struct HitRate {
    pub hits: u64,
    pub lookups: u64,
}

/// Statistics of the cache.
#[derive(Debug, Clone, Default)]
pub struct CacheStats {
    pub hits: u64,
    pub misses: u64,
    pub entries_stored: u64,
    pub entries_evicted: u64,
    pub bytes_stored: u64,
    /// Hits out of hits and misses
    pub hit_rate: HitRate,
}

impl CacheStats {
    /// Statistics of a cache that has not been used.
    pub fn new() -> (s: Self)
        ensures
            s.hits == 0 && s.misses == 0 && s.entries_stored == 0 && s.entries_evicted == 0 && s.bytes_stored == 0,
            s.hit_rate == (HitRate { hits: 0, lookups: 0 }),
    {
        CacheStats {
            hits: 0,
            misses: 0,
            entries_stored: 0,
            entries_evicted: 0,
            bytes_stored: 0,
            hit_rate: HitRate { hits: 0, lookups: 0 },
        }
    }

    /// Count a hit.
    pub fn record_hit(&mut self)
        requires
            old(self).hits + old(self).misses < u64::MAX,
        ensures
            final(self).hits == old(self).hits + 1,
            final(self).misses == old(self).misses,
            final(self).entries_stored == old(self).entries_stored,
            final(self).entries_evicted == old(self).entries_evicted,
            final(self).bytes_stored == old(self).bytes_stored,
            final(self).hit_rate == (HitRate { hits: final(self).hits, lookups: (final(self).hits + final(self).misses) as u64 }),
    {
        self.hits = self.hits + 1;
        self.update_hit_rate();
    }

    /// Count a miss.
    pub fn record_miss(&mut self)
        requires
            old(self).hits + old(self).misses < u64::MAX,
        ensures
            final(self).misses == old(self).misses + 1,
            final(self).hits == old(self).hits,
            final(self).entries_stored == old(self).entries_stored,
            final(self).entries_evicted == old(self).entries_evicted,
            final(self).bytes_stored == old(self).bytes_stored,
            final(self).hit_rate == (HitRate { hits: final(self).hits, lookups: (final(self).hits + final(self).misses) as u64 }),
    {
        self.misses = self.misses + 1;
        self.update_hit_rate();
    }

    /// Count an entry of `bytes` bytes stored.
    pub fn record_stored(&mut self, bytes: u64)
        requires
            old(self).entries_stored < u64::MAX,
            old(self).bytes_stored + bytes <= u64::MAX,
        ensures
            final(self).entries_stored == old(self).entries_stored + 1,
            final(self).bytes_stored == old(self).bytes_stored + bytes,
            final(self).hits == old(self).hits,
            final(self).misses == old(self).misses,
            final(self).entries_evicted == old(self).entries_evicted,
            final(self).hit_rate == old(self).hit_rate,
    {
        self.entries_stored = self.entries_stored + 1;
        self.bytes_stored = self.bytes_stored + bytes;
    }

    /// Count an eviction.
    pub fn record_evicted(&mut self)
        requires
            old(self).entries_evicted < u64::MAX,
        ensures
            final(self).entries_evicted == old(self).entries_evicted + 1,
            final(self).hits == old(self).hits,
            final(self).misses == old(self).misses,
            final(self).entries_stored == old(self).entries_stored,
            final(self).bytes_stored == old(self).bytes_stored,
            final(self).hit_rate == old(self).hit_rate,
    {
        self.entries_evicted = self.entries_evicted + 1;
    }

    fn update_hit_rate(&mut self)
        requires
            old(self).hits + old(self).misses <= u64::MAX,
        ensures
            final(self).hit_rate == (HitRate { hits: old(self).hits, lookups: (old(self).hits + old(self).misses) as u64 }),
            final(self).hits == old(self).hits,
            final(self).misses == old(self).misses,
            final(self).entries_stored == old(self).entries_stored,
            final(self).entries_evicted == old(self).entries_evicted,
            final(self).bytes_stored == old(self).bytes_stored,
    {
        self.hit_rate = HitRate { hits: self.hits, lookups: self.hits + self.misses };
    }
}

/// Configuration of the cache.
#[derive(Debug, Clone)]
pub struct CacheConfig {
    /// Lifetime of an entry, in seconds
    pub ttl_seconds: Option<u64>,
    /// Number of stored entries beyond which expired ones are cleaned up
    pub max_entries: Option<usize>,
    pub write_buffer_size_mb: usize,
    pub max_write_buffers: usize,
    pub compression: bool,
    /// Directory of the store
    pub cache_dir: String,
}

impl Default for CacheConfig {
    fn default() -> (c: Self)
        ensures
            c.ttl_seconds == Some(604800u64),
            c.max_entries == Some(1000000usize),
            c.write_buffer_size_mb == 64,
            c.max_write_buffers == 3,
            c.compression,
            c.cache_dir@ == ".hodei-cache"@,
    {
        CacheConfig {
            ttl_seconds: Some(7 * 24 * 60 * 60),
            max_entries: Some(1_000_000),
            write_buffer_size_mb: 64,
            max_write_buffers: 3,
            compression: true,
            cache_dir: String::from_str(".hodei-cache"),
        }
    }
}

/// What the store must do after a lookup.
#[derive(Debug)]
pub enum StoreAction {
    /// Leave the store as it is.
    Keep,
    /// Remove the expired entry.
    Remove,
    /// Write the entry back with its access counted.
    Rewrite(CacheValue),
}

/// What a lookup returns: the facts, whether it was a hit, and what the
/// store must do.
pub struct LookupOutcome {
    pub facts: Vec<CodeSmellFact>,
    pub hit: bool,
    pub action: StoreAction,
}

/// Decide a lookup at time `now` from what the store held under the key:
/// a live entry is a hit, whose access is counted and written back; an
/// expired entry is a miss and is removed; no entry is a miss. The
/// statistics count the hit or the miss.
pub fn resolve_lookup(stats: &mut CacheStats, found: Option<CacheValue>, now: u64) -> (o: LookupOutcome)
    requires
        old(stats).hits + old(stats).misses < u64::MAX,
        found matches Some(v) ==> v.access_count < u64::MAX,
    ensures
        match found {
            Some(v) => if expired_at(v, now) {
                !o.hit && o.facts@.len() == 0 && o.action is Remove
            } else {
                o.hit && o.facts@ == v.facts@ && (o.action matches StoreAction::Rewrite(w) && w.facts == v.facts
                    && w.created_at == v.created_at && w.expires_at == v.expires_at && w.access_count
                    == v.access_count + 1)
            },
            None => !o.hit && o.facts@.len() == 0 && o.action is Keep,
        },
        o.hit ==> final(stats).hits == old(stats).hits + 1 && final(stats).misses == old(stats).misses,
        !o.hit ==> final(stats).misses == old(stats).misses + 1 && final(stats).hits == old(stats).hits,
        final(stats).entries_stored == old(stats).entries_stored,
        final(stats).entries_evicted == old(stats).entries_evicted,
        final(stats).bytes_stored == old(stats).bytes_stored,
        final(stats).hit_rate == (HitRate { hits: final(stats).hits, lookups: (final(stats).hits + final(stats).misses) as u64 }),
{
    match found {
        Some(value) => {
            if value.is_expired_at(now) {
                stats.record_miss();
                LookupOutcome { facts: Vec::new(), hit: false, action: StoreAction::Remove }
            } else {
                let mut value = value;
                value.access();
                let facts = clone_facts(&value.facts);
                stats.record_hit();
                LookupOutcome { facts, hit: true, action: StoreAction::Rewrite(value) }
            }
        },
        None => {
            stats.record_miss();
            LookupOutcome { facts: Vec::new(), hit: false, action: StoreAction::Keep }
        },
    }
}

/// Whether storing an entry should be followed by a clean-up of expired
/// entries: the cache has a limit and more entries were stored than it.
pub fn should_evict(stats: &CacheStats, max_entries: Option<usize>) -> (b: bool)
    ensures
        b == (max_entries matches Some(m) && stats.entries_stored > m),
{
    match max_entries {
        Some(m) => stats.entries_stored > m as u64,
        None => false,
    }
}

} // verus!
