//! Caches of analysis results, whose entries expire after a time to live.
use vstd::prelude::*;
use std::time::Instant;
use crate::declarative::rule_tester::{entry_keys, key_slot, keys_distinct};
use crate::declarative::semgrep_translator::Rate;
use crate::text::chars::text_is;

verus! {

/// The largest number of nanoseconds that a `Duration` holds.
pub open spec fn max_duration_nanos() -> int {
    u64::MAX * 1_000_000_000 + 999_999_999
}

/// `Instant::elapsed` in nanoseconds (`Duration::as_nanos`). Nothing is
/// claimed of the value but that it fits a `Duration`: it is the clock.
#[verifier::external_body]
fn nanos_since(origin: &Instant) -> (ns: u128)
    ensures
        ns <= max_duration_nanos(),
{
    origin.elapsed().as_nanos()
}

/// `Instant` is `Copy`: its `clone` is a copy of the same point in time.
pub assume_specification[ <std::time::Instant as std::clone::Clone>::clone ](instant: &std::time::Instant) -> (r: std::time::Instant)
    ensures
        r == *instant,
;

/// `Instant::now`. Nothing is claimed of the value.
#[verifier::external_body]
fn instant_now() -> (t: Instant) {
    Instant::now()
}

/// A cache entry, with its creation and expiry times in nanoseconds since
/// the cache was created.
#[derive(Debug, Clone)]
pub struct CacheEntry<T> {
    pub value: T,
    pub created_at: u128,
    pub expires_at: u128,
}

/// Statistics of a cache.
#[derive(Debug, Clone)]
pub struct CacheStats {
    pub total_entries: usize,
    pub expired_entries: usize,
    pub active_entries: usize,
    /// Hits out of lookups; lookups are not counted yet, so it is zero of zero
    pub hit_rate: Rate,
}

/// A cache of analysis results by key, each entry living for the cache's
/// time to live. A copy of a cache is a cache of its own.
#[derive(Debug, Clone)]
pub struct AnalysisCache<T> {
    entries: Vec<(String, CacheEntry<T>)>,
    default_ttl: u64,
    origin: Instant,
}

/// Whether an entry is still alive at time `now`.
pub open spec fn alive<T>(e: CacheEntry<T>, now: u128) -> bool {
    e.expires_at > now
}

/// The entries alive at time `now`, in order.
pub open spec fn alive_entries<T>(v: Seq<(String, CacheEntry<T>)>, now: u128) -> Seq<(String, CacheEntry<T>)>
    decreases v.len(),
{
    if v.len() == 0 {
        Seq::empty()
    } else {
        let prev = alive_entries(v.drop_last(), now);
        if alive(v.last().1, now) {
            prev.push(v.last())
        } else {
            prev
        }
    }
}

proof fn lemma_alive_entries_keys<T>(v: Seq<(String, CacheEntry<T>)>, now: u128)
    requires
        keys_distinct(entry_keys(v)),
    ensures
        keys_distinct(entry_keys(alive_entries(v, now))),
        alive_entries(v, now).len() <= v.len(),
        forall|i: int| 0 <= i < alive_entries(v, now).len() ==> entry_keys(v).contains(#[trigger] entry_keys(alive_entries(v, now))[i]),
    decreases v.len(),
{
    if v.len() > 0 {
        let w = v.drop_last();
        assert(entry_keys(w) =~= entry_keys(v).drop_last());
        lemma_alive_entries_keys(w, now);
        let p = alive_entries(w, now);
        if alive(v.last().1, now) {
            let k = v.last().0@;
            assert(entry_keys(p.push(v.last())) =~= entry_keys(p).push(k));
            assert forall|i: int| 0 <= i < entry_keys(p).len() implies entry_keys(p)[i] != k by {
                let q = choose|q: int| 0 <= q < entry_keys(w).len() && entry_keys(w)[q] == entry_keys(p)[i];
                assert(entry_keys(v)[q] == entry_keys(w)[q]);
                assert(entry_keys(v)[v.len() - 1] == k);
            }
            assert forall|i: int| 0 <= i < entry_keys(p.push(v.last())).len() implies entry_keys(v).contains(
                #[trigger] entry_keys(p.push(v.last()))[i],
            ) by {
                if i < p.len() {
                    let q = choose|q: int| 0 <= q < entry_keys(w).len() && entry_keys(w)[q] == entry_keys(p)[i];
                    assert(entry_keys(v)[q] == entry_keys(w)[q]);
                } else {
                    assert(entry_keys(v)[v.len() - 1] == k);
                }
            }
        } else {
            assert forall|i: int| 0 <= i < entry_keys(p).len() implies entry_keys(v).contains(
                #[trigger] entry_keys(p)[i],
            ) by {
                let q = choose|q: int| 0 <= q < entry_keys(w).len() && entry_keys(w)[q] == entry_keys(p)[i];
                assert(entry_keys(v)[q] == entry_keys(w)[q]);
            }
        }
    }
}

/// The value that entries hold under `key` at time `now`, while alive.
pub open spec fn lookup<T>(contents: Seq<(String, CacheEntry<T>)>, key: Seq<char>, now: u128) -> Option<T> {
    let i = key_slot(entry_keys(contents), key);
    if i >= 0 && alive(contents[i].1, now) {
        Some(contents[i].1.value)
    } else {
        None
    }
}

/// Whether `r` answers a lookup that found `found`: a copy of the value
/// found, or nothing where nothing was found.
pub open spec fn answers<T: Clone>(found: Option<T>, r: Option<T>) -> bool {
    match found {
        Some(v) => r matches Some(x) && cloned(v, x),
        None => r is None,
    }
}

/// The entries after putting `value` under `key` at time `now` with a time
/// to live of `ttl` seconds: the key's entry is replaced in place, or added
/// at the end.
pub open spec fn stored<T>(contents: Seq<(String, CacheEntry<T>)>, key: String, value: T, now: u128, ttl: u64) -> Seq<(String, CacheEntry<T>)> {
    let e = CacheEntry { value, created_at: now, expires_at: (now + ttl * 1_000_000_000) as u128 };
    let i = key_slot(entry_keys(contents), key@);
    if i >= 0 {
        contents.update(i, (key, e))
    } else {
        contents.push((key, e))
    }
}

proof fn lemma_stored_keys<T>(c: Seq<(String, CacheEntry<T>)>, key: String, value: T, now: u128, ttl: u64)
    requires
        keys_distinct(entry_keys(c)),
    ensures
        keys_distinct(entry_keys(stored(c, key, value, now, ttl))),
        key_slot(entry_keys(c), key@) >= 0 ==> entry_keys(stored(c, key, value, now, ttl)) == entry_keys(c),
        key_slot(entry_keys(c), key@) < 0 ==> entry_keys(stored(c, key, value, now, ttl)) == entry_keys(c).push(key@),
{
    let ks = entry_keys(c);
    let i = key_slot(ks, key@);
    if i >= 0 {
        assert(entry_keys(stored(c, key, value, now, ttl)) =~= ks);
    } else {
        assert(entry_keys(stored(c, key, value, now, ttl)) =~= ks.push(key@));
        assert forall|a: int| 0 <= a < ks.len() implies ks[a] != key@ by {
            if ks[a] == key@ {
                assert(exists|q: int| 0 <= q < ks.len() && ks[q] == key@);
            }
        }
    }
}

proof fn lemma_slot_unique(ks: Seq<Seq<char>>, k: Seq<char>, j: int)
    requires
        keys_distinct(ks),
        0 <= j < ks.len(),
        ks[j] == k,
    ensures
        key_slot(ks, k) == j,
{
    let c = key_slot(ks, k);
    assert(0 <= c < ks.len() && ks[c] == k);
}

/// What a cache gives back of a write: a value put under a key is what a
/// lookup of that key gives from the moment it is put until its time to
/// live has passed.
pub proof fn law_get_after_put<T>(c: Seq<(String, CacheEntry<T>)>, key: String, value: T, now: u128, ttl: u64, later: u128)
    requires
        keys_distinct(entry_keys(c)),
        now <= later < now + ttl * 1_000_000_000,
        now + ttl * 1_000_000_000 <= u128::MAX,
    ensures
        lookup(stored(c, key, value, now, ttl), key@, later) == Some(value),
{
    lemma_stored_keys(c, key, value, now, ttl);
    let s = stored(c, key, value, now, ttl);
    let i = key_slot(entry_keys(c), key@);
    let j = if i >= 0 { i } else { c.len() as int };
    assert(entry_keys(s)[j] == key@);
    lemma_slot_unique(entry_keys(s), key@, j);
}

/// Once its time to live has passed, a value put under a key is no longer
/// given back.
pub proof fn law_expired_after_ttl<T>(c: Seq<(String, CacheEntry<T>)>, key: String, value: T, now: u128, ttl: u64, later: u128)
    requires
        keys_distinct(entry_keys(c)),
        now + ttl * 1_000_000_000 <= later,
        now + ttl * 1_000_000_000 <= u128::MAX,
    ensures
        lookup(stored(c, key, value, now, ttl), key@, later) is None,
{
    lemma_stored_keys(c, key, value, now, ttl);
    let s = stored(c, key, value, now, ttl);
    let i = key_slot(entry_keys(c), key@);
    let j = if i >= 0 { i } else { c.len() as int };
    assert(entry_keys(s)[j] == key@);
    lemma_slot_unique(entry_keys(s), key@, j);
}

/// Putting a value under one key changes what no other key gives.
pub proof fn law_put_keeps_other_keys<T>(c: Seq<(String, CacheEntry<T>)>, key: String, value: T, now: u128, ttl: u64, other: Seq<char>, t: u128)
    requires
        keys_distinct(entry_keys(c)),
        other != key@,
    ensures
        lookup(stored(c, key, value, now, ttl), other, t) == lookup(c, other, t),
{
    lemma_stored_keys(c, key, value, now, ttl);
    let s = stored(c, key, value, now, ttl);
    let ks = entry_keys(c);
    let o = key_slot(ks, other);
    if o >= 0 {
        assert(ks[o] == other);
        assert(entry_keys(s)[o] == other);
        lemma_slot_unique(entry_keys(s), other, o);
        let i = key_slot(ks, key@);
        if i >= 0 {
            assert(ks[i] == key@);
            assert(i != o);
        }
    } else {
        if exists|q: int| 0 <= q < entry_keys(s).len() && entry_keys(s)[q] == other {
            let q = choose|q: int| 0 <= q < entry_keys(s).len() && entry_keys(s)[q] == other;
            if q < ks.len() {
                assert(entry_keys(s)[q] == ks[q]);
                assert(exists|q2: int| 0 <= q2 < ks.len() && ks[q2] == other);
            }
        }
    }
}

/// Cleaning up at a time keeps every value that is still alive then.
pub proof fn law_cleanup_keeps_live_values<T>(c: Seq<(String, CacheEntry<T>)>, key: Seq<char>, now: u128)
    requires
        keys_distinct(entry_keys(c)),
    ensures
        lookup(alive_entries(c, now), key, now) == lookup(c, key, now),
    decreases c.len(),
{
    if c.len() > 0 {
        let w = c.drop_last();
        assert(entry_keys(w) =~= entry_keys(c).drop_last());
        law_cleanup_keeps_live_values(w, key, now);
        lemma_alive_entries_keys(w, now);
        lemma_alive_entries_keys(c, now);
        let last = c.last();
        let p = alive_entries(w, now);
        let kc = entry_keys(c);
        let kw = entry_keys(w);
        // Where the key is in the last entry.
        if last.0@ == key {
            lemma_slot_unique(kc, key, c.len() - 1);
            assert forall|q: int| 0 <= q < kw.len() implies kw[q] != key by {
                assert(kc[q] == kw[q]);
                assert(kc[c.len() - 1] == key);
            }
            if alive(last.1, now) {
                let a = p.push(last);
                assert(entry_keys(a)[p.len() as int] == key);
                lemma_slot_unique(entry_keys(a), key, p.len() as int);
            } else {
                if exists|q: int| 0 <= q < entry_keys(p).len() && entry_keys(p)[q] == key {
                    let q = choose|q: int| 0 <= q < entry_keys(p).len() && entry_keys(p)[q] == key;
                    assert(kw.contains(entry_keys(p)[q]));
                }
            }
        } else {
            let sw = key_slot(kw, key);
            if sw >= 0 {
                assert(kc[sw] == kw[sw]);
                lemma_slot_unique(kc, key, sw);
            } else {
                if exists|q: int| 0 <= q < kc.len() && kc[q] == key {
                    let q = choose|q: int| 0 <= q < kc.len() && kc[q] == key;
                    if q < kw.len() {
                        assert(kw[q] == kc[q]);
                    }
                }
            }
            if alive(last.1, now) {
                let a = p.push(last);
                assert(entry_keys(a) =~= entry_keys(p).push(last.0@));
                let sp = key_slot(entry_keys(p), key);
                if sp >= 0 {
                    assert(entry_keys(a)[sp] == entry_keys(p)[sp]);
                    lemma_slot_unique(entry_keys(a), key, sp);
                } else {
                    if exists|q: int| 0 <= q < entry_keys(a).len() && entry_keys(a)[q] == key {
                        let q = choose|q: int| 0 <= q < entry_keys(a).len() && entry_keys(a)[q] == key;
                        if q < entry_keys(p).len() {
                            assert(entry_keys(a)[q] == entry_keys(p)[q]);
                        }
                    }
                }
            }
        }
    }
}

impl<T> AnalysisCache<T> {
    /// The entries of the cache, in the order they were first put.
    pub closed spec fn contents(&self) -> Seq<(String, CacheEntry<T>)> {
        self.entries@
    }

    /// The time to live of new entries, in seconds.
    pub closed spec fn ttl(&self) -> u64 {
        self.default_ttl
    }

    /// Whether the cache holds each key once.
    pub closed spec fn wf(&self) -> bool {
        keys_distinct(entry_keys(self.entries@))
    }

    /// An empty cache whose entries live `ttl_seconds` seconds.
    pub fn new(ttl_seconds: u64) -> (c: Self)
        ensures
            c.wf(),
            c.contents().len() == 0,
            c.ttl() == ttl_seconds,
    {
        let c = AnalysisCache { entries: Vec::new(), default_ttl: ttl_seconds, origin: instant_now() };
        assert(entry_keys(c.entries@) =~= Seq::empty());
        c
    }

    /// The time to live of new entries, in seconds.
    pub fn default_ttl_seconds(&self) -> (s: u64)
        ensures
            s == self.ttl(),
    {
        self.default_ttl
    }

    fn find(&self, key: &str) -> (r: Option<usize>)
        requires
            self.wf(),
        ensures
            match r {
                Some(i) => i < self.contents().len() && i == key_slot(entry_keys(self.contents()), key@),
                None => key_slot(entry_keys(self.contents()), key@) < 0,
            },
    {
        let ghost ks = entry_keys(self.entries@);
        for i in 0..self.entries.len()
            invariant
                ks == entry_keys(self.entries@),
                keys_distinct(ks),
                forall|q: int| 0 <= q < i ==> ks[q] != key@,
        {
            if text_is(self.entries[i].0.as_str(), key) {
                proof {
                    assert(ks[i as int] == key@);
                    let c = key_slot(ks, key@);
                    assert(0 <= c < ks.len() && ks[c] == key@);
                }
                return Some(i);
            }
        }
        proof {
            if exists|q: int| 0 <= q < ks.len() && ks[q] == key@ {
                let q = choose|q: int| 0 <= q < ks.len() && ks[q] == key@;
                assert(ks[q] != key@);
            }
        }
        None
    }

    /// The value under `key` at time `now` (nanoseconds since the cache was
    /// created): a copy of it while its entry is alive, nothing otherwise.
    pub fn get_at(&self, key: &str, now: u128) -> (r: Option<T>)
        where
            T: Clone,
        requires
            self.wf(),
        ensures
            match lookup(self.contents(), key@, now) {
                Some(v) => r matches Some(x) && cloned(v, x),
                None => r is None,
            },
    {
        match self.find(key) {
            Some(i) => {
                let entry = &self.entries[i].1;
                if entry.expires_at > now {
                    Some(entry.value.clone())
                } else {
                    None
                }
            },
            None => None,
        }
    }

    /// The value under `key` now, while its entry is alive: what a lookup
    /// at the time that the clock gives returns.
    pub fn get(&self, key: &str) -> (r: Option<T>)
        where
            T: Clone,
        requires
            self.wf(),
        ensures
            exists|now: u128| now <= max_duration_nanos() && answers(#[trigger] lookup(self.contents(), key@, now), r),
            r matches Some(v) ==> ({
                let i = key_slot(entry_keys(self.contents()), key@);
                i >= 0 && cloned(self.contents()[i].1.value, v)
            }),
            key_slot(entry_keys(self.contents()), key@) < 0 ==> r is None,
    {
        let now = nanos_since(&self.origin);
        let r = self.get_at(key, now);
        assert(answers(lookup(self.contents(), key@, now), r));
        r
    }

    /// Put a value under `key` at time `now`, replacing any entry for it.
    pub fn put_at(&mut self, key: String, value: T, now: u128)
        requires
            old(self).wf(),
            now <= max_duration_nanos(),
        ensures
            final(self).wf(),
            final(self).ttl() == old(self).ttl(),
            final(self).contents() == stored(old(self).contents(), key, value, now, old(self).ttl()),
    {
        let ttl_nanos: u128 = self.default_ttl as u128 * 1_000_000_000;
        let entry = CacheEntry { value, created_at: now, expires_at: now + ttl_nanos };
        let ghost old_keys = entry_keys(self.entries@);
        let ghost k = key@;
        crate::declarative::rule_tester::upsert(&mut self.entries, key, entry);
        proof {
            let i = key_slot(old_keys, k);
            if i >= 0 {
                assert(entry_keys(self.entries@) =~= old_keys.update(i, k));
                assert(old_keys.update(i, k) =~= old_keys);
            } else {
                assert(entry_keys(self.entries@) =~= old_keys.push(k));
                assert forall|a: int| 0 <= a < old_keys.len() implies old_keys[a] != k by {
                    if old_keys[a] == k {
                        assert(exists|q: int| 0 <= q < old_keys.len() && old_keys[q] == k);
                    }
                }
            }
        }
    }

    /// Put a value under `key` now, replacing any entry for it.
    pub fn put(&mut self, key: String, value: T)
        requires
            old(self).wf(),
        ensures
            final(self).wf(),
            final(self).ttl() == old(self).ttl(),
            key_slot(entry_keys(old(self).contents()), key@) >= 0 ==> final(self).contents().len() == old(
                self,
            ).contents().len(),
            key_slot(entry_keys(old(self).contents()), key@) < 0 ==> final(self).contents().len() == old(
                self,
            ).contents().len() + 1,
            final(self).contents()[key_slot(entry_keys(final(self).contents()), key@)].1.value == value,
    {
        let now = nanos_since(&self.origin);
        let ghost k = key@;
        let ghost v = value;
        self.put_at(key, value, now);
        proof {
            let ks = entry_keys(self.contents());
            let i = key_slot(entry_keys(old(self).contents()), k);
            let j = if i >= 0 { i } else { old(self).contents().len() as int };
            assert(ks[j] == k);
            let c = key_slot(ks, k);
            assert(0 <= c < ks.len() && ks[c] == k);
            assert(c == j);
        }
    }

    /// Remove the entries that are no longer alive at time `now`.
    pub fn cleanup_at(&mut self, now: u128)
        requires
            old(self).wf(),
        ensures
            final(self).wf(),
            final(self).ttl() == old(self).ttl(),
            final(self).contents() == alive_entries(old(self).contents(), now),
    {
        let ghost all = self.entries@;
        let mut kept: Vec<(String, CacheEntry<T>)> = Vec::new();
        let mut rest: Vec<(String, CacheEntry<T>)> = Vec::new();
        std::mem::swap(&mut rest, &mut self.entries);
        let mut taken: usize = 0;
        let n = rest.len();
        while rest.len() > 0
            invariant
                n == all.len(),
                taken + rest@.len() == n,
                rest@ == all.skip(taken as int),
                kept@ == alive_entries(all.take(taken as int), now),
            decreases rest@.len(),
        {
            let ghost r0 = rest@;
            let item = rest.remove(0);
            proof {
                assert(item == all[taken as int]);
                assert(all.take(taken + 1).drop_last() =~= all.take(taken as int));
                assert(all.skip(taken + 1) =~= r0.drop_first());
            }
            if item.1.expires_at > now {
                kept.push(item);
            }
            taken = taken + 1;
        }
        assert(all.take(n as int) =~= all);
        self.entries = kept;
        proof {
            lemma_alive_entries_keys(all, now);
        }
    }

    /// Remove the entries that are no longer alive.
    pub fn cleanup(&mut self)
        requires
            old(self).wf(),
        ensures
            final(self).wf(),
            final(self).ttl() == old(self).ttl(),
            exists|now: u128| final(self).contents() == alive_entries(old(self).contents(), now),
    {
        let now = nanos_since(&self.origin);
        self.cleanup_at(now);
    }

    /// Statistics of the cache at time `now`: entries, and how many of them
    /// are no longer alive.
    pub fn stats_at(&self, now: u128) -> (s: CacheStats)
        ensures
            s.total_entries == self.contents().len(),
            s.active_entries == alive_entries(self.contents(), now).len(),
            s.expired_entries + s.active_entries == s.total_entries,
            s.hit_rate == (Rate { hits: 0, total: 0 }),
    {
        let mut active: usize = 0;
        for i in 0..self.entries.len()
            invariant
                active == alive_entries(self.entries@.take(i as int), now).len(),
                active <= i,
        {
            assert(self.entries@.take(i + 1).drop_last() =~= self.entries@.take(i as int));
            if self.entries[i].1.expires_at > now {
                active = active + 1;
            }
        }
        assert(self.entries@.take(self.entries@.len() as int) =~= self.entries@);
        let total = self.entries.len();
        CacheStats {
            total_entries: total,
            expired_entries: total - active,
            active_entries: active,
            hit_rate: Rate { hits: 0, total: 0 },
        }
    }

    /// Statistics of the cache now.
    pub fn stats(&self) -> (s: CacheStats)
        ensures
            s.total_entries == self.contents().len(),
            s.expired_entries + s.active_entries == s.total_entries,
            exists|now: u128| s.active_entries == alive_entries(self.contents(), now).len(),
            s.hit_rate == (Rate { hits: 0, total: 0 }),
    {
        let now = nanos_since(&self.origin);
        self.stats_at(now)
    }
}

impl<T> Default for AnalysisCache<T> {
    fn default() -> (c: Self)
        ensures
            c.wf(),
            c.contents().len() == 0,
            c.ttl() == 3600,
    {
        AnalysisCache::new(3600)
    }
}

/// Cache of semantic models.
pub type SemanticModelCache = AnalysisCache<String>;

/// Cache of taint flows.
pub type TaintFlowCache = AnalysisCache<Vec<String>>;

/// Cache of coupling findings.
pub type CouplingCache = AnalysisCache<Vec<String>>;

} // verus!
