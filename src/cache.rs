//! A time-bounded cache of successful lookups, and the lookup service that
//! sits in front of it.

use crate::geo::{complete, completed, FetchResponse, GeoLocation, LookupError};
use vstd::prelude::*;

verus! {

/// How long, in seconds, a stored lookup is served without asking again.
pub const FRESHNESS_WINDOW_SECS: u64 = 300;

/// The loopback address, which the provider cannot place.
pub const LOOPBACK: &'static str = "127.0.0.1";

/// A stored lookup: its record and the second it was stored at.
pub type Stored = (GeoLocation, u64);

/// One key of the cache and what is stored under it.
pub struct CacheEntry {
    pub key: String,
    pub location: GeoLocation,
    pub inserted_at: u64,
}

pub open spec fn stored_of(e: CacheEntry) -> Stored {
    (e.location, e.inserted_at)
}

/// The entries as a map from key to what is stored under it; a later entry
/// stands over an earlier one with the same key.
pub open spec fn entries_map(s: Seq<CacheEntry>) -> Map<Seq<char>, Stored>
    decreases s.len(),
{
    if s.len() == 0 {
        Map::empty()
    } else {
        entries_map(s.drop_last()).insert(s.last().key@, stored_of(s.last()))
    }
}

pub open spec fn keys_unique(s: Seq<CacheEntry>) -> bool {
    forall|i: int, j: int| 0 <= i < j < s.len() ==> s[i].key@ != s[j].key@
}

/// A value stored at `inserted_at` is still served at `now`.
pub open spec fn is_fresh(inserted_at: u64, now: u64, window: u64) -> bool {
    (now as int) - (inserted_at as int) < (window as int)
}

/// What a cache with contents `m` serves for `key` at `now`, if anything.
pub open spec fn hit(m: Map<Seq<char>, Stored>, window: u64, key: Seq<char>, now: u64) -> Option<GeoLocation> {
    if m.contains_key(key) && is_fresh(m[key].1, now, window) {
        Some(m[key].0)
    } else {
        None
    }
}

/// The contents after a lookup of `key` at `now` came to `outcome`: a
/// success is stored, a failure leaves the contents as they were.
pub open spec fn after_lookup(
    m: Map<Seq<char>, Stored>,
    key: Seq<char>,
    now: u64,
    outcome: Result<GeoLocation, LookupError>,
) -> Map<Seq<char>, Stored> {
    match outcome {
        Ok(g) => m.insert(key, (g, now)),
        Err(_) => m,
    }
}

/// The key that a requested address is cached and looked up under.
pub open spec fn key_of(requested: Seq<char>) -> Seq<char> {
    if requested == LOOPBACK@ {
        Seq::empty()
    } else {
        requested
    }
}

/// Any address other than the loopback address is looked up under itself.
pub proof fn lemma_key_of_other(requested: Seq<char>)
    requires
        requested != LOOPBACK@,
    ensures
        key_of(requested) == requested,
{
}

/// The loopback address and the empty address share one cache entry.
pub proof fn lemma_loopback_shares_entry()
    ensures
        key_of(LOOPBACK@) == key_of(Seq::<char>::empty()),
{
    reveal_strlit("127.0.0.1");
    assert(LOOPBACK@.len() > 0);
}

/// A failed lookup stores nothing: the contents, and what they serve for any
/// key at any time, stay as they were.
pub proof fn lemma_failure_not_stored(
    m: Map<Seq<char>, Stored>,
    window: u64,
    key: Seq<char>,
    now: u64,
    e: LookupError,
    other: Seq<char>,
    later: u64,
)
    ensures
        after_lookup(m, key, now, Err(e)) == m,
        hit(after_lookup(m, key, now, Err(e)), window, other, later) == hit(m, window, other, later),
{
}

/// After a successful lookup of `key` at `now`, the same key is served from
/// the cache at any time within the freshness window.
pub proof fn lemma_served_while_fresh(
    m: Map<Seq<char>, Stored>,
    window: u64,
    key: Seq<char>,
    now: u64,
    g: GeoLocation,
    later: u64,
)
    requires
        now <= later,
        later - now < window,
    ensures
        hit(after_lookup(m, key, now, Ok(g)), window, key, later) == Some(g),
{
}

/// Once the freshness window has passed since a successful lookup of `key`,
/// the cache no longer serves it, and the next lookup asks the provider.
pub proof fn lemma_expired_after_window(
    m: Map<Seq<char>, Stored>,
    window: u64,
    key: Seq<char>,
    now: u64,
    g: GeoLocation,
    later: u64,
)
    requires
        later >= now + window,
    ensures
        hit(after_lookup(m, key, now, Ok(g)), window, key, later) == None::<GeoLocation>,
{
}

proof fn lemma_map_of_entry(s: Seq<CacheEntry>, i: int)
    requires
        keys_unique(s),
        0 <= i < s.len(),
    ensures
        entries_map(s).contains_key(s[i].key@),
        entries_map(s)[s[i].key@] == stored_of(s[i]),
    decreases s.len(),
{
    if i < s.len() - 1 {
        lemma_map_of_entry(s.drop_last(), i);
    }
}

proof fn lemma_map_lacks(s: Seq<CacheEntry>, k: Seq<char>)
    requires
        forall|i: int| 0 <= i < s.len() ==> s[i].key@ != k,
    ensures
        !entries_map(s).contains_key(k),
    decreases s.len(),
{
    if s.len() > 0 {
        lemma_map_lacks(s.drop_last(), k);
    }
}

proof fn lemma_map_update(s: Seq<CacheEntry>, i: int, e: CacheEntry)
    requires
        keys_unique(s),
        0 <= i < s.len(),
        s[i].key@ == e.key@,
    ensures
        entries_map(s.update(i, e)) == entries_map(s).insert(e.key@, stored_of(e)),
    decreases s.len(),
{
    let t = s.update(i, e);
    if i == s.len() - 1 {
        assert(t.drop_last() =~= s.drop_last());
        if s.len() > 1 {
            lemma_map_lacks(s.drop_last(), e.key@);
        }
        assert(entries_map(t) =~= entries_map(s).insert(e.key@, stored_of(e)));
    } else {
        assert(t.drop_last() =~= s.drop_last().update(i, e));
        lemma_map_update(s.drop_last(), i, e);
        assert(entries_map(t) =~= entries_map(s).insert(e.key@, stored_of(e)));
    }
}

proof fn lemma_map_push(s: Seq<CacheEntry>, e: CacheEntry)
    ensures
        entries_map(s.push(e)) == entries_map(s).insert(e.key@, stored_of(e)),
{
    assert(s.push(e).drop_last() =~= s);
}

/// The store of successful lookups, keyed by the exact address looked up.
pub struct LookupCache {
    entries: Vec<CacheEntry>,
    window: u64,
}

impl View for LookupCache {
    type V = Map<Seq<char>, Stored>;

    closed spec fn view(&self) -> Map<Seq<char>, Stored> {
        entries_map(self.entries@)
    }
}

impl LookupCache {
    pub closed spec fn wf(&self) -> bool {
        keys_unique(self.entries@)
    }

    pub closed spec fn spec_window(&self) -> u64 {
        self.window
    }

    /// An empty cache that serves a stored lookup for `window` seconds.
    pub fn new(window: u64) -> (r: LookupCache)
        ensures
            r.wf(),
            r@ == Map::<Seq<char>, Stored>::empty(),
            r.spec_window() == window,
    {
        LookupCache { entries: Vec::new(), window }
    }

    /// An empty cache with the standard freshness window.
    pub fn with_default_window() -> (r: LookupCache)
        ensures
            r.wf(),
            r@ == Map::<Seq<char>, Stored>::empty(),
            r.spec_window() == FRESHNESS_WINDOW_SECS,
    {
        LookupCache::new(FRESHNESS_WINDOW_SECS)
    }

    pub fn window(&self) -> (r: u64)
        ensures
            r == self.spec_window(),
    {
        self.window
    }

    /// The position of the entry for `key`, if there is one.
    fn position(&self, key: &str) -> (r: Option<usize>)
        requires
            self.wf(),
        ensures
            match r {
                Some(i) => i < self.entries@.len() && self.entries@[i as int].key@ == key@,
                None => !self@.contains_key(key@)
                    && forall|j: int| 0 <= j < self.entries@.len() ==> self.entries@[j].key@ != key@,
            },
    {
        let wanted = key.to_owned();
        let mut i: usize = 0;
        while i < self.entries.len()
            invariant
                i <= self.entries@.len(),
                wanted@ == key@,
                forall|j: int| 0 <= j < i ==> self.entries@[j].key@ != key@,
            decreases self.entries@.len() - i,
        {
            if self.entries[i].key == wanted {
                return Some(i);
            }
            i = i + 1;
        }
        proof {
            lemma_map_lacks(self.entries@, key@);
        }
        None
    }

    /// The record stored for `key`, if it is still fresh at `now`.
    pub fn cached(&self, key: &str, now: u64) -> (r: Option<GeoLocation>)
        requires
            self.wf(),
        ensures
            r == hit(self@, self.spec_window(), key@, now),
    {
        match self.position(key) {
            None => None,
            Some(i) => {
                proof {
                    lemma_map_of_entry(self.entries@, i as int);
                }
                let e = &self.entries[i];
                let fresh = now < e.inserted_at || now - e.inserted_at < self.window;
                if fresh {
                    Some(e.location.duplicate())
                } else {
                    None
                }
            },
        }
    }

    /// Stores `location` under `key` as looked up at `now`, over any earlier
    /// entry for that key.
    pub fn store(&mut self, key: &str, now: u64, location: GeoLocation)
        requires
            old(self).wf(),
        ensures
            final(self).wf(),
            final(self)@ == old(self)@.insert(key@, (location, now)),
            final(self).spec_window() == old(self).spec_window(),
    {
        let entry = CacheEntry { key: key.to_owned(), location, inserted_at: now };
        match self.position(key) {
            Some(i) => {
                proof {
                    lemma_map_update(self.entries@, i as int, entry);
                }
                self.entries.set(i, entry);
            },
            None => {
                proof {
                    lemma_map_push(self.entries@, entry);
                }
                self.entries.push(entry);
            },
        }
    }

    /// Stores a successful outcome of a lookup of `key` at `now` and hands the
    /// outcome back; a failure is handed back and nothing is stored.
    pub fn record(&mut self, key: &str, now: u64, outcome: Result<GeoLocation, LookupError>) -> (r: Result<GeoLocation, LookupError>)
        requires
            old(self).wf(),
        ensures
            final(self).wf(),
            r == outcome,
            final(self)@ == after_lookup(old(self)@, key@, now, outcome),
            final(self).spec_window() == old(self).spec_window(),
    {
        match outcome {
            Ok(location) => {
                self.store(key, now, location.duplicate());
                Ok(location)
            },
            Err(e) => Err(e),
        }
    }

    /// Serves `key` from the cache while its entry is fresh at `now`;
    /// otherwise asks `fetch` for the provider's answer, normalises it, and
    /// stores it if it is a success.
    pub fn get_or_fetch<F>(&mut self, key: &str, now: u64, fetch: F) -> (r: Result<GeoLocation, LookupError>)
        where
            F: FnOnce(&str) -> Result<FetchResponse, LookupError>,
        requires
            old(self).wf(),
            fetch.requires((key,)),
        ensures
            final(self).wf(),
            final(self).spec_window() == old(self).spec_window(),
            match hit(old(self)@, old(self).spec_window(), key@, now) {
                Some(g) => r == Ok::<GeoLocation, LookupError>(g) && final(self)@ == old(self)@,
                None => exists|o: Result<FetchResponse, LookupError>|
                    #[trigger] fetch.ensures((key,), o)
                        && r == completed(o)
                        && final(self)@ == after_lookup(old(self)@, key@, now, r),
            },
    {
        if let Some(g) = self.cached(key, now) {
            return Ok(g);
        }
        let answer = fetch(key);
        let outcome = complete(answer);
        self.record(key, now, outcome)
    }

    /// Looks up `requested_ip`; the loopback address is looked up as the
    /// empty address, which the provider takes as the caller's own.
    pub fn resolve<F>(&mut self, requested_ip: &str, now: u64, fetch: F) -> (r: Result<GeoLocation, LookupError>)
        where
            F: FnOnce(&str) -> Result<FetchResponse, LookupError>,
        requires
            old(self).wf(),
            forall|k: &str| #[trigger] fetch.requires((k,)),
        ensures
            final(self).wf(),
            final(self).spec_window() == old(self).spec_window(),
            match hit(old(self)@, old(self).spec_window(), key_of(requested_ip@), now) {
                Some(g) => r == Ok::<GeoLocation, LookupError>(g) && final(self)@ == old(self)@,
                None => exists|k: &str, o: Result<FetchResponse, LookupError>|
                    k@ == key_of(requested_ip@)
                        && #[trigger] fetch.ensures((k,), o)
                        && r == completed(o)
                        && final(self)@ == after_lookup(old(self)@, k@, now, r),
            },
    {
        let key = cache_key(requested_ip);
        self.get_or_fetch(key.as_str(), now, fetch)
    }
}

/// The key under which `requested_ip` is looked up and cached.
pub fn cache_key(requested_ip: &str) -> (r: String)
    ensures
        r@ == key_of(requested_ip@),
{
    let requested = requested_ip.to_owned();
    let loopback = LOOPBACK.to_owned();
    if requested == loopback {
        String::new()
    } else {
        requested
    }
}

} // verus!
