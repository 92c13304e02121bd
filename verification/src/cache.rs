//! The section cache: JSON documents by key, each with the instant it was
//! stored, served only while younger than the cache's time to live.

use vstd::prelude::*;
use crate::keyed::KeyedStore;

verus! {

/// `std::time::Instant`, held opaque.
#[verifier::external_type_specification]
#[verifier::external_body]
pub struct ExInstant(std::time::Instant);

/// `Instant::now`: a reading of the monotonic clock.
#[verifier::external_body]
fn clock_reading() -> std::time::Instant {
    std::time::Instant::now()
}

/// `Instant::elapsed`, in nanoseconds: the time since `origin` (zero if the
/// clock reads earlier). Nothing is stated of the value: it is the time.
#[verifier::external_body]
fn nanos_since(origin: &std::time::Instant) -> u128 {
    origin.elapsed().as_nanos()
}

/// Time from `stored_at` to `now`, saturating at zero as `Instant::elapsed` does.
pub open spec fn elapsed(stored_at: int, now: int) -> int {
    if now >= stored_at { now - stored_at } else { 0 }
}

/// What the cache serves for `key` at `now`: the stored document when it is
/// younger than `ttl`, else nothing.
pub open spec fn fresh_value(
    contents: Map<Seq<char>, (serde_json::Value, u128)>,
    ttl: u128,
    key: Seq<char>,
    now: u128,
) -> Option<serde_json::Value> {
    if contents.contains_key(key) && elapsed(contents[key].1 as int, now as int) < ttl {
        Some(contents[key].0)
    } else {
        None
    }
}

/// A cache without entries.
pub open spec fn empty_contents() -> Map<Seq<char>, (serde_json::Value, u128)> {
    Map::empty()
}

/// Cached JSON sections by key, with a time to live.
pub struct SectionCache {
    entries: KeyedStore<(serde_json::Value, u128)>,
    ttl: u128,
    origin: std::time::Instant,
}

impl SectionCache {
    /// The stored documents by key, with the instant (nanoseconds on the
    /// cache's clock) each was stored.
    pub closed spec fn contents(self) -> Map<Seq<char>, (serde_json::Value, u128)> {
        self.entries.map()
    }

    /// The time to live, in nanoseconds.
    pub closed spec fn ttl(self) -> u128 {
        self.ttl
    }

    /// An empty cache whose entries live `ttl_nanos` nanoseconds.
    pub fn new(ttl_nanos: u128) -> (c: SectionCache)
        ensures
            c.contents() == empty_contents(),
            c.ttl() == ttl_nanos,
    {
        SectionCache { entries: KeyedStore::new(), ttl: ttl_nanos, origin: clock_reading() }
    }

    /// The document stored under `key` if it is younger than the time to
    /// live at instant `now` (nanoseconds on the cache's clock).
    pub fn get_at(&self, key: &str, now: u128) -> (r: Option<serde_json::Value>)
        ensures
            r == fresh_value(self.contents(), self.ttl(), key@, now),
    {
        match self.entries.get(key) {
            Some(entry) => {
                let stored_at = entry.1;
                let age: u128 = if now >= stored_at { now - stored_at } else { 0 };
                if age < self.ttl {
                    Some(entry.0.clone())
                } else {
                    None
                }
            },
            None => None,
        }
    }

    /// Stores `value` under `key` at instant `now`, replacing any earlier
    /// entry for that key.
    pub fn insert_at(&mut self, key: String, value: serde_json::Value, now: u128)
        ensures
            final(self).contents() == old(self).contents().insert(key@, (value, now)),
            final(self).ttl() == old(self).ttl(),
    {
        self.entries.insert(key, (value, now));
    }

    /// The document stored under `key` if it is still within the time to
    /// live now: the answer `get_at` gives at the clock's reading. Nothing is
    /// known of the reading, so the document is owed exactly when it is fresh
    /// at every reading the clock can give.
    pub fn get(&self, key: &str) -> (r: Option<serde_json::Value>)
        ensures
            exists|now: u128| r == fresh_value(self.contents(), self.ttl(), key@, now),
            r matches Some(v) ==> self.contents().contains_key(key@) && self.contents()[key@].0 == v,
    {
        let now = nanos_since(&self.origin);
        let r = self.get_at(key, now);
        assert(r == fresh_value(self.contents(), self.ttl(), key@, now));
        r
    }

    /// Stores `value` under `key`, stamped with the current reading of the
    /// cache's clock.
    pub fn insert(&mut self, key: String, value: serde_json::Value)
        ensures
            final(self).ttl() == old(self).ttl(),
            exists|now: u128| final(self).contents() == old(self).contents().insert(key@, (value, now)),
    {
        let now = nanos_since(&self.origin);
        self.insert_at(key, value, now);
    }
}


/// A document just stored is served back while it is younger than the time
/// to live, and not after.
pub proof fn lemma_read_after_insert(
    contents: Map<Seq<char>, (serde_json::Value, u128)>,
    ttl: u128,
    key: Seq<char>,
    value: serde_json::Value,
    stored_at: u128,
    now: u128,
)
    ensures
        fresh_value(contents.insert(key, (value, stored_at)), ttl, key, now) == (if elapsed(
            stored_at as int,
            now as int,
        ) < ttl {
            Some(value)
        } else {
            None
        }),
{
}

/// Storing under one key leaves what is served for every other key unchanged.
pub proof fn lemma_insert_keeps_other_keys(
    contents: Map<Seq<char>, (serde_json::Value, u128)>,
    ttl: u128,
    key: Seq<char>,
    value: serde_json::Value,
    stored_at: u128,
    other: Seq<char>,
    now: u128,
)
    requires
        other != key,
    ensures
        fresh_value(contents.insert(key, (value, stored_at)), ttl, other, now) == fresh_value(
            contents,
            ttl,
            other,
            now,
        ),
{
}

/// Once an entry has expired it stays expired at every later instant.
pub proof fn lemma_expired_stays_expired(
    contents: Map<Seq<char>, (serde_json::Value, u128)>,
    ttl: u128,
    key: Seq<char>,
    earlier: u128,
    later: u128,
)
    requires
        earlier <= later,
        fresh_value(contents, ttl, key, earlier) is None,
    ensures
        fresh_value(contents, ttl, key, later) is None,
{
}

} // verus!
