//! The cache of Cognito's signing keys (JWKS): which key verifies a token
//! with a given key id, when the cached set is fresh enough to answer, and
//! what a refresh does to the cache.

use vstd::prelude::*;
use vstd::string::*;
use crate::jwt::{decoding_key_from_rsa, rsa_decoding_key};
use crate::keyed::KeyedStore;

verus! {

/// One RSA key of a key set, as published.
#[derive(Debug, Clone)]
pub struct Jwk {
    pub kid: String,
    pub n: String,
    pub e: String,
}

/// A published key set.
#[derive(Debug, Clone)]
pub struct JwkSet {
    pub keys: Vec<Jwk>,
}

/// Why no key could be produced.
#[derive(Debug)]
pub enum JwksCacheError {
    /// The key set could not be fetched; the HTTP client's error, rendered.
    Http(String),
    /// Neither the cached nor a freshly fetched set has the key id.
    NoMatchingKey,
    /// The key material is unusable.
    InvalidKey,
}

/// `OffsetDateTime::now_utc`, as nanoseconds since the Unix epoch. Nothing
/// is stated of the value: it is the time.
#[verifier::external_body]
fn utc_now_nanos() -> i128 {
    time::OffsetDateTime::now_utc().unix_timestamp_nanos()
}

/// The verification keys a key set yields, by key id: every key whose
/// components decode, a later key with the same id replacing an earlier one.
pub open spec fn jwk_keys(s: Seq<Jwk>) -> Map<Seq<char>, jsonwebtoken::DecodingKey>
    decreases s.len(),
{
    if s.len() == 0 {
        Map::empty()
    } else {
        let earlier = jwk_keys(s.drop_last());
        match rsa_decoding_key(s.last().n@, s.last().e@) {
            Some(k) => earlier.insert(s.last().kid@, k),
            None => earlier,
        }
    }
}

/// The address of a user pool's published key set.
pub open spec fn jwks_url(region: Seq<char>, user_pool_id: Seq<char>) -> Seq<char> {
    "https://cognito-idp."@ + region + ".amazonaws.com/"@ + user_pool_id + "/.well-known/jwks.json"@
}

/// The published key set of Cognito user pool `user_pool_id` in `region`.
pub fn cognito_jwks_url(region: &str, user_pool_id: &str) -> (u: String)
    ensures
        u@ == jwks_url(region@, user_pool_id@),
{
    let mut u = String::from_str("https://cognito-idp.");
    u.append(region);
    u.append(".amazonaws.com/");
    u.append(user_pool_id);
    u.append("/.well-known/jwks.json");
    u
}

/// The set of keys was fetched `ttl` or less ago: `now - fetched_at < ttl`.
pub open spec fn fresh_at(fetched_at: i128, ttl: i128, now: i128) -> bool {
    now - fetched_at < ttl
}

/// A fetched key set: its keys by key id and when it was fetched.
pub struct CachedJwks {
    keys: KeyedStore<jsonwebtoken::DecodingKey>,
    fetched_at: i128,
}

impl CachedJwks {
    /// The keys by key id.
    pub closed spec fn key_map(self) -> Map<Seq<char>, jsonwebtoken::DecodingKey> {
        self.keys.map()
    }

    /// When the set was fetched, in nanoseconds since the Unix epoch.
    pub closed spec fn fetched_at(self) -> i128 {
        self.fetched_at
    }

    /// The keys of a fetched set, stamped `fetched_at`: every key whose
    /// components decode, by key id (a later duplicate id wins); keys that do
    /// not decode are skipped.
    pub fn from_jwk_set_at(set: JwkSet, fetched_at: i128) -> (c: CachedJwks)
        ensures
            c.key_map() == jwk_keys(set.keys@),
            c.fetched_at() == fetched_at,
    {
        let ghost orig = set.keys@;
        let mut rest = set.keys;
        let mut c = CachedJwks { keys: KeyedStore::new(), fetched_at };
        let n = rest.len();
        let mut i: usize = 0;
        assert(c.key_map() == jwk_keys(orig.take(0)));
        while i < n
            invariant
                n == orig.len(),
                i <= n,
                rest@ == orig.skip(i as int),
                c.key_map() == jwk_keys(orig.take(i as int)),
                c.fetched_at() == fetched_at,
            decreases n - i,
        {
            let jwk = rest.remove(0);
            assert(jwk == orig[i as int]);
            assert(orig.take(i + 1).drop_last() =~= orig.take(i as int));
            match decoding_key_from_rsa(jwk.n.as_str(), jwk.e.as_str()) {
                Ok(key) => { c.keys.insert(jwk.kid, key); },
                Err(_) => {},
            }
            assert(rest@ =~= orig.skip(i + 1));
            i = i + 1;
        }
        assert(orig.take(n as int) =~= orig);
        c
    }

    /// The keys of a set fetched now. The clock is read here: the stamp is
    /// the time.
    pub fn from_jwk_set(set: JwkSet) -> (c: CachedJwks)
        ensures
            c.key_map() == jwk_keys(set.keys@),
    {
        let now = utc_now_nanos();
        CachedJwks::from_jwk_set_at(set, now)
    }

    /// The key with id `kid`, if the set has one.
    pub fn key(&self, kid: &str) -> (r: Option<jsonwebtoken::DecodingKey>)
        ensures
            r == (if self.key_map().contains_key(kid@) { Some(self.key_map()[kid@]) } else { None }),
    {
        match self.keys.get(kid) {
            Some(k) => Some(k.clone()),
            None => None,
        }
    }
}

/// What `JwksCache::cached_key_at` answers: the key of the cached set when
/// the set is fresh at `now` and has `kid`; otherwise nothing, and the set
/// must be fetched again.
pub open spec fn cached_answer(
    cached: Option<CachedJwks>,
    ttl: i128,
    kid: Seq<char>,
    now: i128,
) -> Option<jsonwebtoken::DecodingKey> {
    match cached {
        Some(entry) => if fresh_at(entry.fetched_at(), ttl, now) && entry.key_map().contains_key(kid) {
            Some(entry.key_map()[kid])
        } else {
            None
        },
        None => None,
    }
}

/// The first step of finding the key for a key id: answer from the cached
/// set, or fetch the set from the given address.
#[derive(Debug)]
pub enum KeyLookup {
    /// The cached set is fresh and has the key id: this key, no fetch.
    Cached(jsonwebtoken::DecodingKey),
    /// The set must be fetched from this address; then `key_for_kid`.
    Fetch(String),
}

/// The signing keys of one Cognito user pool, cached for a time to live.
pub struct JwksCache {
    pub region: String,
    pub user_pool_id: String,
    pub cognito_app_client_id: String,
    pub jwks_url: String,
    pub ttl: i128,
    pub inner: Option<CachedJwks>,
}

impl JwksCache {
    /// The cached key set, if one was fetched.
    pub open spec fn cached(self) -> Option<CachedJwks> {
        self.inner
    }

    /// The time to live of a fetched set, in nanoseconds.
    pub open spec fn ttl(self) -> i128 {
        self.ttl
    }

    /// The address the key set is fetched from.
    pub open spec fn url(self) -> Seq<char> {
        self.jwks_url@
    }

    /// An empty cache for user pool `user_pool_id` in `region`, whose
    /// fetched sets live `ttl_nanos` nanoseconds.
    pub fn new(region: &str, user_pool_id: &str, ttl_nanos: i128, app_client_id: String) -> (c: JwksCache)
        ensures
            c.region@ == region@,
            c.user_pool_id@ == user_pool_id@,
            c.cognito_app_client_id == app_client_id,
            c.url() == jwks_url(region@, user_pool_id@),
            c.ttl() == ttl_nanos,
            c.cached() is None,
    {
        let jwks_url = cognito_jwks_url(region, user_pool_id);
        JwksCache {
            region: String::from_str(region),
            user_pool_id: String::from_str(user_pool_id),
            cognito_app_client_id: app_client_id,
            jwks_url,
            ttl: ttl_nanos,
            inner: None,
        }
    }

    /// The address the key set is fetched from.
    pub fn jwks_url(&self) -> (u: &str)
        ensures
            u@ == self.url(),
    {
        self.jwks_url.as_str()
    }

    /// Whether `entry` was fetched less than `ttl` before `now`.
    pub fn is_fresh(entry: &CachedJwks, ttl: i128, now: i128) -> (b: bool)
        ensures
            b == fresh_at(entry.fetched_at(), ttl, now),
    {
        let fetched_at = entry.fetched_at;
        match now.checked_sub(fetched_at) {
            Some(age) => age < ttl,
            None => now < fetched_at,
        }
    }

    /// The key for `kid` from the cached set, when that set is fresh at
    /// `now` and has the id; nothing means the set must be fetched again.
    pub fn cached_key_at(&self, kid: &str, now: i128) -> (r: Option<jsonwebtoken::DecodingKey>)
        ensures
            r == cached_answer(self.cached(), self.ttl(), kid@, now),
    {
        match &self.inner {
            Some(entry) => {
                if JwksCache::is_fresh(entry, self.ttl, now) {
                    entry.key(kid)
                } else {
                    None
                }
            },
            None => None,
        }
    }

    /// The key for `kid` from the cached set, if the set is fresh now: the
    /// answer `cached_key_at` gives at the clock's reading. Nothing is known
    /// of the reading, so the key is owed exactly when the set has `kid` and
    /// is fresh at every reading the clock can give.
    pub fn cached_key(&self, kid: &str) -> (r: Option<jsonwebtoken::DecodingKey>)
        ensures
            exists|now: i128| r == cached_answer(self.cached(), self.ttl(), kid@, now),
            r matches Some(k) ==> self.cached() matches Some(entry) && entry.key_map().contains_key(kid@)
                && entry.key_map()[kid@] == k,
    {
        let now = utc_now_nanos();
        let r = self.cached_key_at(kid, now);
        assert(r == cached_answer(self.cached(), self.ttl(), kid@, now));
        r
    }

    /// The first step of finding the key for `kid` at instant `now`: when
    /// the cached set is fresh and has `kid`, its key (no fetch, the cache as
    /// it is); otherwise fetch the set from the cache's address.
    pub fn lookup_key_at(&self, kid: &str, now: i128) -> (r: KeyLookup)
        ensures
            match cached_answer(self.cached(), self.ttl(), kid@, now) {
                Some(k) => r == KeyLookup::Cached(k),
                None => r matches KeyLookup::Fetch(u) && u@ == self.url(),
            },
    {
        match self.cached_key_at(kid, now) {
            Some(k) => KeyLookup::Cached(k),
            None => KeyLookup::Fetch(self.jwks_url.clone()),
        }
    }

    /// The first step of finding the key for `kid` now: the answer
    /// `lookup_key_at` gives at the clock's reading.
    pub fn lookup_key(&self, kid: &str) -> (r: KeyLookup)
        ensures
            exists|now: i128| match #[trigger] cached_answer(self.cached(), self.ttl(), kid@, now) {
                Some(k) => r == KeyLookup::Cached(k),
                None => r matches KeyLookup::Fetch(u) && u@ == self.url(),
            },
    {
        let now = utc_now_nanos();
        let r = self.lookup_key_at(kid, now);
        assert(match cached_answer(self.cached(), self.ttl(), kid@, now) {
            Some(k) => r == KeyLookup::Cached(k),
            None => r matches KeyLookup::Fetch(u) && u@ == self.url(),
        });
        r
    }

    /// After a fetch of the key set: a failed fetch is passed on; a set
    /// without `kid` is `NoMatchingKey` and is dropped, the cache unchanged;
    /// otherwise the set replaces the cached one and its key for `kid` is
    /// handed back.
    pub fn key_for_kid(&mut self, kid: &str, refreshed: Result<CachedJwks, JwksCacheError>) -> (r: Result<jsonwebtoken::DecodingKey, JwksCacheError>)
        ensures
            final(self).region == old(self).region,
            final(self).user_pool_id == old(self).user_pool_id,
            final(self).cognito_app_client_id == old(self).cognito_app_client_id,
            final(self).url() == old(self).url(),
            final(self).ttl() == old(self).ttl(),
            match refreshed {
                Err(e) => r == Err::<jsonwebtoken::DecodingKey, JwksCacheError>(e) && final(self).cached() == old(self).cached(),
                Ok(set) => if set.key_map().contains_key(kid@) {
                    &&& r == Ok::<jsonwebtoken::DecodingKey, JwksCacheError>(set.key_map()[kid@])
                    &&& final(self).cached() == Some(set)
                } else {
                    &&& r matches Err(JwksCacheError::NoMatchingKey)
                    &&& final(self).cached() == old(self).cached()
                },
            },
    {
        match refreshed {
            Err(e) => Err(e),
            Ok(set) => {
                match set.key(kid) {
                    Some(key) => {
                        self.inner = Some(set);
                        Ok(key)
                    },
                    None => Err(JwksCacheError::NoMatchingKey),
                }
            },
        }
    }
}

/// A key handed out after a refresh is served from the cache, without a new
/// fetch, until the refreshed set is `ttl` old.
pub proof fn lemma_refreshed_key_is_cached(set: CachedJwks, ttl: i128, kid: Seq<char>, now: i128)
    requires
        set.key_map().contains_key(kid),
        now - set.fetched_at() < ttl,
    ensures
        cached_answer(Some(set), ttl, kid, now) == Some(set.key_map()[kid]),
{
}

/// The cache answers only with keys of its own set, and only for key ids
/// that set holds.
pub proof fn lemma_cached_answer_from_set(cached: Option<CachedJwks>, ttl: i128, kid: Seq<char>, now: i128)
    ensures
        cached_answer(cached, ttl, kid, now) matches Some(k) ==> cached matches Some(entry)
            && entry.key_map().contains_key(kid) && entry.key_map()[kid] == k,
{
}

} // verus!
