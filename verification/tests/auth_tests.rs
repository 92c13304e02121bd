use portfolio_api::auth::{bearer_token, check_claims, verification_key, cognito_issuer, token_key_id, verify_cognito_claims, CognitoClaims, VerifyError};
use portfolio_api::jwk_cache::{cognito_jwks_url, CachedJwks, JwkSet, Jwk, JwksCache, JwksCacheError, KeyLookup};
use portfolio_api::jwt::{decode_jwt_header, decoding_key_from_rsa, invalid_token_error, JwtAlgorithm};

const RS256_KID: &str = "eyJhbGciOiJSUzI1NiIsImtpZCI6ImtleS0xIiwidHlwIjoiSldUIn0";
const RS256_NO_KID: &str = "eyJhbGciOiJSUzI1NiIsInR5cCI6IkpXVCJ9";
const HS256_KID: &str = "eyJhbGciOiJIUzI1NiIsImtpZCI6ImtleS0xIiwidHlwIjoiSldUIn0";
const PAYLOAD: &str = "eyJzdWIiOiJ1In0";

fn token(header: &str) -> String {
    format!("{header}.{PAYLOAD}.c2ln")
}

#[test]
fn urls_of_a_user_pool() {
    assert_eq!(
        cognito_jwks_url("eu-central-1", "eu-central-1_AbC"),
        "https://cognito-idp.eu-central-1.amazonaws.com/eu-central-1_AbC/.well-known/jwks.json"
    );
    assert_eq!(cognito_issuer("eu-central-1", "eu-central-1_AbC"), "https://cognito-idp.eu-central-1.amazonaws.com/eu-central-1_AbC");
    let cache = JwksCache::new("us-east-1", "pool", 10, "client".to_string());
    assert_eq!(cache.jwks_url(), "https://cognito-idp.us-east-1.amazonaws.com/pool/.well-known/jwks.json");
    assert_eq!(cache.region, "us-east-1");
    assert!(cache.inner.is_none());
}

#[test]
fn header_wrapper_reads_algorithm_and_kid() {
    let h = decode_jwt_header(&token(RS256_KID)).unwrap();
    assert_eq!(h.alg, JwtAlgorithm::RS256);
    assert_eq!(h.kid.as_deref(), Some("key-1"));
    assert!(decode_jwt_header("not-a-token").is_err());
}

#[test]
fn header_checks_in_order() {
    assert_eq!(token_key_id(&token(RS256_KID)).unwrap(), "key-1");
    assert!(matches!(token_key_id(&token(RS256_NO_KID)), Err(VerifyError::MissingKid)));
    assert!(matches!(token_key_id(&token(HS256_KID)), Err(VerifyError::UnsupportedAlg)));
    assert!(matches!(token_key_id("garbage"), Err(VerifyError::InvalidHeader)));
    assert!(matches!(token_key_id("a.b.c"), Err(VerifyError::InvalidHeader)));
}

fn claims(iss: &str, token_use: &str, client_id: Option<&str>) -> CognitoClaims {
    CognitoClaims {
        sub: "user".to_string(),
        iss: iss.to_string(),
        exp: 2_000_000_000,
        iat: 1_000_000_000,
        token_use: token_use.to_string(),
        aud: None,
        client_id: client_id.map(|s| s.to_string()),
    }
}

const ISS: &str = "https://cognito-idp.us-east-1.amazonaws.com/pool";

#[test]
fn claims_checks() {
    let ok = check_claims(claims(ISS, "access", Some("client")), ISS, "client").unwrap();
    assert_eq!(ok.sub, "user");
    assert!(matches!(check_claims(claims("other", "id", None), ISS, "client"), Err(VerifyError::IssuerMismatch)));
    assert!(matches!(check_claims(claims(ISS, "id", Some("client")), ISS, "client"), Err(VerifyError::TokenUseMismatch)));
    assert!(matches!(check_claims(claims(ISS, "access", Some("other")), ISS, "client"), Err(VerifyError::AudienceMismatch)));
    assert!(matches!(check_claims(claims(ISS, "access", None), ISS, "client"), Err(VerifyError::AudienceMismatch)));
}

#[test]
fn claims_checked_against_the_pool() {
    let cache = JwksCache::new("us-east-1", "pool", 10, "client".to_string());
    assert!(verify_cognito_claims(Ok(claims(ISS, "access", Some("client"))), &cache).is_ok());
    assert!(matches!(verify_cognito_claims(Ok(claims(ISS, "access", Some("x"))), &cache), Err(VerifyError::AudienceMismatch)));
    match verify_cognito_claims(Err(invalid_token_error()), &cache) {
        Err(VerifyError::Jwt(e)) => assert!(matches!(e.kind(), jsonwebtoken::errors::ErrorKind::InvalidToken)),
        _ => panic!("expected the decode error to pass through"),
    }
}

#[test]
fn bearer_tokens() {
    assert_eq!(bearer_token("Bearer abc.def").unwrap(), "abc.def");
    assert_eq!(bearer_token("abc.def").unwrap(), "abc.def");
    assert_eq!(bearer_token("Bearer ").unwrap(), "");
    assert_eq!(bearer_token("bearer x").unwrap(), "bearer x");
    match bearer_token("") {
        Err(VerifyError::Jwt(e)) => assert!(matches!(e.kind(), jsonwebtoken::errors::ErrorKind::InvalidToken)),
        _ => panic!("empty header must be refused"),
    }
}

fn jwk(kid: &str, n: &str) -> Jwk {
    Jwk { kid: kid.to_string(), n: n.to_string(), e: "AQAB".to_string() }
}

#[test]
fn rsa_key_wrapper() {
    assert!(decoding_key_from_rsa("sXch", "AQAB").is_ok());
    assert!(decoding_key_from_rsa("!!!", "AQAB").is_err());
}

#[test]
fn key_set_keeps_decodable_keys() {
    let set = CachedJwks::from_jwk_set_at(JwkSet { keys: vec![jwk("a", "sXch"), jwk("bad", "!!!"), jwk("b", "sXch")] }, 0);
    assert!(set.key("a").is_some());
    assert!(set.key("b").is_some());
    assert!(set.key("bad").is_none());
    assert!(set.key("c").is_none());
}

#[test]
fn key_cache_refresh_flow() {
    let mut cache = JwksCache::new("us-east-1", "pool", 100, "client".to_string());
    assert!(cache.cached_key_at("a", 0).is_none());
    // A refreshed set without the key id is dropped.
    let set = CachedJwks::from_jwk_set_at(JwkSet { keys: vec![jwk("b", "sXch")] }, 0);
    assert!(matches!(cache.key_for_kid("a", Ok(set)), Err(JwksCacheError::NoMatchingKey)));
    assert!(cache.inner.is_none());
    // A failed fetch is passed on.
    assert!(matches!(cache.key_for_kid("a", Err(JwksCacheError::Http("down".to_string()))), Err(JwksCacheError::Http(_))));
    // A refreshed set with the key id is kept and serves until it is stale.
    let set = CachedJwks::from_jwk_set_at(JwkSet { keys: vec![jwk("a", "sXch")] }, 1_000);
    assert!(cache.key_for_kid("a", Ok(set)).is_ok());
    assert!(cache.cached_key_at("a", 1_050).is_some());
    assert!(cache.cached_key_at("a", 1_099).is_some());
    assert!(cache.cached_key_at("a", 1_100).is_none());
    assert!(cache.cached_key_at("z", 1_050).is_none());
}

#[test]
fn freshness_of_a_key_set() {
    let set = CachedJwks::from_jwk_set_at(JwkSet { keys: vec![] }, 10);
    assert!(JwksCache::is_fresh(&set, 5, 14));
    assert!(!JwksCache::is_fresh(&set, 5, 15));
    assert!(JwksCache::is_fresh(&set, 5, 0));
    let far = CachedJwks::from_jwk_set_at(JwkSet { keys: vec![] }, i128::MIN);
    assert!(!JwksCache::is_fresh(&far, i128::MAX, i128::MAX));
    let future = CachedJwks::from_jwk_set_at(JwkSet { keys: vec![] }, i128::MAX);
    assert!(JwksCache::is_fresh(&future, i128::MIN + 1, i128::MIN));
}

#[test]
fn clock_based_key_set() {
    let mut cache = JwksCache::new("r", "p", 60_000_000_000, "c".to_string());
    let set = CachedJwks::from_jwk_set(JwkSet { keys: vec![jwk("a", "sXch")] });
    assert!(cache.key_for_kid("a", Ok(set)).is_ok());
    assert!(cache.cached_key("a").is_some());
    assert!(cache.cached_key("b").is_none());
}

#[test]
fn key_lookup_answers_from_a_fresh_set_or_asks_for_a_fetch() {
    let mut cache = JwksCache::new("us-east-1", "pool", 100, "client".to_string());
    match cache.lookup_key_at("a", 0) {
        KeyLookup::Fetch(url) => assert_eq!(url, "https://cognito-idp.us-east-1.amazonaws.com/pool/.well-known/jwks.json"),
        KeyLookup::Cached(_) => panic!("empty cache cannot answer"),
    }
    let set = CachedJwks::from_jwk_set_at(JwkSet { keys: vec![jwk("a", "sXch")] }, 1_000);
    assert!(cache.key_for_kid("a", Ok(set)).is_ok());
    assert!(matches!(cache.lookup_key_at("a", 1_050), KeyLookup::Cached(_)));
    assert!(matches!(cache.lookup_key_at("b", 1_050), KeyLookup::Fetch(_)));
    assert!(matches!(cache.lookup_key_at("a", 1_100), KeyLookup::Fetch(_)));
    assert!(matches!(cache.lookup_key("z"), KeyLookup::Fetch(_)));
}

#[test]
fn key_cache_errors_become_jwks_errors() {
    assert!(matches!(verification_key(Err(JwksCacheError::NoMatchingKey)), Err(VerifyError::Jwks(JwksCacheError::NoMatchingKey))));
    match verification_key(Err(JwksCacheError::Http("down".to_string()))) {
        Err(VerifyError::Jwks(JwksCacheError::Http(m))) => assert_eq!(m, "down"),
        _ => panic!("expected the cache error to pass through"),
    }
    assert!(verification_key(decoding_key_from_rsa("sXch", "AQAB").map_err(|_| JwksCacheError::InvalidKey)).is_ok());
}
