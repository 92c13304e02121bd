//! Checking Cognito access tokens: the header (key id, RS256), the issuer,
//! the token use and the app client the token was issued to.

use vstd::prelude::*;
use vstd::string::*;
use crate::jwk_cache::{JwksCache, JwksCacheError};
use crate::jwt::{decode_jwt_header, decoded_jwt_header, invalid_token_error, jwt_error_is_invalid_token, JwtAlgorithm};
use crate::text::{has_prefix, same_text, starts_with};

verus! {

/// The claims of a Cognito access token that the API reads.
#[derive(Debug, Clone)]
pub struct CognitoClaims {
    pub sub: String,
    pub iss: String,
    pub exp: usize,
    pub iat: usize,
    pub token_use: String,
    pub aud: Option<String>,
    pub client_id: Option<String>,
}

/// Why a token was refused.
#[derive(Debug)]
pub enum VerifyError {
    /// The token has no decodable header.
    InvalidHeader,
    /// The header names no key id.
    MissingKid,
    /// The header names an algorithm other than RS256.
    UnsupportedAlg,
    /// No verification key could be had.
    Jwks(JwksCacheError),
    /// The signature or the standard claims did not verify.
    Jwt(jsonwebtoken::errors::Error),
    /// The issuer is not the user pool.
    IssuerMismatch,
    /// The token was issued to another app client.
    AudienceMismatch,
    /// The token is not an access token.
    TokenUseMismatch,
}

/// The issuer of tokens of user pool `user_pool_id` in `region`.
pub open spec fn issuer_url(region: Seq<char>, user_pool_id: Seq<char>) -> Seq<char> {
    "https://cognito-idp."@ + region + ".amazonaws.com/"@ + user_pool_id
}

/// The issuer of tokens of user pool `user_pool_id` in `region`.
pub fn cognito_issuer(region: &str, user_pool_id: &str) -> (u: String)
    ensures
        u@ == issuer_url(region@, user_pool_id@),
{
    let mut u = String::from_str("https://cognito-idp.");
    u.append(region);
    u.append(".amazonaws.com/");
    u.append(user_pool_id);
    u
}

/// What the header check answers for a token: the key id when the header
/// decodes, names a key id and names RS256.
pub open spec fn header_verdict(token: Seq<char>) -> Result<Seq<char>, VerifyError> {
    match decoded_jwt_header(token) {
        None => Err(VerifyError::InvalidHeader),
        Some(h) => match h.kid {
            None => Err(VerifyError::MissingKid),
            Some(kid) => if h.alg != JwtAlgorithm::RS256 {
                Err(VerifyError::UnsupportedAlg)
            } else {
                Ok(kid)
            },
        },
    }
}

/// The key id a token must be verified with, read from its header: the
/// header must decode, name a key id and name RS256, checked in that order.
pub fn token_key_id(token: &str) -> (r: Result<String, VerifyError>)
    ensures
        match header_verdict(token@) {
            Ok(kid) => r matches Ok(k) && k@ == kid,
            Err(VerifyError::InvalidHeader) => r matches Err(VerifyError::InvalidHeader),
            Err(VerifyError::MissingKid) => r matches Err(VerifyError::MissingKid),
            Err(_) => r matches Err(VerifyError::UnsupportedAlg),
        },
{
    let header = match decode_jwt_header(token) {
        Ok(h) => h,
        Err(_) => { return Err(VerifyError::InvalidHeader); },
    };
    let kid = match header.kid {
        Some(k) => k,
        None => { return Err(VerifyError::MissingKid); },
    };
    if header.alg != JwtAlgorithm::RS256 {
        return Err(VerifyError::UnsupportedAlg);
    }
    Ok(kid)
}

/// The key a token is verified with, from the key cache's answer: a key is
/// used as it is; a key cache error is answered as `Jwks` of that error.
pub fn verification_key(found: Result<jsonwebtoken::DecodingKey, JwksCacheError>) -> (r: Result<jsonwebtoken::DecodingKey, VerifyError>)
    ensures
        match found {
            Ok(k) => r == Ok::<jsonwebtoken::DecodingKey, VerifyError>(k),
            Err(e) => r matches Err(VerifyError::Jwks(e2)) && e2 == e,
        },
{
    match found {
        Ok(k) => Ok(k),
        Err(e) => Err(VerifyError::Jwks(e)),
    }
}

/// The claims an access token of this API carries: issued by `issuer`, an
/// access token, and issued to app client `app_client_id`.
pub open spec fn claims_accepted(c: CognitoClaims, issuer: Seq<char>, app_client_id: Seq<char>) -> bool {
    &&& c.iss@ == issuer
    &&& c.token_use@ == "access"@
    &&& match c.client_id {
        Some(id) => id@ == app_client_id,
        None => false,
    }
}

/// Checks decoded claims: the issuer first, then the token use, then the
/// app client.
pub fn check_claims(claims: CognitoClaims, issuer: &str, app_client_id: &str) -> (r: Result<CognitoClaims, VerifyError>)
    ensures
        claims_accepted(claims, issuer@, app_client_id@) ==> r == Ok::<CognitoClaims, VerifyError>(claims),
        claims.iss@ != issuer@ ==> r matches Err(VerifyError::IssuerMismatch),
        claims.iss@ == issuer@ && claims.token_use@ != "access"@ ==> r matches Err(VerifyError::TokenUseMismatch),
        claims.iss@ == issuer@ && claims.token_use@ == "access"@ && !claims_accepted(claims, issuer@, app_client_id@)
            ==> r matches Err(VerifyError::AudienceMismatch),
{
    if !same_text(claims.iss.as_str(), issuer) {
        return Err(VerifyError::IssuerMismatch);
    }
    if !same_text(claims.token_use.as_str(), "access") {
        return Err(VerifyError::TokenUseMismatch);
    }
    let matches = match &claims.client_id {
        Some(id) => same_text(id.as_str(), app_client_id),
        None => false,
    };
    if !matches {
        return Err(VerifyError::AudienceMismatch);
    }
    Ok(claims)
}

/// The last step of verifying a token against the user pool of `cache`,
/// once its signature and standard claims were checked (`decoded`): a
/// failed check is `Jwt`, else the claims are checked against the pool's
/// issuer and app client.
pub fn verify_cognito_claims(decoded: Result<CognitoClaims, jsonwebtoken::errors::Error>, cache: &JwksCache) -> (r: Result<CognitoClaims, VerifyError>)
    ensures
        match decoded {
            Err(e) => r matches Err(VerifyError::Jwt(e2)) && e2 == e,
            Ok(claims) => {
                let issuer = issuer_url(cache.region@, cache.user_pool_id@);
                &&& claims_accepted(claims, issuer, cache.cognito_app_client_id@) ==> r == Ok::<CognitoClaims, VerifyError>(claims)
                &&& claims.iss@ != issuer ==> (r matches Err(VerifyError::IssuerMismatch))
                &&& claims.iss@ == issuer && claims.token_use@ != "access"@ ==> (r matches Err(VerifyError::TokenUseMismatch))
                &&& claims.iss@ == issuer && claims.token_use@ == "access"@ && !claims_accepted(claims, issuer, cache.cognito_app_client_id@)
                    ==> (r matches Err(VerifyError::AudienceMismatch))
            },
        },
{
    match decoded {
        Err(e) => Err(VerifyError::Jwt(e)),
        Ok(claims) => {
            let issuer = cognito_issuer(cache.region.as_str(), cache.user_pool_id.as_str());
            check_claims(claims, issuer.as_str(), cache.cognito_app_client_id.as_str())
        },
    }
}

/// The token of an `Authorization` header: the header without a leading
/// `Bearer `, or the whole header when it has none.
pub open spec fn bearer_token_of(header: Seq<char>) -> Seq<char> {
    if has_prefix(header, "Bearer "@) {
        header.skip(7)
    } else {
        header
    }
}

/// The token of an `Authorization` header (empty when the request has
/// none): an empty header is refused as an invalid token (`Jwt` of kind
/// `InvalidToken`).
pub fn bearer_token(auth_header: &str) -> (r: Result<&str, VerifyError>)
    ensures
        auth_header@.len() == 0 ==> (r matches Err(VerifyError::Jwt(e)) && jwt_error_is_invalid_token(e)),
        auth_header@.len() > 0 ==> (r matches Ok(t) && t@ == bearer_token_of(auth_header@)),
{
    let n = auth_header.unicode_len();
    if n == 0 {
        return Err(VerifyError::Jwt(invalid_token_error()));
    }
    let prefix = "Bearer ";
    proof { reveal_strlit("Bearer "); }
    if starts_with(auth_header, prefix) {
        Ok(auth_header.substring_char(7, n))
    } else {
        Ok(auth_header)
    }
}

/// The token checked against a pool is verified with the key the pool
/// publishes: the issuer is the key set's address without its
/// `/.well-known/jwks.json` suffix.
pub proof fn lemma_issuer_is_jwks_base(region: Seq<char>, user_pool_id: Seq<char>)
    ensures
        crate::jwk_cache::jwks_url(region, user_pool_id) == issuer_url(region, user_pool_id) + "/.well-known/jwks.json"@,
{
    assert(crate::jwk_cache::jwks_url(region, user_pool_id) =~= issuer_url(region, user_pool_id) + "/.well-known/jwks.json"@);
}

} // verus!
