//! The parts of `jsonwebtoken` this library calls: reading a token's header,
//! building an RSA verification key, and the crate's error.

use vstd::prelude::*;
use jsonwebtoken::Algorithm as A;
use self::JwtAlgorithm as J;

verus! {

/// `jsonwebtoken::errors::Error`, held opaque.
#[verifier::external_type_specification]
#[verifier::external_body]
pub struct ExJwtError(jsonwebtoken::errors::Error);

/// `jsonwebtoken::DecodingKey`, held opaque.
#[verifier::external_type_specification]
#[verifier::external_body]
pub struct ExDecodingKey(jsonwebtoken::DecodingKey);

/// The signing algorithms a token header can name.
#[derive(Debug, Clone, Copy, PartialEq, Eq, Structural)]
pub enum JwtAlgorithm {
    HS256,
    HS384,
    HS512,
    ES256,
    ES384,
    RS256,
    RS384,
    RS512,
    PS256,
    PS384,
    PS512,
    EdDSA,
}

/// The header fields the library reads: the algorithm and the key id.
#[derive(Debug, Clone)]
pub struct JwtHeader {
    pub alg: JwtAlgorithm,
    pub kid: Option<String>,
}

/// A token header as plain values.
pub struct JwtHeaderView {
    pub alg: JwtAlgorithm,
    pub kid: Option<Seq<char>>,
}

impl View for JwtHeader {
    type V = JwtHeaderView;

    open spec fn view(&self) -> JwtHeaderView {
        JwtHeaderView {
            alg: self.alg,
            kid: match self.kid {
                Some(k) => Some(k@),
                None => None,
            },
        }
    }
}

/// The header that `jsonwebtoken::decode_header` reads from a token, or
/// nothing when the token has no decodable header.
pub uninterp spec fn decoded_jwt_header(token: Seq<char>) -> Option<JwtHeaderView>;

/// `jsonwebtoken::decode_header`: the header of `token` (a function of the
/// token's text alone), with its algorithm and key id; an error when the
/// token is not three dot-separated parts or the header is not base64url
/// JSON. What makes a header decodable is left to the crate.
#[verifier::external_body]
pub fn decode_jwt_header(token: &str) -> (r: Result<JwtHeader, jsonwebtoken::errors::Error>)
    ensures
        match r {
            Ok(h) => decoded_jwt_header(token@) == Some(h@),
            Err(_) => decoded_jwt_header(token@) is None,
        },
{
    let h = jsonwebtoken::decode_header(token)?;
    let alg = match h.alg {
        A::HS256 => J::HS256, A::HS384 => J::HS384, A::HS512 => J::HS512,
        A::ES256 => J::ES256, A::ES384 => J::ES384, A::RS256 => J::RS256,
        A::RS384 => J::RS384, A::RS512 => J::RS512, A::PS256 => J::PS256,
        A::PS384 => J::PS384, A::PS512 => J::PS512, A::EdDSA => J::EdDSA,
    };
    Ok(JwtHeader { alg, kid: h.kid })
}

/// The RSA verification key that `DecodingKey::from_rsa_components` builds
/// from a modulus and an exponent, or nothing when either is not base64url.
pub uninterp spec fn rsa_decoding_key(modulus: Seq<char>, exponent: Seq<char>) -> Option<jsonwebtoken::DecodingKey>;

/// `jsonwebtoken::DecodingKey::from_rsa_components`: decodes the two
/// base64url components; the key is a function of them alone.
#[verifier::external_body]
pub fn decoding_key_from_rsa(modulus: &str, exponent: &str) -> (r: Result<jsonwebtoken::DecodingKey, jsonwebtoken::errors::Error>)
    ensures
        match r {
            Ok(k) => rsa_decoding_key(modulus@, exponent@) == Some(k),
            Err(_) => rsa_decoding_key(modulus@, exponent@) is None,
        },
{
    jsonwebtoken::DecodingKey::from_rsa_components(modulus, exponent)
}

/// `DecodingKey::clone` (derived) copies the key.
pub assume_specification[ <jsonwebtoken::DecodingKey as Clone>::clone ](k: &jsonwebtoken::DecodingKey) -> (r: jsonwebtoken::DecodingKey)
    ensures
        r == *k,
;

/// Whether `Error::kind` of a `jsonwebtoken` error is
/// `ErrorKind::InvalidToken`.
pub uninterp spec fn jwt_error_is_invalid_token(e: jsonwebtoken::errors::Error) -> bool;

/// `jsonwebtoken::errors::Error::from(ErrorKind::InvalidToken)`: the error
/// for a token that is not shaped like a JWT; its `kind()` is
/// `InvalidToken` (`new_error` boxes the kind given).
#[verifier::external_body]
pub fn invalid_token_error() -> (e: jsonwebtoken::errors::Error)
    ensures
        jwt_error_is_invalid_token(e),
{
    jsonwebtoken::errors::Error::from(jsonwebtoken::errors::ErrorKind::InvalidToken)
}

} // verus!
