//! Bearer-token structure and verification.
//!
//! Structural decoding and the cryptographic check (signature, expiry,
//! audience, issuer) are performed by the `jsonwebtoken` crate behind
//! trusted wrappers; everything decided on their results is verified.

use vstd::prelude::*;
use crate::access::Claims;
use crate::error::ClientError;
use crate::error::ClientErrorView;
use jsonwebtoken::Algorithm;
use jsonwebtoken::DecodingKey;
use jsonwebtoken::Validation;
use jsonwebtoken::decode;
use serde_json::Value;

verus! {

/// The part of a token's header the middleware reads: the declared signing
/// algorithm, by name, and the key id, when the header carries one.
#[derive(Debug, Clone)]
pub struct TokenHeader {
    pub alg: String,
    pub kid: Option<String>,
}

/// A token header as mathematical values.
pub ghost struct TokenHeaderView {
    pub alg: Seq<char>,
    pub kid: Option<Seq<char>>,
}

impl View for TokenHeader {
    type V = TokenHeaderView;

    open spec fn view(&self) -> TokenHeaderView {
        TokenHeaderView {
            alg: self.alg@,
            kid: match self.kid {
                None => None,
                Some(k) => Some(k@),
            },
        }
    }
}

/// What a token's header decodes to: `None` where the token is not even
/// structurally a signed token, otherwise the declared algorithm's name and
/// the key id. The decode is performed by an outside crate; this name stands
/// for its (deterministic) result.
pub uninterp spec fn token_header_of(token: Seq<char>) -> Option<TokenHeaderView>;

/// Relies on `jsonwebtoken::decode_header`: the token either fails
/// structural decoding or yields its header, whose algorithm is reported
/// under the name that crate prints for it (for instance `RS256`) and whose
/// key id is copied out unchanged. No signature is checked here.
#[verifier::external_body]
pub(crate) fn decode_token_header(token: &str) -> (r: Result<TokenHeader, ()>)
    ensures
        r is Ok <==> token_header_of(token@) is Some,
        (r matches Ok(h) ==> token_header_of(token@) == Some(h@)),
{
    match jsonwebtoken::decode_header(token) {
        Ok(header) => Ok(TokenHeader { alg: format!("{:?}", header.alg), kid: header.kid }),
        Err(_) => Err(()),
    }
}

/// What reading the permission claims out of a token's own payload yields:
/// a deterministic function of the token alone, since the claim set is
/// decoded from the token's payload. The outer level is `None` where the
/// payload or its `permissions` claim is malformed (not absent, null, or an
/// array of strings); the inner level is `None` where the claim is absent
/// or null. Whether any of it is *trusted* — signature, expiry, audience,
/// issuer — is a separate question that also depends on the key, the
/// configuration and the clock, and is answered only by which outcome the
/// verifying call takes.
pub uninterp spec fn permissions_of(token: Seq<char>) -> Option<Option<Seq<Seq<char>>>>;

/// Relies on `jsonwebtoken::DecodingKey::from_rsa_components` and
/// `jsonwebtoken::decode` restricted to RS256, and on
/// `serde_json::Value::get` for the claim: the call succeeds only if the
/// key material is usable and the token's signature over that RSA key, its
/// expiry, its audience (must equal `audience`) and its issuer (must equal
/// `issuer`) all check out, and then yields the permission claims read from
/// the token's payload — absent or null is no set, an array of strings is
/// that set, any other shape fails. Expiry depends on the clock, so nothing
/// is promised about which outcome occurs; but whatever comes back out of
/// `Ok` is exactly the token's own permission claims.
#[verifier::external_body]
pub(crate) fn verify_rs256_permissions(
    token: &str,
    n: &str,
    e: &str,
    audience: &str,
    issuer: &str,
) -> (r: Result<Claims, ()>)
    ensures
        (r matches Ok(c) ==> Some(c.perms_view()) == permissions_of(token@)),
        (permissions_of(token@) is None ==> r is Err),
{
    let key = DecodingKey::from_rsa_components(n, e).map_err(|_| ())?;
    let mut validation = Validation::new(Algorithm::RS256);
    validation.set_audience(&[audience]);
    validation.set_issuer(&[issuer]);
    let data = decode::<Value>(token, &key, &validation).map_err(|_| ())?;
    match data.claims.get("permissions") {
        None | Some(Value::Null) => Ok(Claims { permissions: None }),
        Some(Value::Array(items)) => items.iter()
            .map(|v| v.as_str().map(String::from).ok_or(()))
            .collect::<Result<Vec<String>, ()>>()
            .map(|perms| Claims { permissions: Some(perms) }),
        Some(_) => Err(()),
    }
}

/// Verifies a token against an RSA key and the configured audience and
/// issuer, and reads its permission claims. Every failure — unusable key
/// material, bad signature, expired token, wrong audience or issuer,
/// malformed permission claim — is the single decode failure, exactly as a
/// caller observes it; and a success carries the token's own permission
/// claims, nothing else.
pub fn verified_claims(
    token: &str,
    n: &str,
    e: &str,
    audience: &str,
    issuer: &str,
) -> (r: Result<Claims, ClientError>)
    ensures
        (r matches Ok(c) ==> Some(c.perms_view()) == permissions_of(token@)),
        (r matches Err(err) ==> err@ == ClientErrorView::Decode),
{
    match verify_rs256_permissions(token, n, e, audience, issuer) {
        Err(_) => Err(ClientError::Decode),
        Ok(claims) => Ok(claims),
    }
}

} // verus!
