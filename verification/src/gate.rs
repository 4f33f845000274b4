//! The authentication/authorization gate.
//!
//! Per request the middleware either admits through the shared-secret shortcut or
//! runs credential extraction, key resolution, token verification and the
//! permission check, in that order, ending in exactly one of two terminal
//! outcomes: the request is forwarded, or it is rejected with one failure of
//! the error taxonomy.
//!
//! Fetching the key set is the one outside effect on the path; the decision is
//! therefore split in two verified phases. [`AuthMiddlewareFactory::begin`]
//! decides everything up to needing the key set; the caller performs the
//! fetch and hands the raw response to [`AuthMiddlewareFactory::finish`],
//! which decides the rest.

use vstd::prelude::*;
use crate::access::AccessLevel;
use crate::access::level_str;
use crate::access::spec_validate_permissions;
use crate::config::ApiKeyData;
use crate::config::Auth0Data;
use crate::error::ClientError;
use crate::error::ClientErrorView;
use crate::keys::KeyAlgorithmView;
use crate::keys::find_key_spec;
use crate::keys::issuer_url;
use crate::keys::keyset_of;
use crate::keys::parse_key_set;
use crate::keys::resolve_rsa_key;
use crate::token::decode_token_header;
use crate::token::permissions_of;
use crate::token::token_header_of;
use crate::token::verified_claims;

verus! {

/// An optional header value as a character sequence.
pub open spec fn opt_str_view(value: Option<&String>) -> Option<Seq<char>> {
    match value {
        None => None,
        Some(s) => Some(s@),
    }
}

/// The bearer token carried by an authorization header value: the value
/// must open with the bearer scheme, `"Bearer "`, and everything after it
/// is the token. Anything else — no header, a bare scheme, another scheme —
/// carries no token.
pub open spec fn spec_bearer_token(header: Option<Seq<char>>) -> Option<Seq<char>> {
    match header {
        None => None,
        Some(value) => if value.len() > 7 && value.subrange(0, 7) == "Bearer "@ {
            Some(value.subrange(7, value.len() as int))
        } else {
            None
        },
    }
}

/// Extracts the bearer token from an authorization header value, if the
/// value is well-formed under the bearer scheme.
pub fn extract_bearer(header: Option<&String>) -> (r: Option<String>)
    ensures
        (r matches Some(token) ==> spec_bearer_token(opt_str_view(header)) == Some(token@)),
        (r is None ==> spec_bearer_token(opt_str_view(header)) is None),
{
    match header {
        None => None,
        Some(value) => {
            let len = value.as_str().unicode_len();
            if len <= 7 {
                None
            } else {
                let prefix = value.as_str().substring_char(0, 7);
                if prefix.to_owned() == "Bearer ".to_owned() {
                    Some(value.as_str().substring_char(7, len).to_owned())
                } else {
                    None
                }
            }
        },
    }
}

/// What the first gate phase decides: admit outright, reject outright, or
/// name the key that must be fetched before the token can be verified.
pub enum GateStep {
    /// The shared-secret shortcut matched; the request is admitted with
    /// full access and no token is ever examined.
    Bypass,
    /// A structurally sound token was presented; its signature can only be
    /// checked once the key named by `kid` has been fetched.
    NeedKeySet { token: String, alg: String, kid: String },
    /// The request is rejected before any key is fetched.
    Reject(ClientError),
}

/// A first-phase decision as mathematical values.
pub ghost enum GateStepView {
    Bypass,
    NeedKeySet { token: Seq<char>, alg: Seq<char>, kid: Seq<char> },
    Reject(ClientErrorView),
}

impl View for GateStep {
    type V = GateStepView;

    open spec fn view(&self) -> GateStepView {
        match self {
            GateStep::Bypass => GateStepView::Bypass,
            GateStep::NeedKeySet { token, alg, kid } => GateStepView::NeedKeySet {
                token: token@,
                alg: alg@,
                kid: kid@,
            },
            GateStep::Reject(e) => GateStepView::Reject(e@),
        }
    }
}

/// The first gate phase as a mathematical function: the shortcut wins when
/// it is enabled and the presented secret equals the configured one,
/// whatever else the request carries; otherwise a bearer token must be
/// present, structurally decodable, and must name a key id.
pub open spec fn begin_decision(
    enabled: bool,
    api_key: Seq<char>,
    x_api_key: Option<Seq<char>>,
    authorization: Option<Seq<char>>,
) -> GateStepView {
    if enabled && x_api_key == Some(api_key) {
        GateStepView::Bypass
    } else {
        match spec_bearer_token(authorization) {
            None => GateStepView::Reject(ClientErrorView::Authentication),
            Some(token) => match token_header_of(token) {
                None => GateStepView::Reject(ClientErrorView::Decode),
                Some(header) => match header.kid {
                    None => GateStepView::Reject(
                        ClientErrorView::NotFound("kid not found in token header"@),
                    ),
                    Some(kid) => GateStepView::NeedKeySet { token, alg: header.alg, kid },
                },
            },
        }
    }
}

/// What the cryptographic verification of a token reported: rejected for
/// any reason (bad signature, expired, wrong audience or issuer, malformed
/// claims), or accepted carrying these permission claims. The outcome
/// depends on the clock, so the caller's contract is stated for every value
/// of it.
pub ghost enum VerifyOutcome {
    Rejected,
    Accepted { permissions: Option<Seq<Seq<char>>> },
}

/// A terminal gate outcome: forward the request, or reject it with one
/// failure.
pub ghost enum GateDecision {
    Allow,
    Deny(ClientErrorView),
}

/// The terminal outcome an exec result stands for.
pub open spec fn decision_of(r: Result<(), ClientError>) -> GateDecision {
    match r {
        Ok(_) => GateDecision::Allow,
        Err(e) => GateDecision::Deny(e@),
    }
}

/// A fetched key-set response as mathematical values: transport failure
/// text, or HTTP status with the raw body.
pub open spec fn fetch_view(fetch: Result<(u16, String), String>) -> Result<
    (u16, Seq<char>),
    Seq<char>,
> {
    match fetch {
        Ok((status, body)) => Ok((status, body@)),
        Err(msg) => Err(msg@),
    }
}

/// Where the second phase stands after its structural checks, before any
/// signature is examined.
pub ghost enum StructuralStep {
    /// The key set could not be fetched: transport failure, or an error
    /// status from the endpoint.
    FetchFailed(Seq<char>),
    /// The response body is not a key set.
    ParseFailed,
    /// No key in the set carries the token's key id.
    KeyMissing,
    /// The resolved key's family is not RSA; the payload names it.
    WrongFamily(Seq<char>),
    /// The token's declared algorithm is not RS256.
    WrongAlgorithm(Seq<char>),
    /// Every structural check passed; verification may proceed with this
    /// RSA key material.
    Ready { n: Seq<char>, e: Seq<char> },
}

/// The structural half of the second phase as a mathematical function.
pub open spec fn structural_step(
    fetch: Result<(u16, Seq<char>), Seq<char>>,
    alg: Seq<char>,
    kid: Seq<char>,
) -> StructuralStep {
    match fetch {
        Err(msg) => StructuralStep::FetchFailed(msg),
        Ok((status, body)) => if !(200 <= status < 300) {
            StructuralStep::FetchFailed("key set endpoint returned an error status"@)
        } else {
            match keyset_of(body) {
                None => StructuralStep::ParseFailed,
                Some(keys) => match find_key_spec(keys, kid) {
                    None => StructuralStep::KeyMissing,
                    Some(key) => match key.algorithm {
                        KeyAlgorithmView::Other { name } => StructuralStep::WrongFamily(name),
                        KeyAlgorithmView::Rsa { n, e } => if alg == "RS256"@ {
                            StructuralStep::Ready { n, e }
                        } else {
                            StructuralStep::WrongAlgorithm(alg)
                        },
                    },
                },
            }
        },
    }
}

/// The second gate phase as a mathematical function of the request data,
/// the fetched key set, and the verification outcome. No other input
/// influences it.
pub open spec fn finish_decision(
    fetch: Result<(u16, Seq<char>), Seq<char>>,
    alg: Seq<char>,
    kid: Seq<char>,
    level: AccessLevel,
    outcome: VerifyOutcome,
) -> GateDecision {
    match structural_step(fetch, alg, kid) {
        StructuralStep::FetchFailed(msg) => GateDecision::Deny(
            ClientErrorView::SendRequestError(msg),
        ),
        StructuralStep::ParseFailed => GateDecision::Deny(
            ClientErrorView::JsonPayloadError("error parsing key set response body"@),
        ),
        StructuralStep::KeyMissing => GateDecision::Deny(
            ClientErrorView::NotFound("No JWK found for kid"@),
        ),
        StructuralStep::WrongFamily(name) => GateDecision::Deny(
            ClientErrorView::UnsupportedAlgorithm(name),
        ),
        StructuralStep::WrongAlgorithm(name) => GateDecision::Deny(
            ClientErrorView::UnsupportedAlgorithm(name),
        ),
        StructuralStep::Ready { .. } => match outcome {
            VerifyOutcome::Rejected => GateDecision::Deny(ClientErrorView::Decode),
            VerifyOutcome::Accepted { permissions } => if spec_validate_permissions(
                permissions,
                level_str(level),
            ) {
                GateDecision::Allow
            } else {
                GateDecision::Deny(ClientErrorView::NoPermission(level_str(level)))
            },
        },
    }
}

/// The middleware's read-only configuration, as handed to the routing layer.
pub struct AuthMiddleware {
    pub api_key_data: ApiKeyData,
    pub auth0_data: Auth0Data,
    pub access_level: AccessLevel,
}

impl AuthMiddleware {
    /// Builds the middleware configuration for one protected route.
    pub fn new(auth_data: ApiKeyData, auth0_data: Auth0Data, access_level: AccessLevel) -> (r:
        Self)
        ensures
            r.api_key_data == auth_data,
            r.auth0_data == auth0_data,
            r.access_level == access_level,
    {
        AuthMiddleware { api_key_data: auth_data, auth0_data, access_level }
    }

    /// Builds the per-request gate that carries this configuration — the
    /// downstream service it will guard stays outside this crate.
    pub fn new_factory(&self) -> (r: AuthMiddlewareFactory)
        ensures
            r.api_key_data == self.api_key_data,
            r.auth0_data == self.auth0_data,
            r.access_level == self.access_level,
    {
        AuthMiddlewareFactory {
            api_key_data: ApiKeyData {
                api_key: self.api_key_data.api_key.clone(),
                enable_api_key: self.api_key_data.enable_api_key,
            },
            auth0_data: Auth0Data {
                audience: self.auth0_data.audience.clone(),
                domain: self.auth0_data.domain.clone(),
            },
            access_level: self.access_level,
        }
    }
}

/// The per-request gate: holds the configuration and decides each request
/// in two phases, with the key-set fetch between them.
pub struct AuthMiddlewareFactory {
    pub api_key_data: ApiKeyData,
    pub auth0_data: Auth0Data,
    pub access_level: AccessLevel,
}

impl AuthMiddlewareFactory {
    /// Builds a gate from its configuration.
    pub fn new(api_key_data: ApiKeyData, auth0_data: Auth0Data, access_level: AccessLevel) -> (r:
        Self)
        ensures
            r.api_key_data == api_key_data,
            r.auth0_data == auth0_data,
            r.access_level == access_level,
    {
        AuthMiddlewareFactory { api_key_data, auth0_data, access_level }
    }

    /// First phase: decides the shortcut, credential extraction and the
    /// structural token decode, exactly as [`begin_decision`] states.
    pub fn begin(&self, x_api_key: Option<&String>, authorization: Option<&String>) -> (r:
        GateStep)
        ensures
            r@ == begin_decision(
                self.api_key_data.enable_api_key,
                self.api_key_data.api_key@,
                opt_str_view(x_api_key),
                opt_str_view(authorization),
            ),
    {
        if self.api_key_data.enable_api_key {
            match x_api_key {
                Some(secret) => {
                    if *secret == self.api_key_data.api_key {
                        return GateStep::Bypass;
                    }
                },
                None => {},
            }
        }
        match extract_bearer(authorization) {
            None => GateStep::Reject(ClientError::Authentication),
            Some(token) => match decode_token_header(token.as_str()) {
                Err(_) => GateStep::Reject(ClientError::Decode),
                Ok(header) => match header.kid {
                    None => GateStep::Reject(
                        ClientError::NotFound("kid not found in token header".to_owned()),
                    ),
                    Some(kid) => GateStep::NeedKeySet { token, alg: header.alg, kid },
                },
            },
        }
    }

    /// Second phase, run after the key set named by the first phase has
    /// been fetched: parses the key set, resolves and checks the key,
    /// enforces the RS256 allow-list, verifies the token and evaluates its
    /// permissions. The result is [`finish_decision`] of the inputs and of
    /// whatever the cryptographic verification reported; in particular it
    /// can only be `Ok` once every structural check has passed.
    pub fn finish(
        &self,
        token: &str,
        alg: &str,
        kid: &str,
        fetch: Result<(u16, String), String>,
    ) -> (r: Result<(), ClientError>)
        ensures
            exists|outcome: VerifyOutcome|
                ((outcome matches VerifyOutcome::Accepted { permissions } ==> Some(permissions)
                    == permissions_of(token@)) && decision_of(r) == finish_decision(
                    fetch_view(fetch),
                    alg@,
                    kid@,
                    self.access_level,
                    outcome,
                )),
            (r is Ok ==> structural_step(fetch_view(fetch), alg@, kid@) is Ready),
            (r is Ok ==> ({
                &&& permissions_of(token@) matches Some(perms)
                &&& spec_validate_permissions(perms, level_str(self.access_level))
            })),
            (!(structural_step(fetch_view(fetch), alg@, kid@) is Ready) ==> r is Err),
    {
        let ghost fetch0 = fetch_view(fetch);
        let ghost level = self.access_level;
        let (status, body): (u16, String) = match fetch {
            Err(msg) => {
                let r: Result<(), ClientError> = Err(ClientError::SendRequestError(msg));
                proof {
                    assert(decision_of(r) == finish_decision(
                        fetch0,
                        alg@,
                        kid@,
                        level,
                        VerifyOutcome::Rejected,
                    ));
                }
                return r;
            },
            Ok(pair) => pair,
        };
        if !(200 <= status && status < 300) {
            let r: Result<(), ClientError> = Err(
                ClientError::SendRequestError(
                    "key set endpoint returned an error status".to_owned(),
                ),
            );
            proof {
                assert(decision_of(r) == finish_decision(
                    fetch0,
                    alg@,
                    kid@,
                    level,
                    VerifyOutcome::Rejected,
                ));
            }
            return r;
        }
        let keyset = match parse_key_set(body.as_str()) {
            Err(_) => {
                let r: Result<(), ClientError> = Err(
                    ClientError::JsonPayloadError("error parsing key set response body".to_owned()),
                );
                proof {
                    assert(decision_of(r) == finish_decision(
                        fetch0,
                        alg@,
                        kid@,
                        level,
                        VerifyOutcome::Rejected,
                    ));
                }
                return r;
            },
            Ok(ks) => ks,
        };
        let (n, e) = match resolve_rsa_key(&keyset, kid) {
            Err(err) => {
                let r: Result<(), ClientError> = Err(err);
                proof {
                    assert(decision_of(r) == finish_decision(
                        fetch0,
                        alg@,
                        kid@,
                        level,
                        VerifyOutcome::Rejected,
                    ));
                }
                return r;
            },
            Ok(pair) => pair,
        };
        if !(alg.to_owned() == "RS256".to_owned()) {
            let r: Result<(), ClientError> = Err(ClientError::UnsupportedAlgorithm(alg.to_owned()));
            proof {
                assert(decision_of(r) == finish_decision(
                    fetch0,
                    alg@,
                    kid@,
                    level,
                    VerifyOutcome::Rejected,
                ));
            }
            return r;
        }
        let issuer = issuer_url(self.auth0_data.domain.as_str());
        let claims = match verified_claims(
            token,
            n.as_str(),
            e.as_str(),
            self.auth0_data.audience.as_str(),
            issuer.as_str(),
        ) {
            Err(err) => {
                let r: Result<(), ClientError> = Err(err);
                proof {
                    assert(decision_of(r) == finish_decision(
                        fetch0,
                        alg@,
                        kid@,
                        level,
                        VerifyOutcome::Rejected,
                    ));
                }
                return r;
            },
            Ok(c) => c,
        };
        let ghost outcome = VerifyOutcome::Accepted { permissions: claims.perms_view() };
        proof {
            assert(Some(claims.perms_view()) == permissions_of(token@));
        }
        let level_string = self.access_level.as_string();
        if claims.validate_permissions(level_string) {
            let r: Result<(), ClientError> = Ok(());
            proof {
                assert(decision_of(r) == finish_decision(fetch0, alg@, kid@, level, outcome));
            }
            r
        } else {
            let r: Result<(), ClientError> = Err(
                ClientError::NoPermission(self.access_level.as_string()),
            );
            proof {
                assert(decision_of(r) == finish_decision(fetch0, alg@, kid@, level, outcome));
            }
            r
        }
    }
}

/// Law: with the shortcut enabled and the exact configured secret
/// presented, the middleware admits the request outright, independent of any
/// other header content — no token is examined at all.
pub proof fn lemma_shared_secret_bypasses(
    api_key: Seq<char>,
    x_api_key: Option<Seq<char>>,
    authorization: Option<Seq<char>>,
)
    requires
        x_api_key == Some(api_key),
    ensures
        begin_decision(true, api_key, x_api_key, authorization) == GateStepView::Bypass,
{
}

/// Law: without the shortcut in play, a request that carries no well-formed
/// bearer credential is rejected as unauthenticated.
pub proof fn lemma_missing_bearer_denied(
    enabled: bool,
    api_key: Seq<char>,
    x_api_key: Option<Seq<char>>,
    authorization: Option<Seq<char>>,
)
    requires
        !(enabled && x_api_key == Some(api_key)),
        spec_bearer_token(authorization) is None,
    ensures
        begin_decision(enabled, api_key, x_api_key, authorization) == GateStepView::Reject(
            ClientErrorView::Authentication,
        ),
{
}

/// Law: a token naming a key id that is absent from the fetched key set is
/// denied with the not-found failure, whatever the verification outcome
/// would have been.
pub proof fn lemma_unknown_kid_denied(
    fetch: Result<(u16, Seq<char>), Seq<char>>,
    alg: Seq<char>,
    kid: Seq<char>,
    level: AccessLevel,
    outcome: VerifyOutcome,
)
    requires
        ({
            &&& fetch matches Ok((status, body))
            &&& 200 <= status < 300
            &&& keyset_of(body) matches Some(keys)
            &&& find_key_spec(keys, kid) is None
        }),
    ensures
        finish_decision(fetch, alg, kid, level, outcome) == GateDecision::Deny(
            ClientErrorView::NotFound("No JWK found for kid"@),
        ),
{
}

/// Law: a resolved key of a non-RSA family, or a declared algorithm other
/// than RS256, is denied as unsupported — and the decision is the same for
/// every verification outcome, so no signature check can influence it.
pub proof fn lemma_unsupported_algorithm_denied(
    fetch: Result<(u16, Seq<char>), Seq<char>>,
    alg: Seq<char>,
    kid: Seq<char>,
    level: AccessLevel,
    outcome_a: VerifyOutcome,
    outcome_b: VerifyOutcome,
)
    requires
        structural_step(fetch, alg, kid) is WrongFamily || structural_step(fetch, alg, kid)
            is WrongAlgorithm,
    ensures
        finish_decision(fetch, alg, kid, level, outcome_a) matches GateDecision::Deny(err)
            && err is UnsupportedAlgorithm,
        finish_decision(fetch, alg, kid, level, outcome_a) == finish_decision(
            fetch,
            alg,
            kid,
            level,
            outcome_b,
        ),
{
}

/// Law: once every structural check has passed, a rejection by the
/// cryptographic verification — bad signature, expired token, wrong
/// audience or issuer — is denied as a decode failure, and as nothing
/// else.
pub proof fn lemma_verification_rejection_denied(
    fetch: Result<(u16, Seq<char>), Seq<char>>,
    alg: Seq<char>,
    kid: Seq<char>,
    level: AccessLevel,
)
    requires
        structural_step(fetch, alg, kid) is Ready,
    ensures
        finish_decision(fetch, alg, kid, level, VerifyOutcome::Rejected) == GateDecision::Deny(
            ClientErrorView::Decode,
        ),
{
}

/// Law: the middleware holds no hidden state. Both phases are mathematical
/// functions of the request, the configuration, the fetched key set and the
/// verification outcome, so repeating an identical request with an
/// identical still-valid token decides identically.
pub proof fn lemma_gate_idempotent(
    enabled: bool,
    api_key: Seq<char>,
    x_api_key: Option<Seq<char>>,
    authorization: Option<Seq<char>>,
    fetch: Result<(u16, Seq<char>), Seq<char>>,
    alg: Seq<char>,
    kid: Seq<char>,
    level: AccessLevel,
    outcome_a: VerifyOutcome,
    outcome_b: VerifyOutcome,
)
    requires
        outcome_a == outcome_b,
    ensures
        begin_decision(enabled, api_key, x_api_key, authorization) == begin_decision(
            enabled,
            api_key,
            x_api_key,
            authorization,
        ),
        finish_decision(fetch, alg, kid, level, outcome_a) == finish_decision(
            fetch,
            alg,
            kid,
            level,
            outcome_b,
        ),
{
}

} // verus!
