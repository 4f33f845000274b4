//! Configuration consumed by the auth middleware: the shared-secret shortcut and the
//! identity-provider coordinates. Both are built once at startup and only
//! read afterwards.

use vstd::prelude::*;

verus! {

/// The shared-secret shortcut: requests carrying this value in the
/// `x-api-key` header bypass token verification entirely when the feature
/// is enabled. This is a deliberate, trusted operator backdoor: it grants
/// full access with no cryptographic check at all.
#[derive(Debug, Clone)]
pub struct ApiKeyData {
    pub api_key: String,
    pub enable_api_key: bool,
}

/// Identity-provider coordinates: `domain` names the host whose published
/// key set signs bearer tokens, and `audience` is the audience claim that
/// accepted tokens must carry.
#[derive(Debug, Clone)]
pub struct Auth0Data {
    pub audience: String,
    pub domain: String,
}

/// Whole-process configuration, loaded once at startup.
#[derive(Debug, Clone)]
pub struct Config {
    pub env: String,
    pub api_key_data: ApiKeyData,
    pub auth0_data: Auth0Data,
    pub mongo_uri: String,
}

} // verus!
