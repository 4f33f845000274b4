//! Key-set lookup, the RSA allow-list, and the provider URLs.

use auth_gate::error::ClientError;
use auth_gate::keys::JwkKey;
use auth_gate::keys::KeyAlgorithm;
use auth_gate::keys::KeySet;
use auth_gate::keys::issuer_url;
use auth_gate::keys::jwks_url;
use auth_gate::keys::resolve_rsa_key;

fn rsa_key(kid: &str, n: &str) -> JwkKey {
    JwkKey {
        kid: Some(kid.to_string()),
        algorithm: KeyAlgorithm::Rsa { n: n.to_string(), e: "AQAB".to_string() },
    }
}

#[test]
fn jwks_url_is_the_well_known_path() {
    assert_eq!(jwks_url("idp.example.com"), "https://idp.example.com/.well-known/jwks.json");
}

#[test]
fn issuer_is_the_https_origin_with_trailing_slash() {
    assert_eq!(issuer_url("idp.example.com"), "https://idp.example.com/");
}

#[test]
fn find_returns_the_first_match() {
    let keys = KeySet {
        keys: vec![rsa_key("a", "first"), rsa_key("b", "second"), rsa_key("b", "third")],
    };
    let found = keys.find("b").expect("key expected");
    match &found.algorithm {
        KeyAlgorithm::Rsa { n, .. } => assert_eq!(n, "second"),
        _ => panic!("expected an RSA key"),
    }
}

#[test]
fn find_skips_keys_without_an_id() {
    let keys = KeySet {
        keys: vec![
            JwkKey {
                kid: None,
                algorithm: KeyAlgorithm::Rsa { n: "x".to_string(), e: "AQAB".to_string() },
            },
            rsa_key("a", "named"),
        ],
    };
    let found = keys.find("a").expect("key expected");
    assert_eq!(found.kid.as_deref(), Some("a"));
}

#[test]
fn find_misses_absent_ids() {
    let keys = KeySet { keys: vec![rsa_key("a", "x")] };
    assert!(keys.find("zz").is_none());
}

#[test]
fn resolve_yields_the_rsa_components() {
    let keys = KeySet { keys: vec![rsa_key("a", "modulus-bytes")] };
    let (n, e) = resolve_rsa_key(&keys, "a").expect("resolution expected");
    assert_eq!(n, "modulus-bytes");
    assert_eq!(e, "AQAB");
}

#[test]
fn resolve_reports_a_missing_key() {
    let keys = KeySet { keys: vec![rsa_key("a", "x")] };
    match resolve_rsa_key(&keys, "other") {
        Err(ClientError::NotFound(msg)) => assert_eq!(msg, "No JWK found for kid"),
        _ => panic!("expected a not-found failure"),
    }
}

#[test]
fn resolve_rejects_a_non_rsa_family() {
    let keys = KeySet {
        keys: vec![JwkKey {
            kid: Some("a".to_string()),
            algorithm: KeyAlgorithm::Other { name: "EllipticCurve".to_string() },
        }],
    };
    match resolve_rsa_key(&keys, "a") {
        Err(ClientError::UnsupportedAlgorithm(name)) => assert_eq!(name, "EllipticCurve"),
        _ => panic!("expected an unsupported-algorithm failure"),
    }
}
