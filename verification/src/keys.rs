//! The identity provider's published key set, modelled as plain data.
//!
//! The raw key-set body arrives as JSON text; parsing it is delegated to the
//! `jsonwebtoken` and `serde_json` crates behind one trusted wrapper. Key
//! lookup and the RSA allow-list check are verified here.

use vstd::prelude::*;
use crate::error::ClientError;
use crate::error::ClientErrorView;

verus! {

/// The algorithm family of one published key. Only RSA keys are ever
/// accepted; every other family is rejected by default — an allow-list,
/// not a denial-list.
#[derive(Debug, Clone)]
pub enum KeyAlgorithm {
    /// An RSA public key, as base64url-encoded modulus and exponent.
    Rsa { n: String, e: String },
    /// Any other family; the payload names it.
    Other { name: String },
}

/// One public-key record of the key set.
#[derive(Debug, Clone)]
pub struct JwkKey {
    /// The key identifier, if the record carries one.
    pub kid: Option<String>,
    pub algorithm: KeyAlgorithm,
}

/// The identity provider's current key set, in published order.
#[derive(Debug, Clone)]
pub struct KeySet {
    pub keys: Vec<JwkKey>,
}

/// A key's algorithm family as mathematical values.
pub ghost enum KeyAlgorithmView {
    Rsa { n: Seq<char>, e: Seq<char> },
    Other { name: Seq<char> },
}

/// One key record as mathematical values.
pub ghost struct JwkKeyView {
    pub kid: Option<Seq<char>>,
    pub algorithm: KeyAlgorithmView,
}

impl View for KeyAlgorithm {
    type V = KeyAlgorithmView;

    open spec fn view(&self) -> KeyAlgorithmView {
        match self {
            KeyAlgorithm::Rsa { n, e } => KeyAlgorithmView::Rsa { n: n@, e: e@ },
            KeyAlgorithm::Other { name } => KeyAlgorithmView::Other { name: name@ },
        }
    }
}

impl View for JwkKey {
    type V = JwkKeyView;

    open spec fn view(&self) -> JwkKeyView {
        JwkKeyView {
            kid: match self.kid {
                None => None,
                Some(k) => Some(k@),
            },
            algorithm: self.algorithm@,
        }
    }
}

impl View for KeySet {
    type V = Seq<JwkKeyView>;

    open spec fn view(&self) -> Seq<JwkKeyView> {
        Seq::new(self.keys.len() as nat, |i: int| self.keys[i]@)
    }
}

/// What a key-set body parses to: `None` where the text is not a key set at
/// all, otherwise the key records in published order. The parse is performed
/// by the outside crates; this name stands for its (deterministic) result.
pub uninterp spec fn keyset_of(body: Seq<char>) -> Option<Seq<JwkKeyView>>;

/// Relies on `serde_json::from_str` for `jsonwebtoken::jwk::JwkSet`: the
/// body either fails to parse or yields the set's key records, from which
/// the key id and the RSA modulus/exponent (or the family's name, for
/// non-RSA families) are copied out unchanged.
#[verifier::external_body]
pub(crate) fn parse_key_set(body: &str) -> (r: Result<KeySet, ()>)
    ensures
        r is Ok <==> keyset_of(body@) is Some,
        (r matches Ok(ks) ==> keyset_of(body@) == Some(ks@)),
{
    let jwks: jsonwebtoken::jwk::JwkSet = match serde_json::from_str(body) {
        Ok(s) => s,
        Err(_) => return Err(()),
    };
    let keys = jwks.keys.into_iter().map(|k| JwkKey {
        kid: k.common.key_id,
        algorithm: match k.algorithm {
            jsonwebtoken::jwk::AlgorithmParameters::RSA(r) => KeyAlgorithm::Rsa { n: r.n, e: r.e },
            other => KeyAlgorithm::Other { name: format!("{:?}", other) },
        },
    }).collect();
    Ok(KeySet { keys })
}

/// The first key of `keys` whose id is `kid`, if any — the lookup rule of
/// the key-set resolver.
pub open spec fn find_key_spec(keys: Seq<JwkKeyView>, kid: Seq<char>) -> Option<JwkKeyView>
    decreases keys.len(),
{
    if keys.len() == 0 {
        None
    } else if keys[0].kid == Some(kid) {
        Some(keys[0])
    } else {
        find_key_spec(keys.skip(1), kid)
    }
}

proof fn lemma_find_key_spec_step(keys: Seq<JwkKeyView>, kid: Seq<char>, i: int)
    requires
        0 <= i < keys.len(),
        forall|j: int| 0 <= j < i ==> keys[j].kid != Some(kid),
    ensures
        keys[i].kid == Some(kid) ==> find_key_spec(keys, kid) == Some(keys[i]),
        (forall|j: int| 0 <= j <= i ==> keys[j].kid != Some(kid)) ==> find_key_spec(keys, kid)
            == find_key_spec(keys.skip(i + 1), kid),
    decreases i,
{
    if i > 0 {
        lemma_find_key_spec_step(keys.skip(1), kid, i - 1);
        assert(keys.skip(1)[i - 1] == keys[i]);
        assert(forall|j: int| 0 <= j < i - 1 ==> keys.skip(1)[j] == keys[j + 1]);
        assert(keys.skip(1).skip(i) =~= keys.skip(i + 1));
    } else {
        assert(keys.skip(i + 1) =~= keys.skip(1));
    }
}

impl KeySet {
    /// Looks up the key the token's key id names: the first key record whose
    /// id equals `kid`.
    pub fn find(&self, kid: &str) -> (r: Option<&JwkKey>)
        ensures
            (r matches Some(k) ==> find_key_spec(self@, kid@) == Some(k@)),
            (r is None ==> find_key_spec(self@, kid@) is None),
    {
        let kid_owned: String = kid.to_owned();
        let mut i: usize = 0;
        while i < self.keys.len()
            invariant
                kid_owned@ == kid@,
                0 <= i <= self.keys.len(),
                forall|j: int| 0 <= j < i ==> self@[j].kid != Some(kid@),
            decreases self.keys.len() - i,
        {
            let candidate = &self.keys[i];
            match &candidate.kid {
                Some(key_id) => {
                    if *key_id == kid_owned {
                        proof {
                            lemma_find_key_spec_step(self@, kid@, i as int);
                        }
                        return Some(candidate);
                    }
                },
                None => {},
            }
            i = i + 1;
        }
        proof {
            if self.keys.len() > 0 {
                lemma_find_key_spec_step(self@, kid@, self.keys.len() - 1);
            }
            assert(self@.skip(self@.len() as int) =~= Seq::<JwkKeyView>::empty());
        }
        None
    }
}

/// Resolves the token's key id against a parsed key set: the matching key
/// must exist and its family must be RSA. Absence is a `NotFound` failure;
/// any non-RSA family is an `UnsupportedAlgorithm` failure naming the
/// family.
pub fn resolve_rsa_key(keys: &KeySet, kid: &str) -> (r: Result<(String, String), ClientError>)
    ensures
        (r matches Ok((n, e)) ==> find_key_spec(keys@, kid@) matches Some(k)
            && k.algorithm == (KeyAlgorithmView::Rsa { n: n@, e: e@ })),
        (r matches Err(err) ==> {
            ||| (find_key_spec(keys@, kid@) is None && err@ == ClientErrorView::NotFound(
                "No JWK found for kid"@,
            ))
            ||| (find_key_spec(keys@, kid@) matches Some(k) && k.algorithm matches KeyAlgorithmView::Other { name }
                && err@ == ClientErrorView::UnsupportedAlgorithm(name))
        }),
        (find_key_spec(keys@, kid@) is None ==> r is Err),
        (find_key_spec(keys@, kid@) matches Some(k) && !(k.algorithm is Rsa) ==> r is Err),
{
    match keys.find(kid) {
        None => Err(ClientError::NotFound("No JWK found for kid".to_owned())),
        Some(key) => match &key.algorithm {
            KeyAlgorithm::Rsa { n, e } => Ok((n.clone(), e.clone())),
            KeyAlgorithm::Other { name } => Err(
                ClientError::UnsupportedAlgorithm(name.clone()),
            ),
        },
    }
}

/// The well-known URL of the identity provider's key set.
pub fn jwks_url(domain: &str) -> (r: String)
    ensures
        r@ == "https://"@ + domain@ + "/.well-known/jwks.json"@,
{
    "https://".to_owned().concat(domain).concat("/.well-known/jwks.json")
}

/// The issuer accepted tokens must claim: the provider's domain as an HTTPS
/// origin with a trailing slash.
pub fn issuer_url(domain: &str) -> (r: String)
    ensures
        r@ == "https://"@ + domain@ + "/"@,
{
    "https://".to_owned().concat(domain).concat("/")
}

} // verus!
