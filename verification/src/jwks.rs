//! The key set document that an issuer publishes.

use vstd::prelude::*;
use crate::boundary::{components_accepted, text_view};

verus! {

/// One published key descriptor.
#[derive(Debug, Clone)]
pub struct Jwk {
    /// The key identifier, unique within a key set.
    pub kid: String,
    /// The key type, such as `RSA`.
    pub kty: String,
    /// The algorithm the key is meant for.
    pub alg: Option<String>,
    /// The RSA modulus, base64url.
    pub n: Option<String>,
    /// The RSA public exponent, base64url.
    pub e: Option<String>,
}

/// A key set, in the order in which the issuer lists its keys.
#[derive(Debug, Clone)]
pub struct Jwks {
    pub keys: Vec<Jwk>,
}

/// The two components of an RSA verification key, each as base64url text.
pub struct KeyView {
    pub modulus: Seq<char>,
    pub exponent: Seq<char>,
}

/// The mathematical value of a [`Jwk`].
pub struct JwkView {
    pub kid: Seq<char>,
    pub kty: Seq<char>,
    pub alg: Option<Seq<char>>,
    pub n: Option<Seq<char>>,
    pub e: Option<Seq<char>>,
}

impl JwkView {
    /// The verification key that the descriptor yields: it has one where it
    /// carries both components and both decode as base64url.
    pub open spec fn key(self) -> Option<KeyView> {
        match (self.n, self.e) {
            (Some(n), Some(e)) => if components_accepted(n, e) {
                Some(KeyView { modulus: n, exponent: e })
            } else {
                None
            },
            _ => None,
        }
    }
}

impl View for Jwk {
    type V = JwkView;

    open spec fn view(&self) -> JwkView {
        JwkView {
            kid: self.kid@,
            kty: self.kty@,
            alg: text_view(self.alg),
            n: text_view(self.n),
            e: text_view(self.e),
        }
    }
}

impl View for Jwks {
    type V = Seq<JwkView>;

    open spec fn view(&self) -> Seq<JwkView> {
        self.keys@.map_values(|k: Jwk| k@)
    }
}

/// The keys that a key set yields, by key identifier: every descriptor that
/// yields a key contributes it, and of two such descriptors with one
/// identifier the later one counts.
pub open spec fn keys_of(jwks: Seq<JwkView>) -> Map<Seq<char>, KeyView>
    decreases jwks.len(),
{
    if jwks.len() == 0 {
        Map::empty()
    } else {
        let earlier = keys_of(jwks.drop_last());
        match jwks.last().key() {
            Some(key) => earlier.insert(jwks.last().kid, key),
            None => earlier,
        }
    }
}

/// Every key that a key set yields comes from one of its descriptors: one
/// with that identifier that yields that key.
pub proof fn lemma_keys_come_from_descriptors(jwks: Seq<JwkView>, kid: Seq<char>)
    requires
        keys_of(jwks).contains_key(kid),
    ensures
        exists|i: int|
            0 <= i < jwks.len() && (#[trigger] jwks[i]).kid == kid && jwks[i].key() == Some(
                keys_of(jwks)[kid],
            ),
        components_accepted(keys_of(jwks)[kid].modulus, keys_of(jwks)[kid].exponent),
    decreases jwks.len(),
{
    if jwks.len() > 0 {
        let last = jwks.last();
        if last.key() is Some && last.kid == kid {
            assert(jwks[jwks.len() - 1] == last);
        } else {
            lemma_keys_come_from_descriptors(jwks.drop_last(), kid);
            let i = choose|i: int|
                0 <= i < jwks.drop_last().len() && (#[trigger] jwks.drop_last()[i]).kid == kid
                    && jwks.drop_last()[i].key() == Some(keys_of(jwks.drop_last())[kid]);
            assert(jwks[i] == jwks.drop_last()[i]);
        }
    }
}

/// A descriptor that yields a key is kept under its identifier, unless a
/// later descriptor that yields a key has the same identifier.
pub proof fn lemma_descriptor_is_kept(jwks: Seq<JwkView>, i: int)
    requires
        0 <= i < jwks.len(),
        jwks[i].key() is Some,
        forall|j: int|
            i < j < jwks.len() ==> !((#[trigger] jwks[j]).kid == jwks[i].kid && jwks[j].key() is Some),
    ensures
        keys_of(jwks).contains_key(jwks[i].kid),
        Some(keys_of(jwks)[jwks[i].kid]) == jwks[i].key(),
    decreases jwks.len(),
{
    if i < jwks.len() - 1 {
        let earlier = jwks.drop_last();
        assert(earlier[i] == jwks[i]);
        assert forall|j: int| i < j < earlier.len() implies !((#[trigger] earlier[j]).kid
            == earlier[i].kid && earlier[j].key() is Some) by {
            assert(earlier[j] == jwks[j]);
        }
        lemma_descriptor_is_kept(earlier, i);
        assert(jwks.last() == jwks[jwks.len() - 1]);
    }
}

/// An identifier that no descriptor that yields a key has is not among the
/// keys.
pub proof fn lemma_absent_descriptor_yields_no_key(jwks: Seq<JwkView>, kid: Seq<char>)
    requires
        forall|i: int| 0 <= i < jwks.len() ==> !((#[trigger] jwks[i]).kid == kid && jwks[i].key() is Some),
    ensures
        !keys_of(jwks).contains_key(kid),
{
    if keys_of(jwks).contains_key(kid) {
        lemma_keys_come_from_descriptors(jwks, kid);
    }
}

} // verus!
