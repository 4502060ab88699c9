//! The calls into `jsonwebtoken` and `serde_json`.
//!
//! No function of this file is proved. Each states what the rest of the crate
//! relies on, and the outside crates' sources are the evidence for it. What
//! such a call returns is too long to write out, so it goes by a name: the
//! functions without a body below. Nothing is known of a name but what the
//! calls say of it.

use vstd::prelude::*;

verus! {

/// `jsonwebtoken`'s error, carried from a failed call to the code that maps it.
#[verifier::external_type_specification]
#[verifier::external_body]
pub struct ExJwtError(jsonwebtoken::errors::Error);

/// A JSON value of `serde_json`, carried through unread.
#[verifier::external_type_specification]
#[verifier::external_body]
pub struct ExJsonValue(serde_json::Value);

/// A JSON object of `serde_json`: the payload of a verified token.
#[verifier::external_type_specification]
#[verifier::external_body]
#[verifier::reject_recursive_types(K)]
#[verifier::reject_recursive_types(V)]
pub struct ExJsonMap<K, V>(serde_json::Map<K, V>);

/// What a member of a JSON object is, as far as this crate reads it.
pub enum Shape {
    /// The JSON `null`.
    Null,
    /// A JSON number, with its value where it is a non-negative integer below 2^64.
    Number(Option<u64>),
    /// A JSON string.
    Text(Seq<char>),
    /// A boolean, an array or an object.
    Other,
}

/// A member of a JSON object as the running code holds it.
#[derive(Debug, Clone)]
pub enum MemberShape {
    Null,
    Number(Option<u64>),
    Text(String),
    Other,
}

impl View for MemberShape {
    type V = Shape;

    open spec fn view(&self) -> Shape {
        match self {
            MemberShape::Null => Shape::Null,
            MemberShape::Number(n) => Shape::Number(*n),
            MemberShape::Text(s) => Shape::Text(s@),
            MemberShape::Other => Shape::Other,
        }
    }
}

/// One member of a JSON object: its shape, and the value itself.
pub struct Member {
    pub shape: MemberShape,
    pub raw: serde_json::Value,
}

/// The algorithms by which a signature may be verified.
#[derive(Debug, Clone, Copy, PartialEq, Eq, Structural)]
pub enum SignatureAlgorithm {
    /// RSASSA-PKCS1-v1_5 with SHA-256.
    Rs256,
}

/// What a JSON object holds: for each name the shape of its member, and the
/// member's value.
pub struct ObjectView {
    pub shapes: Map<Seq<char>, Shape>,
    pub values: Map<Seq<char>, serde_json::Value>,
}

/// The shapes of the members of a JSON object, by name.
pub uninterp spec fn members(object: serde_json::Map<String, serde_json::Value>) -> Map<Seq<char>, Shape>;

/// The values of the members of a JSON object, by name.
pub uninterp spec fn member_values(object: serde_json::Map<String, serde_json::Value>) -> Map<
    Seq<char>,
    serde_json::Value,
>;

/// What a JSON object holds.
pub open spec fn object_view(object: serde_json::Map<String, serde_json::Value>) -> ObjectView {
    ObjectView { shapes: members(object), values: member_values(object) }
}

/// The `kid` of a token's header as `jsonwebtoken::decode_header` reads it:
/// `None` where the header cannot be read, `Some(None)` where it names no key.
pub uninterp spec fn header_key_id(token: Seq<char>) -> Option<Option<Seq<char>>>;

/// Whether `jsonwebtoken::DecodingKey::from_rsa_components` accepts the two
/// components: it does where both decode as base64url. It does not look at
/// the numbers that they encode.
pub uninterp spec fn components_accepted(modulus: Seq<char>, exponent: Seq<char>) -> bool;

/// The payload that `jsonwebtoken::decode` hands out for a token under the
/// RSA key of the two components, with `algorithm` as the only algorithm,
/// with its check of `aud` on or off, and with no check of another claim:
/// `None` where it refuses the token, or where the components make no key.
pub uninterp spec fn verified_payload(
    token: Seq<char>,
    modulus: Seq<char>,
    exponent: Seq<char>,
    algorithm: SignatureAlgorithm,
    check_audience: bool,
) -> Option<ObjectView>;

/// The view of an optional string.
pub open spec fn text_view(text: Option<String>) -> Option<Seq<char>> {
    match text {
        Some(s) => Some(s@),
        None => None,
    }
}

/// Calls `jsonwebtoken::decode_header`, which reads the header of a token
/// without verifying anything, and keeps the header's `kid`. The result is
/// `Ok` exactly where the header can be read.
#[verifier::external_body]
pub(crate) fn peek_key_id(token: &str) -> (r: Result<Option<String>, jsonwebtoken::errors::Error>)
    ensures
        match r {
            Ok(kid) => header_key_id(token@) == Some(text_view(kid)),
            Err(_) => header_key_id(token@) is None,
        },
{
    jsonwebtoken::decode_header(token).map(|header| header.kid)
}

/// Calls `jsonwebtoken::DecodingKey::from_rsa_components`, which decodes the
/// two components from base64url, and tells whether it accepted them.
#[verifier::external_body]
pub(crate) fn accepts_components(modulus: &str, exponent: &str) -> (r: bool)
    ensures
        r == components_accepted(modulus@, exponent@),
{
    jsonwebtoken::DecodingKey::from_rsa_components(modulus, exponent).is_ok()
}

/// Calls `jsonwebtoken::decode` with the key that
/// `jsonwebtoken::DecodingKey::from_rsa_components` makes of the two
/// components, with the given algorithm as the only one, and with its check
/// of `aud` as `check_audience` says. Its checks of `exp` and of required
/// claims are switched off, so that the call depends on its arguments alone:
/// it verifies the signature and parses the payload as a JSON object. The
/// result is `Ok` exactly where it accepts the token.
#[verifier::external_body]
pub(crate) fn verify(
    token: &str,
    modulus: &str,
    exponent: &str,
    algorithm: SignatureAlgorithm,
    check_audience: bool,
) -> (r: Result<serde_json::Map<String, serde_json::Value>, jsonwebtoken::errors::Error>)
    ensures
        match r {
            Ok(payload) => verified_payload(token@, modulus@, exponent@, algorithm, check_audience)
                == Some(object_view(payload)),
            Err(_) => verified_payload(token@, modulus@, exponent@, algorithm, check_audience)
                is None,
        },
{
    let key = jsonwebtoken::DecodingKey::from_rsa_components(modulus, exponent)?;
    let mut rules = jsonwebtoken::Validation::new(match algorithm {
        SignatureAlgorithm::Rs256 => jsonwebtoken::Algorithm::RS256,
    });
    rules.required_spec_claims.clear();
    rules.validate_exp = false;
    rules.validate_aud = check_audience;
    jsonwebtoken::decode::<serde_json::Map<String, serde_json::Value>>(token, &key, &rules)
        .map(|data| data.claims)
}

/// Calls `serde_json::Map::get` and tells the variants of the `Value` apart;
/// for a number it calls `serde_json::Number::as_u64`. The result is `Some`
/// exactly where the object has a member of that name, and holds a copy of
/// that member's value.
#[verifier::external_body]
pub(crate) fn member(object: &serde_json::Map<String, serde_json::Value>, name: &str) -> (r: Option<Member>)
    ensures
        r is Some <==> members(*object).contains_key(name@),
        r matches Some(m) ==> m.shape@ == members(*object)[name@] && m.raw == member_values(
            *object,
        )[name@],
{
    let raw = object.get(name)?;
    let shape = match raw {
        serde_json::Value::Null => MemberShape::Null,
        serde_json::Value::Bool(_) => MemberShape::Other,
        serde_json::Value::Number(n) => MemberShape::Number(n.as_u64()),
        serde_json::Value::String(s) => MemberShape::Text(s.clone()),
        serde_json::Value::Array(_) => MemberShape::Other,
        serde_json::Value::Object(_) => MemberShape::Other,
    };
    Some(Member { shape, raw: raw.clone() })
}

/// Calls `str::strip_prefix`: the text behind the prefix where the text begins
/// with it, and `None` where it does not.
#[verifier::external_body]
pub(crate) fn strip_prefix<'a>(text: &'a str, prefix: &str) -> (rest: Option<&'a str>)
    ensures
        match rest {
            Some(rest) => text@ == prefix@ + rest@,
            None => !prefix@.is_prefix_of(text@),
        },
{
    text.strip_prefix(prefix)
}

} // verus!
