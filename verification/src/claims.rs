//! The claims of a verified token, and the checks they must pass.

use vstd::prelude::*;
use crate::boundary::{
    member, members, object_view, text_view, Member, MemberShape, ObjectView, Shape,
};

verus! {

/// Why a token is refused although its header names a known key.
#[derive(Debug, Clone, Copy, PartialEq, Eq, Structural)]
pub enum Rejection {
    /// The signature does not verify under the key, the token asserts an
    /// algorithm other than RS256, or a part of it cannot be decoded.
    Unverified,
    /// The payload lacks a claim that must be there, or holds one in a form
    /// that cannot be read.
    MalformedClaims,
    /// The token's `exp` is not in the future.
    Expired,
    /// The token's `iss` is not the configured issuer.
    WrongIssuer,
}

/// The verified payload of a token.
#[derive(Debug, Clone)]
pub struct Claims {
    /// The subject: the user the token speaks for.
    pub sub: String,
    /// When the token expires, in seconds since the Unix epoch.
    pub exp: usize,
    /// When the token was issued, in seconds since the Unix epoch.
    pub iat: usize,
    /// Who issued the token.
    pub iss: Option<String>,
    /// For whom the token is meant. It is kept as it came and never checked.
    pub aud: Option<serde_json::Value>,
    pub preferred_username: Option<String>,
    pub email: Option<String>,
}

/// The mathematical value of [`Claims`].
pub struct ClaimsView {
    pub sub: Seq<char>,
    pub exp: usize,
    pub iat: usize,
    pub iss: Option<Seq<char>>,
    pub aud: Option<serde_json::Value>,
    pub preferred_username: Option<Seq<char>>,
    pub email: Option<Seq<char>>,
}

impl View for Claims {
    type V = ClaimsView;

    open spec fn view(&self) -> ClaimsView {
        ClaimsView {
            sub: self.sub@,
            exp: self.exp,
            iat: self.iat,
            iss: text_view(self.iss),
            aud: self.aud,
            preferred_username: text_view(self.preferred_username),
            email: text_view(self.email),
        }
    }
}

/// A claim that must be a string.
pub open spec fn text_claim(payload: Map<Seq<char>, Shape>, name: Seq<char>) -> Option<Seq<char>> {
    if payload.contains_key(name) {
        match payload[name] {
            Shape::Text(text) => Some(text),
            _ => None,
        }
    } else {
        None
    }
}

/// A claim that must be a point in time: a non-negative whole number that a
/// `usize` can hold.
pub open spec fn time_claim(payload: Map<Seq<char>, Shape>, name: Seq<char>) -> Option<usize> {
    if payload.contains_key(name) {
        match payload[name] {
            Shape::Number(Some(seconds)) => if seconds <= usize::MAX {
                Some(seconds as usize)
            } else {
                None
            },
            _ => None,
        }
    } else {
        None
    }
}

/// A claim that may be left out or `null`, and is a string where it is there:
/// `None` where it has another form.
pub open spec fn optional_text_claim(payload: Map<Seq<char>, Shape>, name: Seq<char>) -> Option<
    Option<Seq<char>>,
> {
    if payload.contains_key(name) {
        match payload[name] {
            Shape::Null => Some(None),
            Shape::Text(text) => Some(Some(text)),
            _ => None,
        }
    } else {
        Some(None)
    }
}

/// A claim of any form: its value where the payload has a member of that
/// name other than `null`.
pub open spec fn value_claim(payload: ObjectView, name: Seq<char>) -> Option<serde_json::Value> {
    if payload.shapes.contains_key(name) && payload.shapes[name] != Shape::Null {
        Some(payload.values[name])
    } else {
        None
    }
}

/// The claims that a payload carries: `None` where `sub`, `exp` or `iat` is
/// missing or has the wrong form, or where `iss`, `preferred_username` or
/// `email` is there in a form other than a string. The `aud` is the value of
/// the payload's member whatever its form.
pub open spec fn claims_in(payload: ObjectView) -> Option<ClaimsView> {
    match (
        text_claim(payload.shapes, "sub"@),
        time_claim(payload.shapes, "exp"@),
        time_claim(payload.shapes, "iat"@),
        optional_text_claim(payload.shapes, "iss"@),
        optional_text_claim(payload.shapes, "preferred_username"@),
        optional_text_claim(payload.shapes, "email"@),
    ) {
        (Some(sub), Some(exp), Some(iat), Some(iss), Some(preferred_username), Some(email)) => Some(
            ClaimsView {
                sub,
                exp,
                iat,
                iss,
                aud: value_claim(payload, "aud"@),
                preferred_username,
                email,
            },
        ),
        _ => None,
    }
}

/// What stands against a claim set at a given time under a given issuer:
/// nothing where `exp` lies after `now` and `iss` is the issuer. Whatever
/// `aud` holds plays no part.
pub open spec fn objection(claims: ClaimsView, issuer: Seq<char>, now: u64) -> Option<Rejection> {
    if claims.exp <= now {
        Some(Rejection::Expired)
    } else if claims.iss != Some(issuer) {
        Some(Rejection::WrongIssuer)
    } else {
        None
    }
}

fn read_text(payload: &serde_json::Map<String, serde_json::Value>, name: &str) -> (found: Option<
    String,
>)
    ensures
        text_view(found) == text_claim(members(*payload), name@),
{
    match member(payload, name) {
        Some(Member { shape: MemberShape::Text(text), .. }) => Some(text),
        _ => None,
    }
}

fn read_time(payload: &serde_json::Map<String, serde_json::Value>, name: &str) -> (found: Option<
    usize,
>)
    ensures
        found == time_claim(members(*payload), name@),
{
    match member(payload, name) {
        Some(Member { shape: MemberShape::Number(Some(seconds)), .. }) => {
            if seconds <= usize::MAX as u64 {
                Some(seconds as usize)
            } else {
                None
            }
        },
        _ => None,
    }
}

fn read_optional_text(payload: &serde_json::Map<String, serde_json::Value>, name: &str) -> (found:
    Option<Option<String>>)
    ensures
        match found {
            Some(text) => optional_text_claim(members(*payload), name@) == Some(text_view(text)),
            None => optional_text_claim(members(*payload), name@) is None,
        },
{
    match member(payload, name) {
        None => Some(None),
        Some(Member { shape: MemberShape::Null, .. }) => Some(None),
        Some(Member { shape: MemberShape::Text(text), .. }) => Some(Some(text)),
        Some(_) => None,
    }
}

fn read_value(payload: &serde_json::Map<String, serde_json::Value>, name: &str) -> (found: Option<
    serde_json::Value,
>)
    ensures
        found == value_claim(object_view(*payload), name@),
{
    match member(payload, name) {
        None => None,
        Some(Member { shape: MemberShape::Null, .. }) => None,
        Some(Member { raw, .. }) => Some(raw),
    }
}

impl Claims {
    /// Reads the claims out of the payload of a verified token.
    ///
    /// The payload must hold `sub` as a string and `exp` and `iat` as whole
    /// numbers of seconds; `iss`, `preferred_username` and `email` may be left
    /// out or `null`, and must be strings otherwise; `aud` may hold anything.
    /// Other members are passed over.
    pub fn from_payload(payload: &serde_json::Map<String, serde_json::Value>) -> (read: Result<
        Claims,
        Rejection,
    >)
        ensures
            match claims_in(object_view(*payload)) {
                Some(claims) => read matches Ok(c) && c@ == claims,
                None => read matches Err(why) && why == Rejection::MalformedClaims,
            },
    {
        let sub = read_text(payload, "sub");
        let exp = read_time(payload, "exp");
        let iat = read_time(payload, "iat");
        let iss = read_optional_text(payload, "iss");
        let preferred_username = read_optional_text(payload, "preferred_username");
        let email = read_optional_text(payload, "email");
        match (sub, exp, iat, iss, preferred_username, email) {
            (Some(sub), Some(exp), Some(iat), Some(iss), Some(preferred_username), Some(email)) => {
                let aud = read_value(payload, "aud");
                Ok(Claims { sub, exp, iat, iss, aud, preferred_username, email })
            },
            _ => Err(Rejection::MalformedClaims),
        }
    }

    /// Checks the claims against the clock and the issuer.
    ///
    /// The claims pass where `exp` lies after `now` and `iss` is `issuer`;
    /// `aud` is not looked at. An expired token is reported as such whatever
    /// its issuer.
    pub fn check(&self, issuer: &str, now: u64) -> (checked: Result<(), Rejection>)
        ensures
            match objection(self@, issuer@, now) {
                Some(why) => checked == Err::<(), Rejection>(why),
                None => checked is Ok,
            },
    {
        if self.exp as u64 <= now {
            return Err(Rejection::Expired);
        }
        match &self.iss {
            Some(iss) => {
                let expected = issuer.to_owned();
                if *iss == expected {
                    Ok(())
                } else {
                    Err(Rejection::WrongIssuer)
                }
            },
            None => Err(Rejection::WrongIssuer),
        }
    }
}

} // verus!
