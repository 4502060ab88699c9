//! What holds of every validation, proved from the definitions in
//! [`crate::auth`], [`crate::claims`] and [`crate::jwks`].

use vstd::prelude::*;
use crate::auth::{
    judgement, outcome_view, progress_at, signed_payload, verdict, wants_keys, AuthError,
    AuthStateView, Progress,
};
use crate::boundary::{header_key_id, ObjectView};
use crate::claims::{claims_in, value_claim, ClaimsView, Rejection};
use crate::jwks::{Jwks, KeyView};
use crate::key_cache::{refreshed, FetchError};

verus! {

/// The outcome of a whole validation: the verdict with the cached keys where
/// the token names one of them or none at all, and else the verdict with the
/// keys that the cache holds once the outcome of the fetch was taken in.
pub open spec fn validation(
    keys: Map<Seq<char>, KeyView>,
    issuer: Seq<char>,
    token: Seq<char>,
    now: u64,
    fetched: Result<Jwks, FetchError>,
) -> Result<ClaimsView, AuthError> {
    if wants_keys(keys, token) {
        verdict(refreshed(keys, fetched), issuer, token, now)
    } else {
        verdict(keys, issuer, token, now)
    }
}

/// The key that a cache holds under an identifier.
pub open spec fn cached(keys: Map<Seq<char>, KeyView>, kid: Seq<char>) -> Option<KeyView> {
    if keys.contains_key(kid) {
        Some(keys[kid])
    } else {
        None
    }
}

/// How often the key set is fetched in the lookup of a key: not at all where
/// the key is cached, and once where it is not.
pub open spec fn key_fetches(keys: Map<Seq<char>, KeyView>, kid: Seq<char>) -> nat {
    if keys.contains_key(kid) {
        0
    } else {
        1
    }
}

/// The outcome of the lookup of a key: the cached key, or, after a miss, the
/// key that is cached once the outcome of the fetch was taken in.
pub open spec fn key_lookup(
    keys: Map<Seq<char>, KeyView>,
    kid: Seq<char>,
    fetched: Result<Jwks, FetchError>,
) -> Option<KeyView> {
    if keys.contains_key(kid) {
        Some(keys[kid])
    } else {
        cached(refreshed(keys, fetched), kid)
    }
}

/// How often the key set is fetched in a whole validation.
pub open spec fn fetches(keys: Map<Seq<char>, KeyView>, token: Seq<char>) -> nat {
    if wants_keys(keys, token) {
        1
    } else {
        0
    }
}

/// A token is accepted, with the claims of its payload, where it names a key
/// of the key set, its signature verifies under that key, and its claims are
/// not expired and name the configured issuer.
pub proof fn lemma_valid_token_is_accepted(
    keys: Map<Seq<char>, KeyView>,
    issuer: Seq<char>,
    token: Seq<char>,
    now: u64,
    kid: Seq<char>,
    payload: ObjectView,
    claims: ClaimsView,
)
    requires
        header_key_id(token) == Some(Some(kid)),
        keys.contains_key(kid),
        signed_payload(token, keys[kid]) == Some(payload),
        claims_in(payload) == Some(claims),
        now < claims.exp,
        claims.iss == Some(issuer),
    ensures
        verdict(keys, issuer, token, now) == Ok::<ClaimsView, AuthError>(claims),
{
}

/// Whatever is accepted was signed, is not expired and names the issuer: the
/// claims handed out are those of a payload that verified under the key that
/// the token names, they expire after `now`, and their `iss` is the
/// configured issuer.
pub proof fn lemma_accepted_token_is_valid(
    keys: Map<Seq<char>, KeyView>,
    issuer: Seq<char>,
    token: Seq<char>,
    now: u64,
)
    requires
        verdict(keys, issuer, token, now) is Ok,
    ensures
        header_key_id(token) matches Some(Some(kid)) && keys.contains_key(kid) && (signed_payload(
            token,
            keys[kid],
        ) matches Some(payload) && claims_in(payload) == Some(
            verdict(keys, issuer, token, now)->Ok_0,
        )),
        now < verdict(keys, issuer, token, now)->Ok_0.exp,
        verdict(keys, issuer, token, now)->Ok_0.iss == Some(issuer),
{
}

/// A token whose key identifier is not in the key set is refused as
/// [`AuthError::UnknownKey`], and so it is after a fetch that did not bring
/// the key.
pub proof fn lemma_unknown_key_is_refused(
    keys: Map<Seq<char>, KeyView>,
    issuer: Seq<char>,
    token: Seq<char>,
    now: u64,
    fetched: Result<Jwks, FetchError>,
    kid: Seq<char>,
)
    requires
        header_key_id(token) == Some(Some(kid)),
        !keys.contains_key(kid),
    ensures
        verdict(keys, issuer, token, now) == Err::<ClaimsView, AuthError>(AuthError::UnknownKey),
        !refreshed(keys, fetched).contains_key(kid) ==> validation(
            keys,
            issuer,
            token,
            now,
            fetched,
        ) == Err::<ClaimsView, AuthError>(AuthError::UnknownKey),
{
}

/// A token past its `exp` is refused, whatever its signature and issuer.
pub proof fn lemma_expired_token_is_refused(
    keys: Map<Seq<char>, KeyView>,
    issuer: Seq<char>,
    token: Seq<char>,
    now: u64,
    kid: Seq<char>,
    payload: ObjectView,
    claims: ClaimsView,
)
    requires
        header_key_id(token) == Some(Some(kid)),
        keys.contains_key(kid),
        signed_payload(token, keys[kid]) == Some(payload),
        claims_in(payload) == Some(claims),
        claims.exp <= now,
    ensures
        verdict(keys, issuer, token, now) == Err::<ClaimsView, AuthError>(
            AuthError::InvalidToken(Rejection::Expired),
        ),
{
}

/// A token whose `iss` is not the configured issuer is refused, even where
/// its signature verifies.
pub proof fn lemma_foreign_issuer_is_refused(
    keys: Map<Seq<char>, KeyView>,
    issuer: Seq<char>,
    token: Seq<char>,
    now: u64,
    kid: Seq<char>,
    payload: ObjectView,
    claims: ClaimsView,
)
    requires
        header_key_id(token) == Some(Some(kid)),
        keys.contains_key(kid),
        signed_payload(token, keys[kid]) == Some(payload),
        claims_in(payload) == Some(claims),
        claims.iss != Some(issuer),
    ensures
        verdict(keys, issuer, token, now) is Err,
        now < claims.exp ==> verdict(keys, issuer, token, now) == Err::<ClaimsView, AuthError>(
            AuthError::InvalidToken(Rejection::WrongIssuer),
        ),
{
}

/// A token that names a cached key is judged without a fetch, and no
/// validation fetches the key set more than once: after the one fetch the
/// token is judged with the keys that are then there, and refused as
/// [`AuthError::UnknownKey`] where its key is still not among them.
pub proof fn lemma_at_most_one_fetch(
    keys: Map<Seq<char>, KeyView>,
    issuer: Seq<char>,
    token: Seq<char>,
    now: u64,
    fetched: Result<Jwks, FetchError>,
)
    ensures
        fetches(keys, token) <= 1,
        header_key_id(token) matches Some(Some(kid)) && keys.contains_key(kid) ==> fetches(
            keys,
            token,
        ) == 0,
        fetches(keys, token) == 0 ==> validation(keys, issuer, token, now, fetched) == verdict(
            keys,
            issuer,
            token,
            now,
        ),
        fetches(keys, token) == 1 ==> validation(keys, issuer, token, now, fetched) == verdict(
            refreshed(keys, fetched),
            issuer,
            token,
            now,
        ),
{
}

/// The two steps of a validation give its outcome: where the first step
/// finishes, nothing was fetched and its outcome is that of the whole
/// validation; where it asks for the key set, that is the one fetch, and the
/// verdict with the keys after it is the outcome.
pub proof fn lemma_steps_give_the_validation(
    state: AuthStateView,
    token: Seq<char>,
    now: u64,
    progress: Progress,
    fetched: Result<Jwks, FetchError>,
)
    requires
        progress_at(state, token, now, progress),
    ensures
        match progress {
            Progress::Finished(outcome) => fetches(state.keys, token) == 0 && outcome_view(outcome)
                == validation(state.keys, state.config.issuer, token, now, fetched),
            Progress::KeysWanted => fetches(state.keys, token) == 1 && validation(
                state.keys,
                state.config.issuer,
                token,
                now,
                fetched,
            ) == verdict(refreshed(state.keys, fetched), state.config.issuer, token, now),
        },
{
}

/// A failed fetch leaves every verdict as it was: the cache holds the same
/// keys after it.
pub proof fn lemma_failed_fetch_keeps_keys(
    keys: Map<Seq<char>, KeyView>,
    issuer: Seq<char>,
    token: Seq<char>,
    now: u64,
    failure: FetchError,
)
    ensures
        refreshed(keys, Err(failure)) == keys,
        verdict(refreshed(keys, Err(failure)), issuer, token, now) == verdict(
            keys,
            issuer,
            token,
            now,
        ),
        validation(keys, issuer, token, now, Err(failure)) == verdict(keys, issuer, token, now),
{
}

/// Taking in the outcome of one fetch twice gives the keys that taking it in
/// once gives: a fetched key set replaces the keys, it is not added to them.
pub proof fn lemma_refresh_is_idempotent(
    keys: Map<Seq<char>, KeyView>,
    fetched: Result<Jwks, FetchError>,
)
    ensures
        refreshed(refreshed(keys, fetched), fetched) == refreshed(keys, fetched),
{
}

/// The audience plays no part: two payloads that differ in `aud` alone are
/// judged alike. Both are accepted or both are refused for the same reason,
/// and the claims of the two differ at most in `aud`, which each has as its
/// own payload holds it.
pub proof fn lemma_audience_plays_no_part(
    one: ObjectView,
    other: ObjectView,
    issuer: Seq<char>,
    now: u64,
)
    requires
        forall|name: Seq<char>|
            name != "aud"@ ==> (one.shapes.contains_key(name) == other.shapes.contains_key(name)
                && one.shapes[name] == other.shapes[name]),
    ensures
        match (judgement(Some(one), issuer, now), judgement(Some(other), issuer, now)) {
            (Ok(a), Ok(b)) => a == (ClaimsView { aud: a.aud, ..b }) && a.aud == value_claim(
                one,
                "aud"@,
            ) && b.aud == value_claim(other, "aud"@),
            (Err(a), Err(b)) => a == b,
            _ => false,
        },
{
    reveal_strlit("aud");
    reveal_strlit("sub");
    reveal_strlit("exp");
    reveal_strlit("iat");
    reveal_strlit("iss");
    reveal_strlit("preferred_username");
    reveal_strlit("email");
    assert("sub"@[0] != "aud"@[0]);
    assert("exp"@[0] != "aud"@[0]);
    assert("iat"@[0] != "aud"@[0]);
    assert("iss"@[0] != "aud"@[0]);
    assert("preferred_username"@.len() != "aud"@.len());
    assert("email"@.len() != "aud"@.len());
}

/// Looking a key up fetches the key set at most once: a cached key is found
/// without a fetch, and after the one fetch that a miss asks for the key is
/// either among the keys then cached or not to be had.
pub proof fn lemma_key_lookup_fetches_at_most_once(
    keys: Map<Seq<char>, KeyView>,
    kid: Seq<char>,
    fetched: Result<Jwks, FetchError>,
)
    ensures
        key_fetches(keys, kid) <= 1,
        keys.contains_key(kid) ==> key_fetches(keys, kid) == 0 && key_lookup(keys, kid, fetched)
            == Some(keys[kid]),
        !keys.contains_key(kid) ==> key_fetches(keys, kid) == 1 && key_lookup(keys, kid, fetched)
            == cached(refreshed(keys, fetched), kid),
        !keys.contains_key(kid) && fetched is Err ==> key_lookup(keys, kid, fetched) is None,
{
}

} // verus!
