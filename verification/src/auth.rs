//! Validation of bearer tokens against the cached verification keys.

use vstd::prelude::*;
use crate::boundary::{
    header_key_id, object_view, peek_key_id, strip_prefix, verified_payload, verify, ObjectView,
    SignatureAlgorithm,
};
use crate::claims::{claims_in, objection, Claims, ClaimsView, Rejection};
use crate::config::{OidcConfig, OidcConfigView};
use crate::jwks::{Jwks, KeyView};
use crate::key_cache::{refreshed, FetchError, KeyCache, VerificationKey};

verus! {

/// Why a bearer token is refused.
#[derive(Debug, Clone, Copy, PartialEq, Eq, Structural)]
pub enum AuthError {
    /// The token does not have the form of a signed token with a readable header.
    MalformedToken,
    /// The token's header names no key.
    MissingKeyId,
    /// No key of the issuer has the identifier that the header names.
    UnknownKey,
    /// The token names a known key and does not stand up to it.
    InvalidToken(Rejection),
}

/// How far the validation of a token has come.
#[derive(Debug)]
pub enum Progress {
    /// The token is judged.
    Finished(Result<Claims, AuthError>),
    /// The token names a key that the cache does not hold: the key set has to
    /// be fetched before the token can be judged.
    KeysWanted,
}

/// A request's authenticated user: the claims of its bearer token.
#[derive(Debug, Clone)]
pub struct AuthUser(pub Claims);

/// The one answer to a request that does not authenticate. It does not say
/// why, so that whoever presents a token learns nothing from its refusal.
#[derive(Debug, Clone, Copy, PartialEq, Eq, Structural)]
pub struct Unauthorized;

/// What validation works with: the settings and the key cache.
pub struct AuthState {
    config: OidcConfig,
    jwks_cache: KeyCache,
}

/// The mathematical value of an [`AuthState`].
pub struct AuthStateView {
    pub config: OidcConfigView,
    pub keys: Map<Seq<char>, KeyView>,
}

impl View for AuthState {
    type V = AuthStateView;

    closed spec fn view(&self) -> AuthStateView {
        AuthStateView { config: self.config@, keys: self.jwks_cache@ }
    }
}

/// The outcome of a validation with the claims as a mathematical value.
pub open spec fn outcome_view(outcome: Result<Claims, AuthError>) -> Result<ClaimsView, AuthError> {
    match outcome {
        Ok(claims) => Ok(claims@),
        Err(why) => Err(why),
    }
}

/// What a payload holds, where there is one.
pub open spec fn payload_view(verified: Option<&serde_json::Map<String, serde_json::Value>>)
    -> Option<ObjectView> {
    match verified {
        Some(payload) => Some(object_view(*payload)),
        None => None,
    }
}

/// The payload of a token whose signature holds under a key.
///
/// Signatures are verified by RS256 and by nothing else, whatever algorithm
/// the token's header names. The audience of the token is not checked.
pub open spec fn signed_payload(token: Seq<char>, key: KeyView) -> Option<ObjectView> {
    verified_payload(token, key.modulus, key.exponent, SignatureAlgorithm::Rs256, false)
}

/// The judgement on a token once its signature has been looked at.
///
/// `verified` is the payload of the token where the signature verified under
/// the key, and `None` where it did not. The token is accepted where the
/// payload carries a claim set against which nothing stands at `now` under
/// `issuer`; the claims are then those of the payload.
pub open spec fn judgement(verified: Option<ObjectView>, issuer: Seq<char>, now: u64) -> Result<
    ClaimsView,
    AuthError,
> {
    match verified {
        None => Err(AuthError::InvalidToken(Rejection::Unverified)),
        Some(payload) => match claims_in(payload) {
            None => Err(AuthError::InvalidToken(Rejection::MalformedClaims)),
            Some(claims) => match objection(claims, issuer, now) {
                Some(why) => Err(AuthError::InvalidToken(why)),
                None => Ok(claims),
            },
        },
    }
}

/// The verdict on a token at a given time, with given keys and issuer.
///
/// The header of the token is read first, unverified, for the identifier of
/// its key. The key with that identifier then decides, by RS256 alone,
/// whether the signature holds, and the claims of the payload are checked.
pub open spec fn verdict(
    keys: Map<Seq<char>, KeyView>,
    issuer: Seq<char>,
    token: Seq<char>,
    now: u64,
) -> Result<ClaimsView, AuthError> {
    match header_key_id(token) {
        None => Err(AuthError::MalformedToken),
        Some(None) => Err(AuthError::MissingKeyId),
        Some(Some(kid)) => if keys.contains_key(kid) {
            judgement(signed_payload(token, keys[kid]), issuer, now)
        } else {
            Err(AuthError::UnknownKey)
        },
    }
}

/// Whether the token names a key that is not among `keys`.
pub open spec fn wants_keys(keys: Map<Seq<char>, KeyView>, token: Seq<char>) -> bool {
    match header_key_id(token) {
        Some(Some(kid)) => !keys.contains_key(kid),
        _ => false,
    }
}

/// Whether `progress` is how far validation of `token` comes at `now`
/// without fetching anything.
pub open spec fn progress_at(state: AuthStateView, token: Seq<char>, now: u64, progress: Progress)
    -> bool {
    match progress {
        Progress::Finished(outcome) => !wants_keys(state.keys, token) && outcome_view(outcome)
            == verdict(state.keys, state.config.issuer, token, now),
        Progress::KeysWanted => wants_keys(state.keys, token),
    }
}

/// Judges a token whose signature has been looked at.
///
/// `verified` is the payload where the signature verified, `None` where the
/// verifier refused the token.
pub fn judge(
    verified: Option<&serde_json::Map<String, serde_json::Value>>,
    issuer: &str,
    now: u64,
) -> (outcome: Result<Claims, AuthError>)
    ensures
        outcome_view(outcome) == judgement(payload_view(verified), issuer@, now),
{
    match verified {
        None => Err(AuthError::InvalidToken(Rejection::Unverified)),
        Some(payload) => match Claims::from_payload(payload) {
            Err(why) => Err(AuthError::InvalidToken(why)),
            Ok(claims) => match claims.check(issuer, now) {
                Err(why) => Err(AuthError::InvalidToken(why)),
                Ok(()) => Ok(claims),
            },
        },
    }
}

/// The token of an `Authorization` header: what follows `Bearer ` where the
/// header begins with it.
pub fn bearer_token(authorization: &str) -> (token: Option<&str>)
    ensures
        match token {
            Some(token) => authorization@ == "Bearer "@ + token@,
            None => !"Bearer "@.is_prefix_of(authorization@),
        },
{
    strip_prefix(authorization, "Bearer ")
}

impl AuthUser {
    /// The user of a request whose token was validated: the claims where the
    /// token was accepted, and the same refusal for every reason else.
    pub fn from_outcome(outcome: Result<Claims, AuthError>) -> (user: Result<AuthUser, Unauthorized>)
        ensures
            match outcome {
                Ok(claims) => user matches Ok(u) && u.0 == claims,
                Err(_) => user is Err,
            },
    {
        match outcome {
            Ok(claims) => Ok(AuthUser(claims)),
            Err(_) => Err(Unauthorized),
        }
    }
}

impl AuthState {
    /// A state with the given settings and no keys.
    pub fn new(config: OidcConfig) -> (state: AuthState)
        ensures
            state@.config == config@,
            state@.keys == Map::<Seq<char>, KeyView>::empty(),
    {
        AuthState { config, jwks_cache: KeyCache::new() }
    }

    /// The settings.
    pub fn config(&self) -> (config: &OidcConfig)
        ensures
            config@ == self@.config,
    {
        &self.config
    }

    /// Takes in the outcome of fetching the key set from the configured URL.
    ///
    /// A fetched key set replaces the cached keys as a whole; a failed fetch
    /// is handed back and leaves them as they were.
    pub fn refresh_jwks(&mut self, fetched: Result<Jwks, FetchError>) -> (done: Result<
        (),
        FetchError,
    >)
        ensures
            final(self)@.config == old(self)@.config,
            final(self)@.keys == refreshed(old(self)@.keys, fetched),
            match fetched {
                Ok(_) => done is Ok,
                Err(failure) => done == Err::<(), FetchError>(failure),
            },
    {
        self.jwks_cache.refresh(fetched)
    }

    /// The cached key with the identifier, if there is one.
    ///
    /// Nothing is fetched. Where the key is not cached, the caller fetches
    /// the key set, once, and goes on with
    /// [`AuthState::decoding_key_after_refresh`].
    pub fn decoding_key_for(&self, kid: &str) -> (found: Option<VerificationKey>)
        ensures
            match found {
                Some(key) => self@.keys.contains_key(kid@) && key@ == self@.keys[kid@],
                None => !self@.keys.contains_key(kid@),
            },
    {
        self.jwks_cache.get(kid)
    }

    /// The key with the identifier once the key set has been fetched for it.
    ///
    /// The outcome of the fetch is taken in as in
    /// [`AuthState::refresh_jwks`], and the key is looked up in the keys that
    /// are then cached. `None` is final: nothing more is asked for.
    pub fn decoding_key_after_refresh(&mut self, kid: &str, fetched: Result<Jwks, FetchError>) -> (found:
        Option<VerificationKey>)
        ensures
            final(self)@.config == old(self)@.config,
            final(self)@.keys == refreshed(old(self)@.keys, fetched),
            match found {
                Some(key) => final(self)@.keys.contains_key(kid@) && key@ == final(self)@.keys[kid@],
                None => !final(self)@.keys.contains_key(kid@),
            },
    {
        self.jwks_cache.get_after_refresh(kid, fetched)
    }

    /// Judges a token under a key: verifies the signature by RS256, without
    /// a check of the audience, and checks the claims of the payload.
    pub fn validate_with_key(&self, bearer_token: &str, key: &VerificationKey, now: u64) -> (outcome:
        Result<Claims, AuthError>)
        ensures
            outcome_view(outcome) == judgement(
                signed_payload(bearer_token@, key@),
                self@.config.issuer,
                now,
            ),
    {
        let verified = verify(
            bearer_token,
            key.modulus.as_str(),
            key.exponent.as_str(),
            SignatureAlgorithm::Rs256,
            false,
        );
        match verified {
            Ok(payload) => judge(Some(&payload), self.config.issuer.as_str(), now),
            Err(_) => judge(None, self.config.issuer.as_str(), now),
        }
    }

    /// Validates a token at a given time with the keys that are cached.
    ///
    /// `now` is the time of the validation, in seconds since the Unix epoch.
    /// Where the token names a cached key, or none that could be looked up,
    /// the token is judged. Where it names a key that the cache does not
    /// hold, nothing is decided: the caller fetches the key set, once, and
    /// goes on with [`AuthState::validate_after_refresh`].
    pub fn validate_bearer(&self, bearer_token: &str, now: u64) -> (progress: Progress)
        ensures
            progress_at(self@, bearer_token@, now, progress),
    {
        match peek_key_id(bearer_token) {
            Err(_) => Progress::Finished(Err(AuthError::MalformedToken)),
            Ok(None) => Progress::Finished(Err(AuthError::MissingKeyId)),
            Ok(Some(kid)) => match self.decoding_key_for(kid.as_str()) {
                Some(key) => Progress::Finished(self.validate_with_key(bearer_token, &key, now)),
                None => Progress::KeysWanted,
            },
        }
    }

    /// Validates a token at a given time once the key set has been fetched
    /// for it.
    ///
    /// The outcome of the fetch is taken in first, as in
    /// [`AuthState::refresh_jwks`]. The token is then judged with the keys
    /// that the cache holds; a key that is still not there makes it
    /// [`AuthError::UnknownKey`], and no further fetch is asked for.
    pub fn validate_after_refresh(
        &mut self,
        bearer_token: &str,
        fetched: Result<Jwks, FetchError>,
        now: u64,
    ) -> (outcome: Result<Claims, AuthError>)
        ensures
            final(self)@.config == old(self)@.config,
            final(self)@.keys == refreshed(old(self)@.keys, fetched),
            outcome_view(outcome) == verdict(
                final(self)@.keys,
                old(self)@.config.issuer,
                bearer_token@,
                now,
            ),
    {
        match peek_key_id(bearer_token) {
            Err(_) => {
                let _ = self.refresh_jwks(fetched);
                Err(AuthError::MalformedToken)
            },
            Ok(None) => {
                let _ = self.refresh_jwks(fetched);
                Err(AuthError::MissingKeyId)
            },
            Ok(Some(kid)) => match self.decoding_key_after_refresh(kid.as_str(), fetched) {
                Some(key) => self.validate_with_key(bearer_token, &key, now),
                None => Err(AuthError::UnknownKey),
            },
        }
    }
}

} // verus!
