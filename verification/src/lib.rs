//! Bearer-token authentication against a remote JSON Web Key Set.
//!
//! The crate holds the decisions of the authentication core: which keys of a
//! fetched key set are kept, which key verifies a token, which claims a
//! verified payload carries and when a token is refused. Fetching the key set
//! over the network is left to the caller, who hands in what was fetched.
//!
//! A token is validated in at most two steps. [`auth::AuthState::validate_bearer`]
//! judges it with the cached keys, or asks for the key set where the token
//! names a key that is not cached. The caller then fetches the key set, once,
//! and [`auth::AuthState::validate_after_refresh`] takes in what came of it and
//! judges the token for good. The caller also reads the clock: both steps
//! take the time of the validation as an argument.
//!
//! Signatures are verified by `jsonwebtoken`; the calls into it are in
//! [`boundary`], with what is taken on trust about them. What follows from
//! the definitions for every token is proved in [`laws`].

pub mod auth;
pub mod boundary;
pub mod claims;
pub mod config;
pub mod jwks;
pub mod key_cache;
pub mod laws;
pub mod models;
