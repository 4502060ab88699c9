//! Settings of the identity provider, fixed at start-up.

use vstd::prelude::*;

verus! {

/// Where tokens come from and where their verification keys are published.
#[derive(Debug, Clone)]
pub struct OidcConfig {
    /// The issuer URL that every accepted token must name in `iss`.
    pub issuer: String,
    /// The identifier under which this service is registered at the issuer.
    pub client_id: String,
    /// The URL of the issuer's JSON Web Key Set.
    pub jwks_url: String,
}

/// The mathematical value of an [`OidcConfig`].
pub struct OidcConfigView {
    pub issuer: Seq<char>,
    pub client_id: Seq<char>,
    pub jwks_url: Seq<char>,
}

impl View for OidcConfig {
    type V = OidcConfigView;

    open spec fn view(&self) -> OidcConfigView {
        OidcConfigView {
            issuer: self.issuer@,
            client_id: self.client_id@,
            jwks_url: self.jwks_url@,
        }
    }
}

} // verus!
