//! Authentication of API clients.

use vstd::prelude::*;

verus! {

/// One client that may obtain a token.
#[derive(Debug, PartialEq)]
pub struct AuthClient {
    pub client_id: String,
    pub client_secret: String,
    /// `admin` or `monitor`.
    pub role: String,
}

/// OAuth 2.0 authentication of the API server.
#[derive(Debug, PartialEq)]
pub struct AuthConfig {
    /// Whether requests need a token.
    pub enabled: bool,
    /// The key that tokens are signed with.
    pub jwt_secret: String,
    /// Lifetime of a token, in seconds.
    pub token_lifetime_secs: u64,
    /// The clients that may obtain a token.
    pub clients: Vec<AuthClient>,
    /// Whether the NMOS endpoints need a token too.
    pub nmos_require_auth: bool,
}

impl AuthConfig {
    /// Whether two configurations hold the same values.
    pub open spec fn same_as(self, other: AuthConfig) -> bool {
        &&& self.enabled == other.enabled
        &&& self.jwt_secret == other.jwt_secret
        &&& self.token_lifetime_secs == other.token_lifetime_secs
        &&& self.clients@ == other.clients@
        &&& self.nmos_require_auth == other.nmos_require_auth
    }
}

impl Clone for AuthConfig {
    fn clone(&self) -> (r: Self)
        ensures
            r.same_as(*self),
    {
        let clients = self.clients.clone();
        assert(clients@ =~= self.clients@);
        AuthConfig {
            enabled: self.enabled,
            jwt_secret: self.jwt_secret.clone(),
            token_lifetime_secs: self.token_lifetime_secs,
            clients,
            nmos_require_auth: self.nmos_require_auth,
        }
    }
}

impl Clone for AuthClient {
    fn clone(&self) -> (r: Self)
        ensures
            r == *self,
    {
        AuthClient {
            client_id: self.client_id.clone(),
            client_secret: self.client_secret.clone(),
            role: self.role.clone(),
        }
    }
}

} // verus!
