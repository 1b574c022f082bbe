//! The connection to the manager.

use vstd::prelude::*;

verus! {

/// How the node connects to the manager.
#[derive(Debug, Clone, PartialEq)]
pub struct ManagerConfig {
    /// Whether the node connects at all.
    pub enabled: bool,
    /// WebSocket URL of the manager.
    pub url: String,
    /// Whether a self-signed certificate of the manager is accepted.
    pub accept_self_signed_cert: bool,
    /// Fingerprint that the manager's certificate is pinned to.
    pub cert_fingerprint: Option<String>,
    /// One-time token for the first registration.
    pub registration_token: Option<String>,
    /// The node's identifier, assigned at registration.
    pub node_id: Option<String>,
    /// The node's secret, assigned at registration.
    pub node_secret: Option<String>,
}

} // verus!
