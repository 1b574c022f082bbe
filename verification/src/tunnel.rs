//! IP tunnels between edge nodes.

use vstd::prelude::*;

verus! {

/// What a tunnel carries.
#[derive(Debug, Clone, Copy, PartialEq, Eq)]
pub enum TunnelProtocol {
    Tcp,
    Udp,
}

/// How the two ends of a tunnel reach each other.
#[derive(Debug, Clone, Copy, PartialEq, Eq)]
pub enum TunnelMode {
    /// Through a relay server.
    Relay,
    /// Directly, over QUIC.
    Direct,
}

/// Which way the traffic of a tunnel goes.
#[derive(Debug, Clone, Copy, PartialEq, Eq)]
pub enum TunnelDirection {
    /// Local traffic enters the tunnel here.
    Egress,
    /// Tunnel traffic leaves the tunnel here.
    Ingress,
}

/// One end of a tunnel.
#[derive(Debug, Clone, PartialEq)]
pub struct TunnelConfig {
    /// Unique identifier, a UUID.
    pub id: String,
    /// Human-readable name.
    pub name: String,
    /// Whether the tunnel is brought up.
    pub enabled: bool,
    /// What the tunnel carries.
    pub protocol: TunnelProtocol,
    /// How the two ends reach each other.
    pub mode: TunnelMode,
    /// Which way the traffic goes.
    pub direction: TunnelDirection,
    /// The local address: bound by an egress tunnel, forwarded to by an
    /// ingress tunnel.
    pub local_addr: String,
    /// The relay servers, in order of preference.
    pub relay_addrs: Vec<String>,
    /// A single relay server, the older form of `relay_addrs`.
    pub relay_addr: Option<String>,
    /// Round-trip increase that is accepted when failing back to a preferred
    /// relay.
    pub max_rtt_failback_increase_ms: Option<u32>,
    /// End-to-end encryption key, 64 hexadecimal characters.
    pub tunnel_encryption_key: Option<String>,
    /// Relay authentication secret, 64 hexadecimal characters.
    pub tunnel_bind_secret: Option<String>,
    /// The other end's address, for direct egress.
    pub peer_addr: Option<String>,
    /// The QUIC listener's address, for direct ingress.
    pub direct_listen_addr: Option<String>,
    /// Pre-shared key.
    pub tunnel_psk: Option<String>,
    /// TLS certificate of a direct tunnel.
    pub tls_cert_pem: Option<String>,
    /// TLS private key of a direct tunnel.
    pub tls_key_pem: Option<String>,
}

impl TunnelConfig {
    /// The relay list, filled in from the older single-relay field where it is
    /// empty.
    pub open spec fn normalized(self) -> Seq<String> {
        if self.relay_addrs@.len() == 0 && self.relay_addr is Some {
            seq![self.relay_addr->0]
        } else {
            self.relay_addrs@
        }
    }

    /// Whether the relay list needs no filling in.
    pub open spec fn is_normal(self) -> bool {
        self.relay_addrs@.len() > 0 || self.relay_addr is None
    }

    /// Fills an empty `relay_addrs` from `relay_addr`. Nothing else changes.
    pub fn normalize_relay_addrs(&mut self)
        ensures
            final(self).relay_addrs@ == old(self).normalized(),
            *final(self) == (TunnelConfig { relay_addrs: final(self).relay_addrs, ..*old(self) }),
            old(self).is_normal() ==> *final(self) == *old(self),
    {
        if self.relay_addrs.len() == 0 {
            if let Some(addr) = &self.relay_addr {
                let addr = addr.clone();
                self.relay_addrs.push(addr);
                assert(self.relay_addrs@ =~= old(self).normalized());
            }
        }
    }
}

} // verus!
