//! Which settings of the node itself, and which tunnels, are accepted.

use vstd::prelude::*;
use vstd::utf8::*;

use super::{bounds, node, tunnels};
use crate::addr;
use crate::auth::{AuthClient, AuthConfig};
use crate::binary;
use crate::error;
use crate::kinds;
use crate::lookup;
use crate::models::{
    AppConfig, JsonLogTarget, LoggingConfig, MonitorConfig, ResourceLimitConfig, ServerConfig,
};
use crate::number;
use crate::text;
use crate::tunnel::{TunnelConfig, TunnelDirection, TunnelMode};

verus! {

/// The settings of the node itself are accepted exactly when those of the dashboard, of
/// authentication, of logging and of the limits are, the certificate has both paths, the
/// device name is short enough, an enabled manager has a `wss` URL and a token that is short
/// enough, and an enabled registration is of version 1.3.
pub proof fn lemma_node_accepts(config: AppConfig)
    ensures
        node::node_fault(config) is None <==> {
            &&& config.monitor is Some
                ==> node::monitor_fault(config.monitor->0, config.server) is None
            &&& config.server.tls is Some ==> config.server.tls->0.cert_path@.len() > 0
            &&& config.server.tls is Some ==> config.server.tls->0.key_path@.len() > 0
            &&& config.server.auth is Some ==> node::auth_fault(config.server.auth->0) is None
            &&& config.device_name is Some ==> text::byte_len(config.device_name->0@) <= 256
            &&& config.manager is Some && config.manager->0.enabled
                ==> config.manager->0.url@.len() > 0
            &&& config.manager is Some && config.manager->0.enabled
                ==> text::has_prefix(config.manager->0.url@, "wss://"@)
            &&& config.manager is Some && config.manager->0.enabled
                ==> text::byte_len(config.manager->0.url@) <= 2048
            &&& config.manager is Some && config.manager->0.enabled
                && config.manager->0.registration_token is Some
                ==> text::byte_len(config.manager->0.registration_token->0@) <= 4096
            &&& config.logging is Some ==> bounds::logging_fault(config.logging->0) is None
            &&& config.resource_limits is Some
                ==> bounds::resources_fault(config.resource_limits->0) is None
            &&& config.nmos_registration is Some && config.nmos_registration->0.enabled
                ==> config.nmos_registration->0.api_version@ == "v1.3"@
        },
{
}

/// Authentication is accepted exactly when it is off, or has a secret of at least 32 bytes
/// and clients that are accepted.
pub proof fn lemma_auth_accepts(auth: AuthConfig)
    ensures
        node::auth_fault(auth) is None <==> {
            &&& auth.enabled ==> text::byte_len(auth.jwt_secret@) >= 32
            &&& auth.enabled ==> auth.clients.len() > 0
            &&& auth.enabled ==> node::auth_clients_fault(auth.clients@) is None
        },
{
}

/// Clients are accepted exactly when each has an identifier, a secret and a known role.
pub proof fn lemma_auth_clients_accepts(clients: Seq<AuthClient>)
    ensures
        node::auth_clients_fault(clients) is None <==> {
            &&& forall|i: int|
                #![trigger clients[i]]
                0 <= i < clients.len() ==> {
                    &&& clients[i].client_id@.len() > 0
                    &&& clients[i].client_secret@.len() > 0
                    &&& clients[i].role@ == "admin"@ || clients[i].role@ == "monitor"@
                }
        },
{
    let test = node::auth_client_check();
    error::lemma_first_fault_none(clients, test, 0);
    assert forall|i: int|
        #![trigger clients[i]]
        0 <= i < clients.len() implies (test(i, clients[i]) is None <==> {
                    &&& clients[i].client_id@.len() > 0
                    &&& clients[i].client_secret@.len() > 0
                    &&& clients[i].role@ == "admin"@ || clients[i].role@ == "monitor"@
        }) by {
    }
}

/// The dashboard is accepted exactly when each address that it listens on is one, and none
/// of them is an address of the API server on the same port.
pub proof fn lemma_monitor_accepts(monitor: MonitorConfig, server: ServerConfig)
    ensures
        node::monitor_fault(monitor, server) is None <==> {
            let addrs = kinds::listen_addrs_of(monitor.listen_addrs, monitor.listen_addr);
            let others = kinds::listen_addrs_of(server.listen_addrs, server.listen_addr);
            &&& forall|i: int|
                #![trigger addrs[i]]
                0 <= i < addrs.len() ==> addr::socket_of(
                    addrs[i]@ + ":"@ + text::dec(monitor.listen_port as nat),
                ) is Some
            &&& monitor.listen_port == server.listen_port ==> forall|i: int, j: int|
                #![trigger addrs[i], others[j]]
                0 <= i < addrs.len() && 0 <= j < others.len() ==> addrs[i]@ != others[j]@
        },
{
    let addrs = kinds::listen_addrs_of(monitor.listen_addrs, monitor.listen_addr);
    let others = kinds::listen_addrs_of(server.listen_addrs, server.listen_addr);
    let test = node::monitor_addr_check(monitor.listen_port);
    error::lemma_first_fault_none(addrs, test, 0);
    assert forall|i: int|
        #![trigger addrs[i]]
        0 <= i < addrs.len() implies (test(i, addrs[i]) is None <==> addr::socket_of(
        addrs[i]@ + ":"@ + text::dec(monitor.listen_port as nat),
    ) is Some) by {}
    assert(node::share_address(addrs, others) <==> exists|i: int, j: int|
        #![trigger addrs[i], others[j]]
        0 <= i < addrs.len() && 0 <= j < others.len() && addrs[i]@ == others[j]@) by {
        if node::share_address(addrs, others) {
            let i = choose|i: int|
                0 <= i < addrs.len() && lookup::listed(
                    others,
                    others.len() as int,
                    (#[trigger] addrs[i])@,
                );
            let j = choose|j: int|
                0 <= j < others.len() && j < others.len() && #[trigger] others[j]@ == addrs[i]@;
            assert(addrs[i]@ == others[j]@);
        }
        if exists|i: int, j: int|
            #![trigger addrs[i], others[j]]
            0 <= i < addrs.len() && 0 <= j < others.len() && addrs[i]@ == others[j]@ {
            let (i, j) = choose|i: int, j: int|
                #![trigger addrs[i], others[j]]
                0 <= i < addrs.len() && 0 <= j < others.len() && addrs[i]@ == others[j]@;
            assert(lookup::listed(others, others.len() as int, addrs[i]@));
        }
    }
}

/// A server listens on the addresses of its list where there are any, and else on its
/// single address.
pub proof fn lemma_listening_addresses(list: Vec<String>, single: String)
    ensures
        kinds::listen_addrs_of(None, single) == seq![single],
        list@.len() == 0 ==> kinds::listen_addrs_of(Some(list), single) == seq![single],
        list@.len() > 0 ==> kinds::listen_addrs_of(Some(list), single) == list@,
{
}

/// Logging is accepted exactly when a log file is 1 to 4096 MB large and has at most 100
/// backups.
pub proof fn lemma_logging_accepts(logging: LoggingConfig)
    ensures
        bounds::logging_fault(logging) is None <==> {
            &&& match logging.json_target {
                Some(JsonLogTarget::File { max_size_mb, max_backups, .. }) => {
                    &&& 1 <= max_size_mb <= 4096
                    &&& 0 <= max_backups <= 100
                },
                _ => true,
            }
        },
{
}

/// Resource limits are accepted exactly when each threshold is a number from 0 to 100.
pub proof fn lemma_resources_accepts(limits: ResourceLimitConfig)
    ensures
        bounds::resources_fault(limits) is None <==> {
            &&& binary::le(0, limits.cpu_warning_percent.bits)
            &&& binary::le(limits.cpu_warning_percent.bits, binary::HUNDRED)
            &&& binary::le(0, limits.cpu_critical_percent.bits)
            &&& binary::le(limits.cpu_critical_percent.bits, binary::HUNDRED)
            &&& binary::le(0, limits.ram_warning_percent.bits)
            &&& binary::le(limits.ram_warning_percent.bits, binary::HUNDRED)
            &&& binary::le(0, limits.ram_critical_percent.bits)
            &&& binary::le(limits.ram_critical_percent.bits, binary::HUNDRED)
        },
{
}

/// A tunnel is accepted exactly when it is named by a UUID, its local address is one, it has
/// the end that its mode and direction need, a relayed tunnel is encrypted, its keys are 64
/// hexadecimal characters, and its other texts are short enough.
pub proof fn lemma_tunnel_accepts(tunnel: TunnelConfig)
    ensures
        tunnels::tunnel_fault(tunnel) is None <==> {
            &&& tunnel.id@.len() > 0
            &&& text::byte_len(tunnel.id@) <= 64
            &&& tunnels::is_uuid_text(encode_utf8(tunnel.id@))
            &&& tunnel.name@.len() > 0
            &&& text::byte_len(tunnel.name@) <= 256
            &&& addr::socket_of(tunnel.local_addr@) is Some
            &&& match tunnel.mode {
                TunnelMode::Relay => {
                    &&& tunnel.relay_addr is Some
                    &&& tunnel.relay_addr->0@.len() > 0
                    &&& text::byte_len(tunnel.relay_addr->0@) <= 256
                },
                TunnelMode::Direct => {
                    &&& match tunnel.direction {
                        TunnelDirection::Egress => tunnel.peer_addr is Some,
                        TunnelDirection::Ingress => tunnel.direct_listen_addr is Some,
                    }
                },
            }
            &&& tunnel.tunnel_encryption_key is Some
                ==> text::byte_len(tunnel.tunnel_encryption_key->0@) == 64
            &&& tunnel.tunnel_encryption_key is Some
                ==> tunnels::all_hex(tunnel.tunnel_encryption_key->0@)
            &&& tunnel.tunnel_encryption_key is None ==> tunnel.mode !is Relay
            &&& tunnel.tunnel_bind_secret is Some
                ==> text::byte_len(tunnel.tunnel_bind_secret->0@) == 64
            &&& tunnel.tunnel_bind_secret is Some
                ==> tunnels::all_hex(tunnel.tunnel_bind_secret->0@)
            &&& tunnel.tunnel_psk is Some ==> text::byte_len(tunnel.tunnel_psk->0@) <= 256
            &&& tunnel.peer_addr is Some ==> text::byte_len(tunnel.peer_addr->0@) <= 256
            &&& tunnel.direct_listen_addr is Some
                ==> addr::socket_of(tunnel.direct_listen_addr->0@) is Some
        },
{
}

/// A text is hexadecimal exactly when each of its characters is a digit or a letter from A
/// to F in either case.
pub proof fn lemma_hexadecimal_texts(s: Seq<char>)
    ensures
        tunnels::all_hex(s) <==> forall|i: int|
            0 <= i < s.len() ==> {
                let c = #[trigger] s[i];
                '0' <= c <= '9' || 'a' <= c <= 'f' || 'A' <= c <= 'F'
            },
{
}

/// A UUID is 32 hexadecimal digits, or those with hyphens after the 8th, 12th, 16th and
/// 20th, bare, in braces or after `urn:uuid:`; nothing else is one.
pub proof fn lemma_uuid_lengths(b: Seq<u8>)
    ensures
        tunnels::is_uuid_text(b) ==> b.len() == 32 || b.len() == 36 || b.len() == 38 || b.len()
            == 45,
        b.len() == 32 ==> (tunnels::is_uuid_text(b) <==> forall|i: int|
            0 <= i < 32 ==> number::digit_value(#[trigger] b[i]) < 16),
        b.len() == 36 && tunnels::is_uuid_text(b) ==> b[8] == 0x2D && b[13] == 0x2D && b[18] == 0x2D
            && b[23] == 0x2D,
        b.len() == 38 && tunnels::is_uuid_text(b) ==> b[0] == 0x7B && b[37] == 0x7D,
{
}

} // verus!
