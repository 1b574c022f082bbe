//! Checks of the node's own settings.

use vstd::prelude::*;

use crate::auth::{AuthClient, AuthConfig};
use crate::error;
use crate::error::{fail, Checks, ConfigError};
use crate::kinds;
use crate::lookup;
use crate::lookup::is_listed;
use crate::manager::ManagerConfig;
use crate::models::{AppConfig, MonitorConfig, ServerConfig, TlsConfig};
use crate::text;
use crate::validation::bounds;
use crate::validation::bounds::{validate_logging, validate_nmos, validate_resources};
use crate::validation::fields;
use crate::validation::fields::validate_socket_addr;

verus! {

/// The check of every address that the dashboard listens on.
pub open spec fn monitor_addr_check(port: u16) -> spec_fn(int, String) -> Option<Seq<char>> {
    |i: int, at: String|
        fields::socket_addr_fault(
            at@ + ":"@ + text::dec(port as nat),
            "monitor listen address"@,
        )
}

/// Whether two lists of addresses have one in common.
pub open spec fn share_address(a: Seq<String>, b: Seq<String>) -> bool {
    exists|i: int|
        0 <= i < a.len() && lookup::listed(b, b.len() as int, (#[trigger] a[i])@)
}

/// The rules for the dashboard listener: socket addresses, other than those of
/// the API server.
pub open spec fn monitor_fault(
    monitor: MonitorConfig,
    server: ServerConfig,
) -> Option<Seq<char>> {
    let addrs = kinds::listen_addrs_of(monitor.listen_addrs, monitor.listen_addr);
    error::first_fault(addrs, monitor_addr_check(monitor.listen_port), 0).otherwise(
        error::check(
            monitor.listen_port == server.listen_port && share_address(
                addrs,
                kinds::listen_addrs_of(server.listen_addrs, server.listen_addr),
            ),
            "Monitor listen address must differ from the API server address"@,
        ),
    )
}

/// Checks the dashboard listener: socket addresses, other than those of the API server.
pub fn validate_monitor(
    monitor: &MonitorConfig,
    server: &ServerConfig,
) -> (r: Result<(), ConfigError>)
    ensures
        error::is_outcome(r, monitor_fault(*monitor, *server)),
{
    let addrs = monitor.effective_listen_addrs();
    let ghost test = monitor_addr_check(monitor.listen_port);
    let mut i: usize = 0;
    while i < addrs.len()
        invariant
            i <= addrs@.len(),
            addrs@ == kinds::listen_addrs_of(monitor.listen_addrs, monitor.listen_addr),
            test == monitor_addr_check(monitor.listen_port),
            error::first_fault(addrs@, test, 0) == error::first_fault(addrs@, test, i as int),
        decreases addrs.len() - i,
    {
        let at = text::cat3(
            addrs[i].as_str(),
            ":",
            text::dec_string(monitor.listen_port as u64).as_str(),
        );
        validate_socket_addr(at.as_str(), "monitor listen address")?;
        i = i + 1;
    }
    if monitor.listen_port == server.listen_port {
        let taken = server.effective_listen_addrs();
        let mut i: usize = 0;
        while i < addrs.len()
            invariant
                i <= addrs@.len(),
                monitor.listen_port == server.listen_port,
                addrs@ == kinds::listen_addrs_of(monitor.listen_addrs, monitor.listen_addr),
                taken@ == kinds::listen_addrs_of(server.listen_addrs, server.listen_addr),
                error::first_fault(addrs@, monitor_addr_check(monitor.listen_port), 0) is None,
                forall|j: int|
                    0 <= j < i ==> !lookup::listed(
                        taken@,
                        taken@.len() as int,
                        (#[trigger] addrs@[j])@,
                    ),
            decreases addrs.len() - i,
        {
            if is_listed(&taken, taken.len(), addrs[i].as_str()) {
                assert(lookup::listed(taken@, taken@.len() as int, addrs@[i as int]@));
                return fail(
                    "Monitor listen address must differ from the API server address".to_owned(),
                );
            }
            i = i + 1;
        }
    }
    Ok(())
}

/// The rules for the TLS paths of the API server.
pub open spec fn tls_fault(tls: TlsConfig) -> Option<Seq<char>> {
    error::check(tls.cert_path@.len() == 0, "TLS cert_path cannot be empty"@).otherwise(
        error::check(tls.key_path@.len() == 0, "TLS key_path cannot be empty"@),
    )
}

/// Checks the TLS paths of the API server.
pub fn validate_tls(tls: &TlsConfig) -> (r: Result<(), ConfigError>)
    ensures
        error::is_outcome(r, tls_fault(*tls)),
{
    if tls.cert_path.as_str().is_empty() {
        return fail("TLS cert_path cannot be empty".to_owned());
    }
    if tls.key_path.as_str().is_empty() {
        return fail("TLS key_path cannot be empty".to_owned());
    }
    Ok(())
}

/// The rules for an API client.
pub open spec fn auth_client_fault(client: AuthClient) -> Option<Seq<char>> {
    error::check(client.client_id@.len() == 0, "Auth client_id cannot be empty"@).otherwise(
        error::check(client.client_secret@.len() == 0, "Auth client_secret cannot be empty"@),
    ).otherwise(
        error::check(
            !(client.role@ == "admin"@ || client.role@ == "monitor"@),
            "Auth client '"@ + client.client_id@ + "': role must be 'admin' or 'monitor', got '"@
                + client.role@ + "'"@,
        ),
    )
}

/// Checks an API client.
pub fn validate_auth_client(client: &AuthClient) -> (r: Result<(), ConfigError>)
    ensures
        error::is_outcome(r, auth_client_fault(*client)),
{
    if client.client_id.as_str().is_empty() {
        return fail("Auth client_id cannot be empty".to_owned());
    }
    if client.client_secret.as_str().is_empty() {
        return fail("Auth client_secret cannot be empty".to_owned());
    }
    if !(text::str_eq(client.role.as_str(), "admin")
        || text::str_eq(client.role.as_str(), "monitor")) {
        return fail(text::cat5(
            "Auth client '",
            client.client_id.as_str(),
            "': role must be 'admin' or 'monitor', got '",
            client.role.as_str(),
            "'",
        ));
    }
    Ok(())
}

/// The check of every API client.
pub open spec fn auth_client_check() -> spec_fn(int, AuthClient) -> Option<Seq<char>> {
    |i: int, client: AuthClient| auth_client_fault(client)
}

/// The rules for the API clients.
pub open spec fn auth_clients_fault(clients: Seq<AuthClient>) -> Option<Seq<char>> {
    error::first_fault(clients, auth_client_check(), 0)
}

fn validate_auth_clients(clients: &Vec<AuthClient>) -> (r: Result<(), ConfigError>)
    ensures
        error::is_outcome(r, auth_clients_fault(clients@)),
{
    let mut i: usize = 0;
    while i < clients.len()
        invariant
            i <= clients@.len(),
            error::first_fault(clients@, auth_client_check(), 0) == error::first_fault(
                clients@,
                auth_client_check(),
                i as int,
            ),
        decreases clients.len() - i,
    {
        validate_auth_client(&clients[i])?;
        i = i + 1;
    }
    Ok(())
}

/// The rules for authentication, where it is enabled: a long enough secret
/// and at least one client.
pub open spec fn auth_fault(auth: AuthConfig) -> Option<Seq<char>> {
    error::when(
        auth.enabled,
        error::check(
            text::byte_len(auth.jwt_secret@) < 32,
            "Auth jwt_secret must be at least 32 characters for security"@,
        ).otherwise(
            error::check(
                auth.clients.len() == 0,
                "Auth is enabled but no clients are configured"@,
            ),
        ).otherwise(
            auth_clients_fault(auth.clients@),
        ),
    )
}

/// Checks authentication, where it is enabled: a long enough secret and at least one client.
pub fn validate_auth(auth: &AuthConfig) -> (r: Result<(), ConfigError>)
    ensures
        error::is_outcome(r, auth_fault(*auth)),
{
    if auth.enabled {
        if text::byte_count(auth.jwt_secret.as_str()) < 32 {
            return fail("Auth jwt_secret must be at least 32 characters for security".to_owned());
        }
        if auth.clients.len() == 0 {
            return fail("Auth is enabled but no clients are configured".to_owned());
        }
        validate_auth_clients(&auth.clients)?;
    }
    Ok(())
}

/// The rules for the manager connection, where it is enabled.
pub open spec fn manager_fault(mgr: ManagerConfig) -> Option<Seq<char>> {
    error::when(
        mgr.enabled,
        error::check(
            mgr.url@.len() == 0,
            "Manager URL cannot be empty when manager is enabled"@,
        ).otherwise(
            error::check(
                !text::has_prefix(mgr.url@, "wss://"@),
                "Manager URL must start with wss:// (TLS required)"@,
            ),
        ).otherwise(
            error::check(
                text::byte_len(mgr.url@) > 2048,
                "Manager URL must be at most 2048 characters"@,
            ),
        ).otherwise(
            error::check(
                mgr.registration_token is Some && text::byte_len(mgr.registration_token->0@) > 4096,
                "Manager registration token must be at most 4096 characters"@,
            ),
        ),
    )
}

/// Checks the manager connection, where it is enabled.
pub fn validate_manager(mgr: &ManagerConfig) -> (r: Result<(), ConfigError>)
    ensures
        error::is_outcome(r, manager_fault(*mgr)),
{
    if mgr.enabled {
        if mgr.url.as_str().is_empty() {
            return fail("Manager URL cannot be empty when manager is enabled".to_owned());
        }
        if !text::starts_with(mgr.url.as_str(), "wss://") {
            return fail("Manager URL must start with wss:// (TLS required)".to_owned());
        }
        if text::byte_count(mgr.url.as_str()) > 2048 {
            return fail("Manager URL must be at most 2048 characters".to_owned());
        }
        if let Some(token) = &mgr.registration_token {
            if text::byte_count(token.as_str()) > 4096 {
                return fail("Manager registration token must be at most 4096 characters".to_owned());
            }
        }
    }
    Ok(())
}

/// The rules for the node's own settings: dashboard, TLS, authentication,
/// name, manager, logging, resource thresholds and NMOS registration.
pub open spec fn node_fault(config: AppConfig) -> Option<Seq<char>> {
    error::when(
        config.monitor is Some,
        monitor_fault(config.monitor->0, config.server),
    ).otherwise(
        error::when(
            config.server.tls is Some,
            tls_fault(config.server.tls->0),
        ),
    ).otherwise(
        error::when(
            config.server.auth is Some,
            auth_fault(config.server.auth->0),
        ),
    ).otherwise(
        error::check(
            config.device_name is Some && text::byte_len(config.device_name->0@) > 256,
            "Device name must be at most 256 characters"@,
        ),
    ).otherwise(
        error::when(
            config.manager is Some,
            manager_fault(config.manager->0),
        ),
    ).otherwise(
        error::when(
            config.logging is Some,
            bounds::logging_fault(config.logging->0),
        ),
    ).otherwise(
        error::when(
            config.resource_limits is Some,
            bounds::resources_fault(config.resource_limits->0),
        ),
    ).otherwise(
        error::when(
            config.nmos_registration is Some,
            bounds::nmos_fault(config.nmos_registration->0),
        ),
    )
}

/// Checks the node's own settings: dashboard, TLS, authentication, name, manager, logging,
/// resource thresholds and NMOS registration.
pub fn validate_node(config: &AppConfig) -> (r: Result<(), ConfigError>)
    ensures
        error::is_outcome(r, node_fault(*config)),
{
    if let Some(monitor) = &config.monitor {
        validate_monitor(monitor, &config.server)?;
    }
    if let Some(tls) = &config.server.tls {
        validate_tls(tls)?;
    }
    if let Some(auth) = &config.server.auth {
        validate_auth(auth)?;
    }
    if let Some(name) = &config.device_name {
        if text::byte_count(name.as_str()) > 256 {
            return fail("Device name must be at most 256 characters".to_owned());
        }
    }
    if let Some(mgr) = &config.manager {
        validate_manager(mgr)?;
    }
    if let Some(logging) = &config.logging {
        validate_logging(logging)?;
    }
    if let Some(limits) = &config.resource_limits {
        validate_resources(limits)?;
    }
    if let Some(nmos) = &config.nmos_registration {
        validate_nmos(nmos)?;
    }
    Ok(())
}

} // verus!
