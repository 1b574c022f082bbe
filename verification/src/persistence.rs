//! What is read from and written to the two configuration files.
//!
//! The operational configuration is kept in one file and the secrets, encrypted,
//! in another. This module decides what is merged, what is split and which files
//! have to be written again; reading and writing them is the caller's part.

use vstd::prelude::*;

use crate::models::AppConfig;
use crate::secrets;
use crate::secrets::{has_secrets, SecretsConfig};
use crate::tunnel::TunnelConfig;

verus! {

/// What has to be written after a configuration was loaded.
#[derive(Debug, Clone, Copy, PartialEq, Eq, Structural)]
pub enum AfterLoad {
    /// Nothing.
    Nothing,
    /// Both files: the secrets file still held parameters of inputs and outputs,
    /// which now belong to the configuration.
    SaveBoth,
    /// Both files: the configuration still held secrets, and there is no secrets
    /// file yet.
    MoveSecrets,
}

/// A configuration, and what has to be written after it was loaded.
#[derive(Debug, Clone)]
pub struct Loaded {
    pub config: AppConfig,
    pub after: AfterLoad,
}

/// A configuration, split for the two files.
#[derive(Debug, Clone)]
pub struct SplitConfig {
    /// The configuration without its secrets.
    pub config: AppConfig,
    /// Its secrets.
    pub secrets: SecretsConfig,
    /// Whether the secrets file is written: there are secrets.
    pub write_secrets: bool,
}

/// Whether the relay list of every tunnel is filled in.
pub open spec fn tunnels_normal(s: Seq<TunnelConfig>) -> bool {
    forall|i: int| 0 <= i < s.len() ==> (#[trigger] s[i]).is_normal()
}

/// Whether `n` is `c` with the relay list of every tunnel filled in, and
/// otherwise the same.
pub open spec fn is_normalized(c: AppConfig, n: AppConfig) -> bool {
    &&& n == AppConfig { tunnels: n.tunnels, ..c }
    &&& n.tunnels@.len() == c.tunnels@.len()
    &&& forall|i: int|
        0 <= i < c.tunnels@.len() ==> {
            let (before, after) = (c.tunnels@[i], #[trigger] n.tunnels@[i]);
            &&& after == TunnelConfig { relay_addrs: after.relay_addrs, ..before }
            &&& after.relay_addrs@ == before.normalized()
            &&& before.is_normal() ==> after == before
        }
}

/// Fills in the relay list of every tunnel from its older single-relay field.
pub fn normalize_tunnels(config: &mut AppConfig)
    ensures
        is_normalized(*old(config), *final(config)),
{
    let mut i: usize = 0;
    while i < config.tunnels.len()
        invariant
            i <= config.tunnels@.len(),
            *config == (AppConfig { tunnels: config.tunnels, ..*old(config) }),
            config.tunnels@.len() == old(config).tunnels@.len(),
            forall|j: int|
                0 <= j < i ==> {
                    let (before, after) = (old(config).tunnels@[j], #[trigger] config.tunnels@[j]);
                    &&& after == TunnelConfig { relay_addrs: after.relay_addrs, ..before }
                    &&& after.relay_addrs@ == before.normalized()
                    &&& before.is_normal() ==> after == before
                },
            forall|j: int|
                i <= j < config.tunnels@.len() ==> #[trigger] config.tunnels@[j] == old(
                    config,
                ).tunnels@[j],
        decreases config.tunnels.len() - i,
    {
        config.tunnels[i].normalize_relay_addrs();
        i = i + 1;
    }
}

/// Whether `r` is `config` completed with `secrets`, where there is a secrets
/// file, and with what has to be written then.
pub open spec fn is_completed(
    config: AppConfig,
    config_exists: bool,
    secrets: Option<SecretsConfig>,
    r: Loaded,
) -> bool {
    match secrets {
        Some(x) => {
            &&& secrets::is_merged(x, config, r.config)
            &&& r.after == if x.flows.items().len() > 0 {
                AfterLoad::SaveBoth
            } else {
                AfterLoad::Nothing
            }
        },
        None => {
            &&& r.config == config
            &&& r.after == if config_exists && secrets::holds_secrets(config) {
                AfterLoad::MoveSecrets
            } else {
                AfterLoad::Nothing
            }
        },
    }
}

/// Completes a configuration that was read. `config_exists` says whether the
/// configuration file exists, and `secrets` is the content of the secrets file,
/// if there is one.
pub fn complete_load(
    config: AppConfig,
    config_exists: bool,
    secrets: Option<SecretsConfig>,
) -> (r: Loaded)
    ensures
        is_completed(config, config_exists, secrets, r),
{
    let mut config = config;
    match secrets {
        Some(x) => {
            x.merge_into(&mut config);
            let after = if x.flows.len() > 0 {
                AfterLoad::SaveBoth
            } else {
                AfterLoad::Nothing
            };
            Loaded { config, after }
        },
        None => {
            let after = if config_exists && has_secrets(&config) {
                AfterLoad::MoveSecrets
            } else {
                AfterLoad::Nothing
            };
            Loaded { config, after }
        },
    }
}

/// Splits a configuration for the two files.
pub fn split_config(config: AppConfig) -> (r: SplitConfig)
    ensures
        secrets::is_stripped(config, r.config),
        secrets::is_extracted(config, r.secrets),
        r.write_secrets == secrets::holds_secrets(config),
{
    let x = SecretsConfig::extract_from(&config);
    let write_secrets = !x.is_empty();
    proof {
        secrets::lemma_extraction_is_complete(config, x);
    }
    let mut stripped = config;
    stripped.strip_secrets();
    SplitConfig { config: stripped, secrets: x, write_secrets }
}

/// Filling in the relay lists leaves nothing to fill in.
pub proof fn lemma_normalized_once(c: AppConfig, n: AppConfig)
    requires
        is_normalized(c, n),
    ensures
        tunnels_normal(n.tunnels@),
{
    assert forall|i: int| 0 <= i < n.tunnels@.len() implies (#[trigger]
    n.tunnels@[i]).is_normal() by {
        assert(n.tunnels@[i].relay_addrs@ == c.tunnels@[i].normalized());
    }
}

/// A configuration that is split, written and loaded again is the same, and
/// loading it asks for nothing to be written. `s` and `x` are what was written,
/// `n` the file's content with the relay lists filled in, and `m` what was
/// loaded, with the secrets file where one was written.
pub proof fn lemma_load_after_save(
    c: AppConfig,
    s: AppConfig,
    x: SecretsConfig,
    n: AppConfig,
    m: Loaded,
)
    requires
        secrets::tunnel_ids_agree(c.tunnels@),
        secrets::uplink_interfaces_agree(c.cellular_uplinks@),
        tunnels_normal(c.tunnels@),
        secrets::is_stripped(c, s),
        secrets::is_extracted(c, x),
        is_normalized(s, n),
        is_completed(
            n,
            true,
            if secrets::holds_secrets(c) {
                Some(x)
            } else {
                None
            },
            m,
        ),
    ensures
        secrets::same_config(m.config, c),
        m.after == AfterLoad::Nothing,
{
    assert forall|i: int| 0 <= i < s.tunnels@.len() implies n.tunnels@[i] == s.tunnels@[i] by {
        assert(s.tunnels@[i] == secrets::stripped_tunnel(c.tunnels@[i]));
        assert(c.tunnels@[i].is_normal());
        assert(s.tunnels@[i].is_normal());
    }
    assert(n.tunnels@ =~= s.tunnels@);
    assert(secrets::is_stripped(c, n)) by {
        assert forall|i: int| 0 <= i < c.tunnels@.len() implies #[trigger] n.tunnels@[i]
            == secrets::stripped_tunnel(c.tunnels@[i]) by {
            assert(s.tunnels@[i] == secrets::stripped_tunnel(c.tunnels@[i]));
        }
    }
    secrets::lemma_stripped_holds_none(c, n);
    if secrets::holds_secrets(c) {
        secrets::lemma_split_and_merge(c, x, n, m.config);
    } else {
        assert forall|i: int| 0 <= i < c.cellular_uplinks@.len() implies n.cellular_uplinks@[i]
            == c.cellular_uplinks@[i] by {
            assert(c.cellular_uplinks@[i].password is None);
            assert(n.cellular_uplinks@[i] == secrets::stripped_uplink(c.cellular_uplinks@[i]));
        }
        assert(n.cellular_uplinks@ =~= c.cellular_uplinks@);
        assert forall|i: int| 0 <= i < c.tunnels@.len() implies n.tunnels@[i] == c.tunnels@[i] by {
            assert(!secrets::tunnel_has_secrets(c.tunnels@[i]));
            assert(n.tunnels@[i] == secrets::stripped_tunnel(c.tunnels@[i]));
        }
        assert(n.tunnels@ =~= c.tunnels@);
    }
}

/// A tunnel with a single relay and no list gets a list of that one; a list that is there,
/// and every other setting, stays.
pub proof fn lemma_single_relay_becomes_a_list(c: AppConfig, n: AppConfig, i: int)
    requires
        is_normalized(c, n),
        0 <= i < c.tunnels@.len(),
    ensures
        ({
            let (before, after) = (c.tunnels@[i], n.tunnels@[i]);
            &&& before.relay_addrs@.len() == 0 && before.relay_addr is Some
                ==> after.relay_addrs@ == seq![before.relay_addr->0]
            &&& before.relay_addrs@.len() > 0 ==> after.relay_addrs@ == before.relay_addrs@
            &&& before.relay_addr is None ==> after.relay_addrs@ == before.relay_addrs@
            &&& after.id == before.id
            &&& after.name == before.name
            &&& after.enabled == before.enabled
            &&& after.protocol == before.protocol
            &&& after.mode == before.mode
            &&& after.direction == before.direction
            &&& after.local_addr == before.local_addr
            &&& after.relay_addr == before.relay_addr
            &&& after.max_rtt_failback_increase_ms == before.max_rtt_failback_increase_ms
            &&& after.tunnel_encryption_key == before.tunnel_encryption_key
            &&& after.tunnel_bind_secret == before.tunnel_bind_secret
            &&& after.peer_addr == before.peer_addr
            &&& after.direct_listen_addr == before.direct_listen_addr
            &&& after.tunnel_psk == before.tunnel_psk
            &&& after.tls_cert_pem == before.tls_cert_pem
            &&& after.tls_key_pem == before.tls_key_pem
        }),
{
}

/// After loading both files are written anew exactly when the secrets file still held
/// parameters of flows, or there is no secrets file and the configuration file held a
/// secret.
pub proof fn lemma_when_files_are_written_anew(
    config: AppConfig,
    config_exists: bool,
    secrets: Option<SecretsConfig>,
    r: Loaded,
)
    requires
        is_completed(config, config_exists, secrets, r),
    ensures
        secrets is Some && secrets->0.flows.items().len() > 0 ==> r.after is SaveBoth,
        secrets is Some && secrets->0.flows.items().len() == 0 ==> r.after is Nothing,
        secrets is None && !config_exists ==> r.after is Nothing,
        secrets is None && config_exists && config.server.tls is Some ==> r.after is MoveSecrets,
        secrets is None && config_exists && config.server.auth is Some ==> r.after is MoveSecrets,
        secrets is None && config_exists && config.setup_token is Some ==> r.after is MoveSecrets,
        secrets is None && config_exists && config.manager is Some
            && config.manager->0.node_secret is Some ==> r.after is MoveSecrets,
        secrets is None ==> r.config == config,
        secrets is None && r.after is MoveSecrets ==> secrets::holds_secrets(config),
        secrets is None && config_exists && secrets::holds_secrets(config)
            ==> r.after is MoveSecrets,
{
}

/// Saving keeps the secrets apart: the configuration that is written has none, the secrets
/// that are written are those of the configuration, and they are written exactly when there
/// are any.
pub proof fn lemma_saving_keeps_secrets_apart(config: AppConfig, r: SplitConfig)
    requires
        call_ensures(split_config, (config,), r),
    ensures
        r.config.server.tls is None,
        r.config.server.auth is None,
        r.config.setup_token is None,
        r.config.manager is Some ==> r.config.manager->0.node_secret is None
            && r.config.manager->0.registration_token is None,
        forall|i: int|
            0 <= i < r.config.cellular_uplinks@.len() ==> (
            #[trigger] r.config.cellular_uplinks@[i]).password is None,
        forall|i: int|
            0 <= i < r.config.tunnels@.len() ==> {
                let t = #[trigger] r.config.tunnels@[i];
                t.tunnel_encryption_key is None && t.tunnel_bind_secret is None
                    && t.tunnel_psk is None && t.tls_cert_pem is None && t.tls_key_pem is None
            },
        r.config.inputs == config.inputs,
        r.config.outputs == config.outputs,
        r.config.flows == config.flows,
        r.secrets.server_tls == config.server.tls,
        r.secrets.setup_token == config.setup_token,
        config.manager is Some ==> r.secrets.manager_node_secret == config.manager->0.node_secret,
        r.write_secrets <==> !r.secrets.spec_is_empty(),
{
    secrets::lemma_strip_leaves_no_secret(config, r.config);
    secrets::lemma_extraction_is_complete(config, r.secrets);
}

/// What is loaded is what was completed: the configuration with the secrets that it lacks.
pub proof fn lemma_loading_puts_secrets_back(
    config: AppConfig,
    config_exists: bool,
    x: SecretsConfig,
    r: Loaded,
)
    requires
        call_ensures(complete_load, (config, config_exists, Some(x)), r),
    ensures
        config.server.tls is None ==> r.config.server.tls == x.server_tls,
        config.server.tls is Some ==> r.config.server.tls == config.server.tls,
        config.setup_token is None ==> r.config.setup_token == x.setup_token,
        config.setup_token is Some ==> r.config.setup_token == config.setup_token,
        r.config.flows == config.flows,
        r.after is SaveBoth <==> x.flows.items().len() > 0,
        !(r.after is MoveSecrets),
{
    secrets::lemma_merge_fills_each_secret(x, config, r.config);
}

} // verus!
