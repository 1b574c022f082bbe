//! Infrastructure secrets: kept in a file of their own, and never sent to the
//! manager.
//!
//! Node credentials, the setup token, the server's TLS and authentication
//! settings, the tunnel keys, the passwords of cellular routers and the token for
//! the NMOS registry are secrets. In memory they are part of the configuration. The
//! parameters of inputs and outputs (passphrases, stream keys, tokens) are not
//! secrets in this sense and stay in the configuration.

use vstd::prelude::*;

use crate::auth::AuthConfig;
use crate::id_map::IdMap;
use crate::manager::ManagerConfig;
use crate::models::{
    AppConfig, CellularUplinkConfig, CmafOutputConfig, HlsOutputConfig, InputConfig,
    InputDefinition, NmosRegistrationConfig, OutputConfig, RtmpInputConfig, RtmpOutputConfig,
    RtspInputConfig, ServerConfig, SrtInputConfig, SrtOutputConfig, SrtRedundancyConfig, TlsConfig,
    WebrtcInputConfig, WebrtcOutputConfig, WhepInputConfig,
};
use crate::tunnel::TunnelConfig;

verus! {

/// The secrets of a node.
#[derive(Debug, Clone)]
pub struct SecretsConfig {
    /// Schema version.
    pub version: u32,
    /// The node's secret, assigned by the manager.
    pub manager_node_secret: Option<String>,
    /// One-time token for the first registration.
    pub manager_registration_token: Option<String>,
    /// TLS settings of the API server.
    pub server_tls: Option<TlsConfig>,
    /// Authentication settings of the API server.
    pub server_auth: Option<AuthConfig>,
    /// Token that opens the setup page.
    pub setup_token: Option<String>,
    /// Token for the NMOS registry.
    pub nmos_bearer_token: Option<String>,
    /// Passwords of the cellular routers, by network interface.
    pub cellular_passwords: IdMap<String>,
    /// Secrets of the tunnels, by tunnel identifier.
    pub tunnels: IdMap<TunnelSecrets>,
    /// Parameters of inputs and outputs that the first version of the secrets
    /// file held, by flow identifier.
    pub flows: IdMap<FlowSecrets>,
}

/// The secrets of a tunnel.
#[derive(Debug, Clone, Default)]
pub struct TunnelSecrets {
    pub tunnel_encryption_key: Option<String>,
    pub tunnel_bind_secret: Option<String>,
    pub tunnel_psk: Option<String>,
    pub tls_cert_pem: Option<String>,
    pub tls_key_pem: Option<String>,
}

/// The parameters of a flow that the first version of the secrets file held.
#[derive(Debug, Clone, Default)]
pub struct FlowSecrets {
    /// Those of the flow's input.
    pub input: Option<InputSecrets>,
    /// Those of the outputs, by output identifier.
    pub outputs: IdMap<OutputSecrets>,
}

/// Parameters of an input.
#[derive(Debug, Clone, Default)]
pub struct InputSecrets {
    /// SRT passphrase.
    pub passphrase: Option<String>,
    /// SRT passphrase of the second leg.
    pub redundancy_passphrase: Option<String>,
    /// RTMP stream key.
    pub stream_key: Option<String>,
    /// RTSP user name.
    pub username: Option<String>,
    /// RTSP password.
    pub password: Option<String>,
    /// WebRTC bearer token.
    pub bearer_token: Option<String>,
}

/// Parameters of an output.
#[derive(Debug, Clone, Default)]
pub struct OutputSecrets {
    /// SRT passphrase.
    pub passphrase: Option<String>,
    /// SRT passphrase of the second leg.
    pub redundancy_passphrase: Option<String>,
    /// RTMP stream key.
    pub stream_key: Option<String>,
    /// HLS authentication token.
    pub auth_token: Option<String>,
    /// WebRTC bearer token.
    pub bearer_token: Option<String>,
}

/// The schema version of the secrets file.
pub fn default_version() -> (r: u32)
    ensures
        r == 1,
{
    1
}

impl Default for SecretsConfig {
    /// No secrets at all.
    fn default() -> (r: Self)
        ensures
            r.version == 0,
            r.spec_is_empty(),
    {
        SecretsConfig {
            version: 0,
            manager_node_secret: None,
            manager_registration_token: None,
            server_tls: None,
            server_auth: None,
            setup_token: None,
            nmos_bearer_token: None,
            cellular_passwords: IdMap::new(),
            tunnels: IdMap::new(),
            flows: IdMap::new(),
        }
    }
}

impl TunnelSecrets {
    /// Whether there are no secrets.
    pub open spec fn spec_is_empty(self) -> bool {
        &&& self.tunnel_encryption_key is None
        &&& self.tunnel_bind_secret is None
        &&& self.tunnel_psk is None
        &&& self.tls_cert_pem is None
        &&& self.tls_key_pem is None
    }

    /// Whether the tunnel has no secrets.
    pub fn is_empty(&self) -> (r: bool)
        ensures
            r == self.spec_is_empty(),
    {
        self.tunnel_encryption_key.is_none() && self.tunnel_bind_secret.is_none()
            && self.tunnel_psk.is_none() && self.tls_cert_pem.is_none()
                && self.tls_key_pem.is_none()
    }
}

/// The first of two optional values that is there.
pub open spec fn or<A>(a: Option<A>, b: Option<A>) -> Option<A> {
    if a is Some {
        a
    } else {
        b
    }
}

// ---------------------------------------------------------------------------
// Taking the secrets out of a configuration
// ---------------------------------------------------------------------------

/// The secrets of a tunnel.
pub open spec fn tunnel_secrets(t: TunnelConfig) -> TunnelSecrets {
    TunnelSecrets {
        tunnel_encryption_key: t.tunnel_encryption_key,
        tunnel_bind_secret: t.tunnel_bind_secret,
        tunnel_psk: t.tunnel_psk,
        tls_cert_pem: t.tls_cert_pem,
        tls_key_pem: t.tls_key_pem,
    }
}

/// The secrets of a list of tunnels: those of each tunnel that has any.
pub open spec fn tunnels_secrets(s: Seq<TunnelConfig>) -> Map<Seq<char>, TunnelSecrets>
    decreases s.len(),
{
    if s.len() == 0 {
        Map::empty()
    } else {
        let rest = tunnels_secrets(s.drop_last());
        if tunnel_secrets(s.last()).spec_is_empty() {
            rest
        } else {
            rest.insert(s.last().id@, tunnel_secrets(s.last()))
        }
    }
}

/// The passwords of a list of cellular routers: that of each router that has one.
pub open spec fn uplink_passwords(s: Seq<CellularUplinkConfig>) -> Map<Seq<char>, String>
    decreases s.len(),
{
    if s.len() == 0 {
        Map::empty()
    } else {
        let rest = uplink_passwords(s.drop_last());
        match s.last().password {
            Some(password) => rest.insert(s.last().interface@, password),
            None => rest,
        }
    }
}

/// The token for the NMOS registry.
pub open spec fn nmos_token(nmos: Option<NmosRegistrationConfig>) -> Option<String> {
    match nmos {
        Some(n) => n.bearer_token,
        None => None,
    }
}

/// Whether two optional authentication settings hold the same values.
pub open spec fn same_auth(a: Option<AuthConfig>, b: Option<AuthConfig>) -> bool {
    match (a, b) {
        (Some(x), Some(y)) => x.same_as(y),
        (None, None) => true,
        _ => false,
    }
}

/// Whether `x` holds exactly the secrets of `c`.
pub open spec fn is_extracted(c: AppConfig, x: SecretsConfig) -> bool {
    &&& x.version == 1
    &&& x.manager_node_secret == (match c.manager {
        Some(m) => m.node_secret,
        None => None,
    })
    &&& x.manager_registration_token == (match c.manager {
        Some(m) => m.registration_token,
        None => None,
    })
    &&& x.server_tls == c.server.tls
    &&& same_auth(x.server_auth, c.server.auth)
    &&& x.setup_token == c.setup_token
    &&& x.nmos_bearer_token == nmos_token(c.nmos_registration)
    &&& x.cellular_passwords@ == uplink_passwords(c.cellular_uplinks@)
    &&& x.tunnels@ == tunnels_secrets(c.tunnels@)
    &&& x.flows.items().len() == 0
}

impl SecretsConfig {
    /// Whether there are no secrets.
    pub open spec fn spec_is_empty(self) -> bool {
        &&& self.manager_node_secret is None
        &&& self.manager_registration_token is None
        &&& self.server_tls is None
        &&& self.server_auth is None
        &&& self.setup_token is None
        &&& self.nmos_bearer_token is None
        &&& self.cellular_passwords@ == Map::<Seq<char>, String>::empty()
        &&& self.tunnels@ == Map::<Seq<char>, TunnelSecrets>::empty()
        &&& self.flows.items().len() == 0
    }

    /// Whether there are no secrets.
    pub fn is_empty(&self) -> (r: bool)
        ensures
            r == self.spec_is_empty(),
    {
        self.manager_node_secret.is_none() && self.manager_registration_token.is_none()
            && self.server_tls.is_none() && self.server_auth.is_none() && self.setup_token.is_none()
            && self.nmos_bearer_token.is_none() && self.cellular_passwords.is_empty()
            && self.tunnels.is_empty() && self.flows.is_empty()
    }

    fn extract_passwords(uplinks: &Vec<CellularUplinkConfig>) -> (r: IdMap<String>)
        ensures
            r@ == uplink_passwords(uplinks@),
    {
        let mut passwords: IdMap<String> = IdMap::new();
        let mut i: usize = 0;
        assert(uplinks@.take(0) =~= Seq::<CellularUplinkConfig>::empty());
        while i < uplinks.len()
            invariant
                i <= uplinks@.len(),
                passwords@ == uplink_passwords(uplinks@.take(i as int)),
            decreases uplinks.len() - i,
        {
            assert(uplinks@.take(i + 1).drop_last() =~= uplinks@.take(i as int));
            if let Some(password) = &uplinks[i].password {
                passwords.insert(uplinks[i].interface.clone(), password.clone());
            }
            i = i + 1;
        }
        assert(uplinks@.take(i as int) =~= uplinks@);
        passwords
    }

    /// The secrets of a configuration.
    pub fn extract_from(config: &AppConfig) -> (r: Self)
        ensures
            is_extracted(*config, r),
    {
        let mut secrets = SecretsConfig::default();
        secrets.version = 1;
        if let Some(mgr) = &config.manager {
            secrets.manager_node_secret = mgr.node_secret.clone();
            secrets.manager_registration_token = mgr.registration_token.clone();
        }
        secrets.server_tls = config.server.tls.clone();
        secrets.server_auth = match &config.server.auth {
            Some(auth) => Some(auth.clone()),
            None => None,
        };
        secrets.setup_token = config.setup_token.clone();
        if let Some(nmos) = &config.nmos_registration {
            secrets.nmos_bearer_token = nmos.bearer_token.clone();
        }
        secrets.cellular_passwords = Self::extract_passwords(&config.cellular_uplinks);
        let mut tunnels: IdMap<TunnelSecrets> = IdMap::new();
        let mut i: usize = 0;
        assert(config.tunnels@.take(0) =~= Seq::<TunnelConfig>::empty());
        while i < config.tunnels.len()
            invariant
                i <= config.tunnels@.len(),
                tunnels@ == tunnels_secrets(config.tunnels@.take(i as int)),
            decreases config.tunnels.len() - i,
        {
            let tunnel = &config.tunnels[i];
            assert(config.tunnels@.take(i + 1).drop_last() =~= config.tunnels@.take(i as int));
            let ts = TunnelSecrets {
                tunnel_encryption_key: tunnel.tunnel_encryption_key.clone(),
                tunnel_bind_secret: tunnel.tunnel_bind_secret.clone(),
                tunnel_psk: tunnel.tunnel_psk.clone(),
                tls_cert_pem: tunnel.tls_cert_pem.clone(),
                tls_key_pem: tunnel.tls_key_pem.clone(),
            };
            if !ts.is_empty() {
                tunnels.insert(tunnel.id.clone(), ts);
            }
            i = i + 1;
        }
        assert(config.tunnels@.take(i as int) =~= config.tunnels@);
        secrets.tunnels = tunnels;
        secrets
    }
}

/// Whether a tunnel has secrets.
pub open spec fn tunnel_has_secrets(t: TunnelConfig) -> bool {
    !tunnel_secrets(t).spec_is_empty()
}

/// Whether a configuration holds secrets.
pub open spec fn holds_secrets(c: AppConfig) -> bool {
    ||| c.manager is Some && (c.manager->0.node_secret is Some
        || c.manager->0.registration_token is Some)
    ||| c.server.tls is Some
    ||| c.server.auth is Some
    ||| c.setup_token is Some
    ||| nmos_token(c.nmos_registration) is Some
    ||| exists|i: int|
        0 <= i < c.cellular_uplinks@.len() && (#[trigger] c.cellular_uplinks@[i]).password is Some
    ||| exists|i: int| 0 <= i < c.tunnels@.len() && tunnel_has_secrets(#[trigger] c.tunnels@[i])
}

/// Whether the configuration holds secrets that belong into the secrets file.
pub fn has_secrets(config: &AppConfig) -> (r: bool)
    ensures
        r == holds_secrets(*config),
{
    if let Some(mgr) = &config.manager {
        if mgr.node_secret.is_some() || mgr.registration_token.is_some() {
            return true;
        }
    }
    if config.server.tls.is_some() || config.server.auth.is_some() || config.setup_token.is_some() {
        return true;
    }
    if let Some(nmos) = &config.nmos_registration {
        if nmos.bearer_token.is_some() {
            return true;
        }
    }
    let mut i: usize = 0;
    while i < config.cellular_uplinks.len()
        invariant
            i <= config.cellular_uplinks@.len(),
            forall|j: int|
                0 <= j < i ==> (#[trigger] config.cellular_uplinks@[j]).password is None,
        decreases config.cellular_uplinks.len() - i,
    {
        if config.cellular_uplinks[i].password.is_some() {
            assert(config.cellular_uplinks@[i as int].password is Some);
            return true;
        }
        i = i + 1;
    }
    let mut i: usize = 0;
    while i < config.tunnels.len()
        invariant
            i <= config.tunnels@.len(),
            forall|j: int|
                0 <= j < config.cellular_uplinks@.len() ==> (
                #[trigger] config.cellular_uplinks@[j]).password is None,
            forall|j: int| 0 <= j < i ==> !tunnel_has_secrets(#[trigger] config.tunnels@[j]),
        decreases config.tunnels.len() - i,
    {
        let t = &config.tunnels[i];
        if t.tunnel_encryption_key.is_some() || t.tunnel_bind_secret.is_some()
            || t.tunnel_psk.is_some() || t.tls_cert_pem.is_some() || t.tls_key_pem.is_some() {
            assert(tunnel_has_secrets(config.tunnels@[i as int]));
            return true;
        }
        i = i + 1;
    }
    false
}

// ---------------------------------------------------------------------------
// Removing the secrets from a configuration
// ---------------------------------------------------------------------------

/// A tunnel without its secrets.
pub open spec fn stripped_tunnel(t: TunnelConfig) -> TunnelConfig {
    TunnelConfig {
        tunnel_encryption_key: None,
        tunnel_bind_secret: None,
        tunnel_psk: None,
        tls_cert_pem: None,
        tls_key_pem: None,
        ..t
    }
}

/// The manager settings without their secrets.
pub open spec fn stripped_manager(m: Option<ManagerConfig>) -> Option<ManagerConfig> {
    match m {
        Some(m) => Some(ManagerConfig { node_secret: None, registration_token: None, ..m }),
        None => None,
    }
}

/// A cellular router without its password.
pub open spec fn stripped_uplink(u: CellularUplinkConfig) -> CellularUplinkConfig {
    CellularUplinkConfig { password: None, ..u }
}

/// The NMOS registration without its token.
pub open spec fn stripped_nmos(nmos: Option<NmosRegistrationConfig>) -> Option<
    NmosRegistrationConfig,
> {
    match nmos {
        Some(n) => Some(NmosRegistrationConfig { bearer_token: None, ..n }),
        None => None,
    }
}

/// Whether `s` is `c` without its secrets, and otherwise the same.
pub open spec fn is_stripped(c: AppConfig, s: AppConfig) -> bool {
    &&& s == AppConfig {
        manager: stripped_manager(c.manager),
        server: ServerConfig { tls: None, auth: None, ..c.server },
        setup_token: None,
        nmos_registration: stripped_nmos(c.nmos_registration),
        cellular_uplinks: s.cellular_uplinks,
        tunnels: s.tunnels,
        ..c
    }
    &&& s.cellular_uplinks@.len() == c.cellular_uplinks@.len()
    &&& forall|i: int|
        0 <= i < c.cellular_uplinks@.len() ==> #[trigger] s.cellular_uplinks@[i]
            == stripped_uplink(c.cellular_uplinks@[i])
    &&& s.tunnels@.len() == c.tunnels@.len()
    &&& forall|i: int|
        0 <= i < c.tunnels@.len() ==> #[trigger] s.tunnels@[i] == stripped_tunnel(c.tunnels@[i])
}

fn strip_tunnel(t: &mut TunnelConfig)
    ensures
        *final(t) == stripped_tunnel(*old(t)),
{
    t.tunnel_encryption_key = None;
    t.tunnel_bind_secret = None;
    t.tunnel_psk = None;
    t.tls_cert_pem = None;
    t.tls_key_pem = None;
}

fn strip_uplinks(uplinks: &mut Vec<CellularUplinkConfig>)
    ensures
        final(uplinks)@.len() == old(uplinks)@.len(),
        forall|i: int|
            0 <= i < old(uplinks)@.len() ==> #[trigger] final(uplinks)@[i] == stripped_uplink(
                old(uplinks)@[i],
            ),
{
    let ghost before = uplinks@;
    let n: usize = uplinks.len();
    let mut i: usize = 0;
    while i < n
        invariant
            n == uplinks@.len(),
            n == before.len(),
            i <= n,
            forall|j: int| 0 <= j < i ==> #[trigger] uplinks@[j] == stripped_uplink(before[j]),
            forall|j: int| i <= j < n ==> #[trigger] uplinks@[j] == before[j],
        decreases n - i,
    {
        uplinks[i].password = None;
        i = i + 1;
    }
}

impl AppConfig {
    /// Removes the secrets, so that the configuration may be sent to the
    /// manager. Everything else stays.
    pub fn strip_secrets(&mut self)
        ensures
            is_stripped(*old(self), *final(self)),
    {
        if let Some(mgr) = &mut self.manager {
            mgr.node_secret = None;
            mgr.registration_token = None;
        }
        self.server.tls = None;
        self.server.auth = None;
        self.setup_token = None;
        if let Some(nmos) = &mut self.nmos_registration {
            nmos.bearer_token = None;
        }
        strip_uplinks(&mut self.cellular_uplinks);
        let ghost before = *self;
        let n: usize = self.tunnels.len();
        let mut i: usize = 0;
        while i < n
            invariant
                n == self.tunnels@.len(),
                n == before.tunnels@.len(),
                i <= n,
                *self == (AppConfig { tunnels: self.tunnels, ..before }),
                forall|j: int|
                    0 <= j < i ==> #[trigger] self.tunnels@[j] == stripped_tunnel(
                        before.tunnels@[j],
                    ),
                forall|j: int| i <= j < n ==> #[trigger] self.tunnels@[j] == before.tunnels@[j],
            decreases n - i,
        {
            strip_tunnel(&mut self.tunnels[i]);
            i = i + 1;
        }
    }

    /// Removes the secrets for display in the local API. Everything else stays.
    pub fn mask_secrets(&mut self)
        ensures
            is_stripped(*old(self), *final(self)),
    {
        self.strip_secrets();
    }
}

// ---------------------------------------------------------------------------
// Putting the secrets back
// ---------------------------------------------------------------------------

/// A tunnel with the secrets that it lacks.
pub open spec fn merged_tunnel(t: TunnelConfig, tunnels: Map<Seq<char>, TunnelSecrets>) -> TunnelConfig {
    if tunnels.contains_key(t.id@) {
        let ts = tunnels[t.id@];
        TunnelConfig {
            tunnel_encryption_key: or(t.tunnel_encryption_key, ts.tunnel_encryption_key),
            tunnel_bind_secret: or(t.tunnel_bind_secret, ts.tunnel_bind_secret),
            tunnel_psk: or(t.tunnel_psk, ts.tunnel_psk),
            tls_cert_pem: or(t.tls_cert_pem, ts.tls_cert_pem),
            tls_key_pem: or(t.tls_key_pem, ts.tls_key_pem),
            ..t
        }
    } else {
        t
    }
}

/// The manager settings with the secrets that they lack.
pub open spec fn merged_manager(m: Option<ManagerConfig>, x: SecretsConfig) -> Option<ManagerConfig> {
    match m {
        Some(m) => Some(
            ManagerConfig {
                node_secret: or(m.node_secret, x.manager_node_secret),
                registration_token: or(m.registration_token, x.manager_registration_token),
                ..m
            },
        ),
        None => None,
    }
}

/// A cellular router with the password that it lacks.
pub open spec fn merged_uplink(
    u: CellularUplinkConfig,
    passwords: Map<Seq<char>, String>,
) -> CellularUplinkConfig {
    if u.password is None && passwords.contains_key(u.interface@) {
        CellularUplinkConfig { password: Some(passwords[u.interface@]), ..u }
    } else {
        u
    }
}

/// The NMOS registration with the token that it lacks.
pub open spec fn merged_nmos(nmos: Option<NmosRegistrationConfig>, token: Option<String>) -> Option<
    NmosRegistrationConfig,
> {
    match nmos {
        Some(n) => Some(NmosRegistrationConfig { bearer_token: or(n.bearer_token, token), ..n }),
        None => None,
    }
}

/// The second leg of an SRT input or output with the passphrase that it lacks.
pub open spec fn merged_leg(red: Option<SrtRedundancyConfig>, passphrase: Option<String>) -> Option<
    SrtRedundancyConfig,
> {
    match red {
        Some(r) => Some(SrtRedundancyConfig { passphrase: or(r.passphrase, passphrase), ..r }),
        None => None,
    }
}

/// An input with the parameters that it lacks.
pub open spec fn merged_input(is: InputSecrets, input: InputConfig) -> InputConfig {
    match input {
        InputConfig::Srt(c) => InputConfig::Srt(
            SrtInputConfig {
                passphrase: or(c.passphrase, is.passphrase),
                redundancy: merged_leg(c.redundancy, is.redundancy_passphrase),
                ..c
            },
        ),
        InputConfig::Rtmp(c) => InputConfig::Rtmp(
            RtmpInputConfig { stream_key: or(c.stream_key, is.stream_key), ..c },
        ),
        InputConfig::Rtsp(c) => InputConfig::Rtsp(
            RtspInputConfig {
                username: or(c.username, is.username),
                password: or(c.password, is.password),
                ..c
            },
        ),
        InputConfig::Webrtc(c) => InputConfig::Webrtc(
            WebrtcInputConfig { bearer_token: or(c.bearer_token, is.bearer_token), ..c },
        ),
        InputConfig::Whep(c) => InputConfig::Whep(
            WhepInputConfig { bearer_token: or(c.bearer_token, is.bearer_token), ..c },
        ),
        _ => input,
    }
}

/// An output with the parameters that it lacks. An RTMP output lacks its stream
/// key where that is empty.
pub open spec fn merged_output(os: OutputSecrets, output: OutputConfig) -> OutputConfig {
    match output {
        OutputConfig::Srt(c) => OutputConfig::Srt(
            SrtOutputConfig {
                passphrase: or(c.passphrase, os.passphrase),
                redundancy: merged_leg(c.redundancy, os.redundancy_passphrase),
                ..c
            },
        ),
        OutputConfig::Rtmp(c) => OutputConfig::Rtmp(
            RtmpOutputConfig {
                stream_key: if c.stream_key@.len() == 0 && os.stream_key is Some
                    && os.stream_key->0@.len() > 0 {
                    os.stream_key->0
                } else {
                    c.stream_key
                },
                ..c
            },
        ),
        OutputConfig::Hls(c) => OutputConfig::Hls(
            HlsOutputConfig { auth_token: or(c.auth_token, os.auth_token), ..c },
        ),
        OutputConfig::Cmaf(c) => OutputConfig::Cmaf(
            CmafOutputConfig { auth_token: or(c.auth_token, os.auth_token), ..c },
        ),
        OutputConfig::Webrtc(c) => OutputConfig::Webrtc(
            WebrtcOutputConfig { bearer_token: or(c.bearer_token, os.bearer_token), ..c },
        ),
        _ => output,
    }
}

/// An input definition after the first `n` flows' parameters were put back.
pub open spec fn restored_input(
    flows: Seq<(String, FlowSecrets)>,
    n: int,
    def: InputDefinition,
) -> InputDefinition
    decreases n,
{
    if n <= 0 {
        def
    } else {
        let d = restored_input(flows, n - 1, def);
        match flows[n - 1].1.input {
            Some(is) => InputDefinition { config: merged_input(is, d.config), ..d },
            None => d,
        }
    }
}

/// An output after the first `n` flows' parameters were put back.
pub open spec fn restored_output(
    flows: Seq<(String, FlowSecrets)>,
    n: int,
    output: OutputConfig,
) -> OutputConfig
    decreases n,
{
    if n <= 0 {
        output
    } else {
        let o = restored_output(flows, n - 1, output);
        let outputs = flows[n - 1].1.outputs@;
        if outputs.contains_key(o.spec_id()) {
            merged_output(outputs[o.spec_id()], o)
        } else {
            o
        }
    }
}

/// Whether `m` is `c` with every secret of `x` that `c` lacks, and otherwise the
/// same.
pub open spec fn is_merged(x: SecretsConfig, c: AppConfig, m: AppConfig) -> bool {
    &&& m == AppConfig {
        manager: merged_manager(c.manager, x),
        server: ServerConfig {
            tls: or(c.server.tls, x.server_tls),
            auth: m.server.auth,
            ..c.server
        },
        setup_token: or(c.setup_token, x.setup_token),
        nmos_registration: merged_nmos(c.nmos_registration, x.nmos_bearer_token),
        cellular_uplinks: m.cellular_uplinks,
        tunnels: m.tunnels,
        inputs: m.inputs,
        outputs: m.outputs,
        ..c
    }
    &&& if c.server.auth is Some {
        m.server.auth == c.server.auth
    } else {
        same_auth(m.server.auth, x.server_auth)
    }
    &&& m.cellular_uplinks@.len() == c.cellular_uplinks@.len()
    &&& forall|i: int|
        0 <= i < c.cellular_uplinks@.len() ==> #[trigger] m.cellular_uplinks@[i] == merged_uplink(
            c.cellular_uplinks@[i],
            x.cellular_passwords@,
        )
    &&& m.tunnels@.len() == c.tunnels@.len()
    &&& forall|i: int|
        0 <= i < c.tunnels@.len() ==> #[trigger] m.tunnels@[i] == merged_tunnel(
            c.tunnels@[i],
            x.tunnels@,
        )
    &&& m.inputs@.len() == c.inputs@.len()
    &&& forall|i: int|
        0 <= i < c.inputs@.len() ==> #[trigger] m.inputs@[i] == restored_input(
            x.flows.items(),
            x.flows.items().len() as int,
            c.inputs@[i],
        )
    &&& m.outputs@.len() == c.outputs@.len()
    &&& forall|i: int|
        0 <= i < c.outputs@.len() ==> #[trigger] m.outputs@[i] == restored_output(
            x.flows.items(),
            x.flows.items().len() as int,
            c.outputs@[i],
        )
}

fn merge_tunnel_secrets(ts: &TunnelSecrets, t: &mut TunnelConfig)
    ensures
        *final(t) == (TunnelConfig {
            tunnel_encryption_key: or(old(t).tunnel_encryption_key, ts.tunnel_encryption_key),
            tunnel_bind_secret: or(old(t).tunnel_bind_secret, ts.tunnel_bind_secret),
            tunnel_psk: or(old(t).tunnel_psk, ts.tunnel_psk),
            tls_cert_pem: or(old(t).tls_cert_pem, ts.tls_cert_pem),
            tls_key_pem: or(old(t).tls_key_pem, ts.tls_key_pem),
            ..*old(t)
        }),
{
    if t.tunnel_encryption_key.is_none() {
        t.tunnel_encryption_key = ts.tunnel_encryption_key.clone();
    }
    if t.tunnel_bind_secret.is_none() {
        t.tunnel_bind_secret = ts.tunnel_bind_secret.clone();
    }
    if t.tunnel_psk.is_none() {
        t.tunnel_psk = ts.tunnel_psk.clone();
    }
    if t.tls_cert_pem.is_none() {
        t.tls_cert_pem = ts.tls_cert_pem.clone();
    }
    if t.tls_key_pem.is_none() {
        t.tls_key_pem = ts.tls_key_pem.clone();
    }
}

impl SecretsConfig {
    /// Gives an input the parameters that it lacks.
    pub fn merge_input_secrets(is: &InputSecrets, input: &mut InputConfig)
        ensures
            *final(input) == merged_input(*is, *old(input)),
    {
        match input {
            InputConfig::Srt(srt) => {
                if srt.passphrase.is_none() {
                    srt.passphrase = is.passphrase.clone();
                }
                if let Some(red) = &mut srt.redundancy {
                    if red.passphrase.is_none() {
                        red.passphrase = is.redundancy_passphrase.clone();
                    }
                }
            },
            InputConfig::Rtmp(rtmp) => {
                if rtmp.stream_key.is_none() {
                    rtmp.stream_key = is.stream_key.clone();
                }
            },
            InputConfig::Rtsp(rtsp) => {
                if rtsp.username.is_none() {
                    rtsp.username = is.username.clone();
                }
                if rtsp.password.is_none() {
                    rtsp.password = is.password.clone();
                }
            },
            InputConfig::Webrtc(webrtc) => {
                if webrtc.bearer_token.is_none() {
                    webrtc.bearer_token = is.bearer_token.clone();
                }
            },
            InputConfig::Whep(whep) => {
                if whep.bearer_token.is_none() {
                    whep.bearer_token = is.bearer_token.clone();
                }
            },
            _ => {},
        }
    }

    /// Gives an output the parameters that it lacks.
    pub fn merge_output_secrets(os: &OutputSecrets, output: &mut OutputConfig)
        ensures
            *final(output) == merged_output(*os, *old(output)),
    {
        match output {
            OutputConfig::Srt(srt) => {
                if srt.passphrase.is_none() {
                    srt.passphrase = os.passphrase.clone();
                }
                if let Some(red) = &mut srt.redundancy {
                    if red.passphrase.is_none() {
                        red.passphrase = os.redundancy_passphrase.clone();
                    }
                }
            },
            OutputConfig::Rtmp(rtmp) => {
                if let Some(key) = &os.stream_key {
                    if rtmp.stream_key.as_str().is_empty() && !key.as_str().is_empty() {
                        rtmp.stream_key = key.clone();
                    }
                }
            },
            OutputConfig::Hls(hls) => {
                if hls.auth_token.is_none() {
                    hls.auth_token = os.auth_token.clone();
                }
            },
            OutputConfig::Cmaf(cmaf) => {
                if cmaf.auth_token.is_none() {
                    cmaf.auth_token = os.auth_token.clone();
                }
            },
            OutputConfig::Webrtc(webrtc) => {
                if webrtc.bearer_token.is_none() {
                    webrtc.bearer_token = os.bearer_token.clone();
                }
            },
            _ => {},
        }
    }

    fn merge_uplinks(&self, uplinks: &mut Vec<CellularUplinkConfig>)
        ensures
            final(uplinks)@.len() == old(uplinks)@.len(),
            forall|i: int|
                0 <= i < old(uplinks)@.len() ==> #[trigger] final(uplinks)@[i] == merged_uplink(
                    old(uplinks)@[i],
                    self.cellular_passwords@,
                ),
    {
        let ghost before = uplinks@;
        let n: usize = uplinks.len();
        let mut i: usize = 0;
        while i < n
            invariant
                n == uplinks@.len(),
                n == before.len(),
                i <= n,
                forall|j: int|
                    0 <= j < i ==> #[trigger] uplinks@[j] == merged_uplink(
                        before[j],
                        self.cellular_passwords@,
                    ),
                forall|j: int| i <= j < n ==> #[trigger] uplinks@[j] == before[j],
            decreases n - i,
        {
            if uplinks[i].password.is_none() {
                if let Some(password) = self.cellular_passwords.get(uplinks[i].interface.as_str()) {
                    uplinks[i].password = Some(password.clone());
                }
            }
            i = i + 1;
        }
    }

    fn merge_tunnels(&self, tunnels: &mut Vec<TunnelConfig>)
        ensures
            final(tunnels)@.len() == old(tunnels)@.len(),
            forall|i: int|
                0 <= i < old(tunnels)@.len() ==> #[trigger] final(tunnels)@[i] == merged_tunnel(
                    old(tunnels)@[i],
                    self.tunnels@,
                ),
    {
        let ghost before = tunnels@;
        let n: usize = tunnels.len();
        let mut i: usize = 0;
        while i < n
            invariant
                n == tunnels@.len(),
                n == before.len(),
                i <= n,
                forall|j: int|
                    0 <= j < i ==> #[trigger] tunnels@[j] == merged_tunnel(before[j], self.tunnels@),
                forall|j: int| i <= j < n ==> #[trigger] tunnels@[j] == before[j],
            decreases n - i,
        {
            if let Some(ts) = self.tunnels.get(tunnels[i].id.as_str()) {
                merge_tunnel_secrets(ts, &mut tunnels[i]);
            }
            i = i + 1;
        }
    }

    fn restore_inputs(&self, k: usize, inputs: &mut Vec<InputDefinition>, Ghost(first): Ghost<Seq<InputDefinition>>)
        requires
            k < self.flows.items().len(),
            old(inputs)@.len() == first.len(),
            forall|i: int|
                0 <= i < first.len() ==> #[trigger] old(inputs)@[i] == restored_input(
                    self.flows.items(),
                    k as int,
                    first[i],
                ),
        ensures
            final(inputs)@.len() == first.len(),
            forall|i: int|
                0 <= i < first.len() ==> #[trigger] final(inputs)@[i] == restored_input(
                    self.flows.items(),
                    k + 1,
                    first[i],
                ),
    {
        let fs = self.flows.value_at(k);
        if let Some(is) = &fs.input {
            let n: usize = inputs.len();
            let mut i: usize = 0;
            while i < n
                invariant
                    n == inputs@.len(),
                    n == first.len(),
                    k < self.flows.items().len(),
                    self.flows.items()[k as int].1.input == Some(*is),
                    i <= n,
                    forall|j: int|
                        0 <= j < i ==> #[trigger] inputs@[j] == restored_input(
                            self.flows.items(),
                            k + 1,
                            first[j],
                        ),
                    forall|j: int|
                        i <= j < n ==> #[trigger] inputs@[j] == restored_input(
                            self.flows.items(),
                            k as int,
                            first[j],
                        ),
                decreases n - i,
            {
                Self::merge_input_secrets(is, &mut inputs[i].config);
                i = i + 1;
            }
        }
    }

    fn restore_outputs(&self, k: usize, outputs: &mut Vec<OutputConfig>, Ghost(first): Ghost<Seq<OutputConfig>>)
        requires
            k < self.flows.items().len(),
            old(outputs)@.len() == first.len(),
            forall|i: int|
                0 <= i < first.len() ==> #[trigger] old(outputs)@[i] == restored_output(
                    self.flows.items(),
                    k as int,
                    first[i],
                ),
        ensures
            final(outputs)@.len() == first.len(),
            forall|i: int|
                0 <= i < first.len() ==> #[trigger] final(outputs)@[i] == restored_output(
                    self.flows.items(),
                    k + 1,
                    first[i],
                ),
    {
        let fs = self.flows.value_at(k);
        let n: usize = outputs.len();
        let mut i: usize = 0;
        while i < n
            invariant
                n == outputs@.len(),
                n == first.len(),
                k < self.flows.items().len(),
                self.flows.items()[k as int].1 == *fs,
                i <= n,
                forall|j: int|
                    0 <= j < i ==> #[trigger] outputs@[j] == restored_output(
                        self.flows.items(),
                        k + 1,
                        first[j],
                    ),
                forall|j: int|
                    i <= j < n ==> #[trigger] outputs@[j] == restored_output(
                        self.flows.items(),
                        k as int,
                        first[j],
                    ),
            decreases n - i,
        {
            if let Some(os) = fs.outputs.get(outputs[i].id()) {
                Self::merge_output_secrets(os, &mut outputs[i]);
            }
            i = i + 1;
        }
    }

    /// Puts the secrets back into a configuration. What the configuration holds
    /// already is kept. The parameters of inputs and outputs that the first
    /// version of the secrets file held are put back too.
    pub fn merge_into(&self, config: &mut AppConfig)
        ensures
            is_merged(*self, *old(config), *final(config)),
    {
        if let Some(mgr) = &mut config.manager {
            if mgr.node_secret.is_none() {
                mgr.node_secret = self.manager_node_secret.clone();
            }
            if mgr.registration_token.is_none() {
                mgr.registration_token = self.manager_registration_token.clone();
            }
        }
        if config.server.tls.is_none() {
            config.server.tls = self.server_tls.clone();
        }
        if config.server.auth.is_none() {
            config.server.auth = match &self.server_auth {
                Some(auth) => Some(auth.clone()),
                None => None,
            };
        }
        if config.setup_token.is_none() {
            config.setup_token = self.setup_token.clone();
        }
        if let Some(nmos) = &mut config.nmos_registration {
            if nmos.bearer_token.is_none() {
                nmos.bearer_token = self.nmos_bearer_token.clone();
            }
        }
        self.merge_uplinks(&mut config.cellular_uplinks);
        self.merge_tunnels(&mut config.tunnels);
        let ghost before = *config;
        let n: usize = self.flows.len();
        let mut k: usize = 0;
        while k < n
            invariant
                n == self.flows.items().len(),
                k <= n,
                *config == (AppConfig { inputs: config.inputs, outputs: config.outputs, ..before }),
                config.inputs@.len() == before.inputs@.len(),
                config.outputs@.len() == before.outputs@.len(),
                forall|i: int|
                    0 <= i < before.inputs@.len() ==> #[trigger] config.inputs@[i]
                        == restored_input(self.flows.items(), k as int, before.inputs@[i]),
                forall|i: int|
                    0 <= i < before.outputs@.len() ==> #[trigger] config.outputs@[i]
                        == restored_output(self.flows.items(), k as int, before.outputs@[i]),
            decreases n - k,
        {
            self.restore_inputs(k, &mut config.inputs, Ghost(before.inputs@));
            self.restore_outputs(k, &mut config.outputs, Ghost(before.outputs@));
            k = k + 1;
        }
    }
}

// ---------------------------------------------------------------------------
// Laws
// ---------------------------------------------------------------------------

/// Whether two configurations hold the same values.
pub open spec fn same_config(a: AppConfig, b: AppConfig) -> bool {
    &&& a == AppConfig {
        server: ServerConfig { auth: a.server.auth, ..b.server },
        cellular_uplinks: a.cellular_uplinks,
        tunnels: a.tunnels,
        inputs: a.inputs,
        outputs: a.outputs,
        ..b
    }
    &&& same_auth(a.server.auth, b.server.auth)
    &&& a.cellular_uplinks@ == b.cellular_uplinks@
    &&& a.tunnels@ == b.tunnels@
    &&& a.inputs@ == b.inputs@
    &&& a.outputs@ == b.outputs@
}

/// Whether tunnels that share an identifier have the same secrets.
pub open spec fn tunnel_ids_agree(s: Seq<TunnelConfig>) -> bool {
    forall|i: int, j: int|
        #![trigger s[i], s[j]]
        0 <= i < s.len() && 0 <= j < s.len() && s[i].id@ == s[j].id@ ==> tunnel_secrets(s[i])
            == tunnel_secrets(s[j])
}

/// Whether cellular routers on the same interface have the same password.
pub open spec fn uplink_interfaces_agree(s: Seq<CellularUplinkConfig>) -> bool {
    forall|i: int, j: int|
        #![trigger s[i], s[j]]
        0 <= i < s.len() && 0 <= j < s.len() && s[i].interface@ == s[j].interface@
            ==> s[i].password == s[j].password
}

/// What is found under an interface.
proof fn lemma_uplink_passwords(s: Seq<CellularUplinkConfig>, at: Seq<char>)
    ensures
        uplink_passwords(s).contains_key(at) <==> exists|i: int|
            0 <= i < s.len() && (#[trigger] s[i]).interface@ == at && s[i].password is Some,
        uplink_passwords(s).contains_key(at) ==> exists|i: int|
            0 <= i < s.len() && (#[trigger] s[i]).interface@ == at && s[i].password == Some(
                uplink_passwords(s)[at],
            ),
    decreases s.len(),
{
    if s.len() > 0 {
        let init = s.drop_last();
        let last = s.last();
        lemma_uplink_passwords(init, at);
        if last.interface@ == at && last.password is Some {
            assert(s[s.len() - 1].interface@ == at);
        } else if uplink_passwords(init).contains_key(at) {
            let j = choose|j: int|
                0 <= j < init.len() && (#[trigger] init[j]).interface@ == at && init[j].password
                    == Some(uplink_passwords(init)[at]);
            assert(s[j] == init[j]);
        }
        if exists|i: int|
            0 <= i < s.len() && (#[trigger] s[i]).interface@ == at && s[i].password is Some {
            let i = choose|i: int|
                0 <= i < s.len() && (#[trigger] s[i]).interface@ == at && s[i].password is Some;
            if i < init.len() {
                assert(init[i] == s[i]);
            }
        }
    }
}

/// What is found under a tunnel's identifier, where identifiers agree.
proof fn lemma_tunnels_secrets(s: Seq<TunnelConfig>, id: Seq<char>)
    ensures
        tunnels_secrets(s).contains_key(id) <==> exists|i: int|
            0 <= i < s.len() && (#[trigger] s[i]).id@ == id && tunnel_has_secrets(s[i]),
        tunnels_secrets(s).contains_key(id) ==> exists|i: int|
            0 <= i < s.len() && (#[trigger] s[i]).id@ == id && tunnels_secrets(s)[id]
                == tunnel_secrets(s[i]),
    decreases s.len(),
{
    if s.len() > 0 {
        let init = s.drop_last();
        let last = s.last();
        lemma_tunnels_secrets(init, id);
        let by_last = tunnel_has_secrets(last) && last.id@ == id;
        if by_last {
            assert(s[s.len() - 1].id@ == id);
        } else if tunnels_secrets(init).contains_key(id) {
            let i = choose|i: int|
                0 <= i < init.len() && (#[trigger] init[i]).id@ == id
                    && tunnel_has_secrets(init[i]);
            assert(s[i] == init[i]);
            let j = choose|j: int|
                0 <= j < init.len() && (#[trigger] init[j]).id@ == id && tunnels_secrets(init)[id]
                    == tunnel_secrets(init[j]);
            assert(s[j] == init[j]);
        }
        if exists|i: int|
            0 <= i < s.len() && (#[trigger] s[i]).id@ == id && tunnel_has_secrets(s[i]) {
            let i = choose|i: int|
                0 <= i < s.len() && (#[trigger] s[i]).id@ == id && tunnel_has_secrets(s[i]);
            if i < init.len() {
                assert(init[i] == s[i]);
            }
        }
    }
}

/// Splitting a configuration and putting it together again gives the
/// configuration back: the secrets that were extracted, merged into the
/// configuration that was stripped, restore it. Tunnels that share an
/// identifier, and routers that share an interface, must have the same secrets,
/// since the secrets file keeps one set for each.
pub proof fn lemma_split_and_merge(c: AppConfig, x: SecretsConfig, s: AppConfig, m: AppConfig)
    requires
        tunnel_ids_agree(c.tunnels@),
        uplink_interfaces_agree(c.cellular_uplinks@),
        is_extracted(c, x),
        is_stripped(c, s),
        is_merged(x, s, m),
    ensures
        same_config(m, c),
{
    assert forall|i: int| 0 <= i < c.cellular_uplinks@.len() implies m.cellular_uplinks@[i]
        == c.cellular_uplinks@[i] by {
        let u = c.cellular_uplinks@[i];
        lemma_uplink_passwords(c.cellular_uplinks@, u.interface@);
        assert(s.cellular_uplinks@[i] == stripped_uplink(u));
        if x.cellular_passwords@.contains_key(u.interface@) {
            let j = choose|j: int|
                0 <= j < c.cellular_uplinks@.len() && (
                #[trigger] c.cellular_uplinks@[j]).interface@ == u.interface@
                    && c.cellular_uplinks@[j].password == Some(
                    uplink_passwords(c.cellular_uplinks@)[u.interface@],
                );
            assert(c.cellular_uplinks@[j].password == u.password);
        } else {
            assert(u.password is None);
        }
    }
    assert(m.cellular_uplinks@ =~= c.cellular_uplinks@);
    assert forall|i: int| 0 <= i < c.tunnels@.len() implies m.tunnels@[i] == c.tunnels@[i] by {
        let t = c.tunnels@[i];
        lemma_tunnels_secrets(c.tunnels@, t.id@);
        assert(s.tunnels@[i] == stripped_tunnel(t));
        if x.tunnels@.contains_key(t.id@) {
            let j = choose|j: int|
                0 <= j < c.tunnels@.len() && (#[trigger] c.tunnels@[j]).id@ == t.id@
                    && tunnels_secrets(c.tunnels@)[t.id@] == tunnel_secrets(c.tunnels@[j]);
            assert(tunnel_secrets(c.tunnels@[j]) == tunnel_secrets(t));
        } else {
            assert(!tunnel_has_secrets(t));
        }
    }
    assert(m.tunnels@ =~= c.tunnels@);
    assert forall|i: int| 0 <= i < c.inputs@.len() implies m.inputs@[i] == c.inputs@[i] by {
        assert(restored_input(x.flows.items(), 0, s.inputs@[i]) == s.inputs@[i]);
    }
    assert(m.inputs@ =~= c.inputs@);
    assert forall|i: int| 0 <= i < c.outputs@.len() implies m.outputs@[i] == c.outputs@[i] by {
        assert(restored_output(x.flows.items(), 0, s.outputs@[i]) == s.outputs@[i]);
    }
    assert(m.outputs@ =~= c.outputs@);
}

/// A stripped configuration holds no secrets.
pub proof fn lemma_stripped_holds_none(c: AppConfig, s: AppConfig)
    requires
        is_stripped(c, s),
    ensures
        !holds_secrets(s),
{
}

/// Stripping keeps the inputs, the outputs, the flows and everything else that
/// is not a secret; doing it again changes nothing.
pub proof fn lemma_strip_keeps_the_rest(c: AppConfig, s: AppConfig, again: AppConfig)
    requires
        is_stripped(c, s),
        is_stripped(s, again),
    ensures
        s.inputs == c.inputs,
        s.outputs == c.outputs,
        s.flows == c.flows,
        same_config(again, s),
{
    assert forall|i: int| 0 <= i < s.cellular_uplinks@.len() implies again.cellular_uplinks@[i]
        == s.cellular_uplinks@[i] by {
        assert(s.cellular_uplinks@[i] == stripped_uplink(c.cellular_uplinks@[i]));
    }
    assert(again.cellular_uplinks@ =~= s.cellular_uplinks@);
    assert forall|i: int| 0 <= i < s.tunnels@.len() implies again.tunnels@[i] == s.tunnels@[i] by {
        assert(s.tunnels@[i] == stripped_tunnel(c.tunnels@[i]));
    }
    assert(again.tunnels@ =~= s.tunnels@);
}

/// A configuration holds secrets exactly when there is something to extract.
pub proof fn lemma_extraction_is_complete(c: AppConfig, x: SecretsConfig)
    requires
        is_extracted(c, x),
    ensures
        holds_secrets(c) <==> !x.spec_is_empty(),
{
    if exists|i: int|
        0 <= i < c.cellular_uplinks@.len() && (#[trigger] c.cellular_uplinks@[i]).password is Some {
        let i = choose|i: int|
            0 <= i < c.cellular_uplinks@.len() && (
            #[trigger] c.cellular_uplinks@[i]).password is Some;
        lemma_uplink_passwords(c.cellular_uplinks@, c.cellular_uplinks@[i].interface@);
        assert(x.cellular_passwords@.contains_key(c.cellular_uplinks@[i].interface@));
    } else {
        assert forall|at: Seq<char>| !x.cellular_passwords@.contains_key(at) by {
            lemma_uplink_passwords(c.cellular_uplinks@, at);
        }
        assert(x.cellular_passwords@ =~= Map::<Seq<char>, String>::empty());
    }
    if exists|i: int| 0 <= i < c.tunnels@.len() && tunnel_has_secrets(#[trigger] c.tunnels@[i]) {
        let i = choose|i: int|
            0 <= i < c.tunnels@.len() && tunnel_has_secrets(#[trigger] c.tunnels@[i]);
        lemma_tunnels_secrets(c.tunnels@, c.tunnels@[i].id@);
        assert(x.tunnels@.contains_key(c.tunnels@[i].id@));
    } else {
        assert forall|id: Seq<char>| !x.tunnels@.contains_key(id) by {
            lemma_tunnels_secrets(c.tunnels@, id);
        }
        assert(x.tunnels@ =~= Map::<Seq<char>, TunnelSecrets>::empty());
    }
}

/// Merging never replaces a secret that the configuration holds.
pub proof fn lemma_merge_keeps_what_is_there(x: SecretsConfig, c: AppConfig, m: AppConfig)
    requires
        is_merged(x, c, m),
    ensures
        m.manager is Some <==> c.manager is Some,
        c.manager is Some && c.manager->0.node_secret is Some ==> m.manager->0.node_secret
            == c.manager->0.node_secret,
        c.manager is Some && c.manager->0.registration_token is Some
            ==> m.manager->0.registration_token == c.manager->0.registration_token,
        c.server.tls is Some ==> m.server.tls == c.server.tls,
        c.server.auth is Some ==> m.server.auth == c.server.auth,
        c.setup_token is Some ==> m.setup_token == c.setup_token,
        nmos_token(c.nmos_registration) is Some ==> m.nmos_registration == c.nmos_registration,
        forall|i: int|
            0 <= i < c.cellular_uplinks@.len() && c.cellular_uplinks@[i].password is Some
                ==> #[trigger] m.cellular_uplinks@[i] == c.cellular_uplinks@[i],
        forall|i: int|
            0 <= i < c.tunnels@.len() ==> {
                let (before, after) = (c.tunnels@[i], #[trigger] m.tunnels@[i]);
                &&& before.tunnel_encryption_key is Some ==> after.tunnel_encryption_key
                    == before.tunnel_encryption_key
                &&& before.tunnel_bind_secret is Some ==> after.tunnel_bind_secret
                    == before.tunnel_bind_secret
                &&& before.tunnel_psk is Some ==> after.tunnel_psk == before.tunnel_psk
                &&& before.tls_cert_pem is Some ==> after.tls_cert_pem == before.tls_cert_pem
                &&& before.tls_key_pem is Some ==> after.tls_key_pem == before.tls_key_pem
            },
{
}

/// Parameters that an input was given once change nothing when they are given
/// again, whatever else it was given in between.
proof fn lemma_input_settles(is: InputSecrets, between: InputSecrets, input: InputConfig)
    ensures
        merged_input(is, merged_input(is, input)) == merged_input(is, input),
        merged_input(is, input) == input ==> merged_input(is, merged_input(between, input))
            == merged_input(between, input),
{
}

/// Parameters that an output was given once change nothing when they are given
/// again, whatever else it was given in between.
proof fn lemma_output_settles(os: OutputSecrets, between: OutputSecrets, output: OutputConfig)
    ensures
        merged_output(os, output).spec_id() == output.spec_id(),
        merged_output(os, merged_output(os, output)) == merged_output(os, output),
        merged_output(os, output) == output ==> merged_output(os, merged_output(between, output))
            == merged_output(between, output),
{
}

/// After the first `n` flows' parameters were put back, those of each of them
/// change nothing.
proof fn lemma_restored_input_settles(
    flows: Seq<(String, FlowSecrets)>,
    n: int,
    def: InputDefinition,
    k: int,
)
    requires
        0 <= k < n <= flows.len(),
        flows[k].1.input is Some,
    ensures
        merged_input(flows[k].1.input->0, restored_input(flows, n, def).config) == restored_input(
            flows,
            n,
            def,
        ).config,
    decreases n,
{
    let d = restored_input(flows, n - 1, def);
    let is = flows[k].1.input->0;
    if k < n - 1 {
        lemma_restored_input_settles(flows, n - 1, def, k);
    }
    if flows[n - 1].1.input is Some {
        lemma_input_settles(is, flows[n - 1].1.input->0, d.config);
    }
}

proof fn lemma_restored_input_again(
    flows: Seq<(String, FlowSecrets)>,
    n: int,
    def: InputDefinition,
)
    requires
        0 <= n <= flows.len(),
    ensures
        ({
            let done = restored_input(flows, flows.len() as int, def);
            restored_input(flows, n, done) == done
        }),
    decreases n,
{
    if n > 0 {
        lemma_restored_input_again(flows, n - 1, def);
        if flows[n - 1].1.input is Some {
            lemma_restored_input_settles(flows, flows.len() as int, def, n - 1);
        }
    }
}

proof fn lemma_restored_output_settles(
    flows: Seq<(String, FlowSecrets)>,
    n: int,
    output: OutputConfig,
    k: int,
)
    requires
        0 <= k < n <= flows.len(),
        flows[k].1.outputs@.contains_key(output.spec_id()),
    ensures
        restored_output(flows, n, output).spec_id() == output.spec_id(),
        merged_output(
            flows[k].1.outputs@[output.spec_id()],
            restored_output(flows, n, output),
        ) == restored_output(flows, n, output),
    decreases n,
{
    let id = output.spec_id();
    let o = restored_output(flows, n - 1, output);
    let os = flows[k].1.outputs@[id];
    lemma_restored_output_id(flows, n - 1, output);
    if k < n - 1 {
        lemma_restored_output_settles(flows, n - 1, output, k);
    }
    if flows[n - 1].1.outputs@.contains_key(id) {
        lemma_output_settles(os, flows[n - 1].1.outputs@[id], o);
        lemma_output_settles(flows[n - 1].1.outputs@[id], os, o);
    }
}

proof fn lemma_restored_output_id(flows: Seq<(String, FlowSecrets)>, n: int, output: OutputConfig)
    requires
        n <= flows.len(),
    ensures
        restored_output(flows, n, output).spec_id() == output.spec_id(),
    decreases n,
{
    if n > 0 {
        lemma_restored_output_id(flows, n - 1, output);
        let o = restored_output(flows, n - 1, output);
        if flows[n - 1].1.outputs@.contains_key(o.spec_id()) {
            let os = flows[n - 1].1.outputs@[o.spec_id()];
            lemma_output_settles(os, os, o);
        }
    }
}

proof fn lemma_restored_output_again(
    flows: Seq<(String, FlowSecrets)>,
    n: int,
    output: OutputConfig,
)
    requires
        0 <= n <= flows.len(),
    ensures
        ({
            let done = restored_output(flows, flows.len() as int, output);
            restored_output(flows, n, done) == done
        }),
    decreases n,
{
    if n > 0 {
        lemma_restored_output_again(flows, n - 1, output);
        lemma_restored_output_id(flows, flows.len() as int, output);
        if flows[n - 1].1.outputs@.contains_key(output.spec_id()) {
            lemma_restored_output_settles(flows, flows.len() as int, output, n - 1);
        }
    }
}

/// Merging the same secrets a second time changes nothing.
pub proof fn lemma_merge_once(x: SecretsConfig, c: AppConfig, m: AppConfig, again: AppConfig)
    requires
        is_merged(x, c, m),
        is_merged(x, m, again),
    ensures
        same_config(again, m),
{
    assert forall|i: int| 0 <= i < m.cellular_uplinks@.len() implies again.cellular_uplinks@[i]
        == m.cellular_uplinks@[i] by {
        assert(m.cellular_uplinks@[i] == merged_uplink(
            c.cellular_uplinks@[i],
            x.cellular_passwords@,
        ));
    }
    assert(again.cellular_uplinks@ =~= m.cellular_uplinks@);
    assert forall|i: int| 0 <= i < m.tunnels@.len() implies again.tunnels@[i] == m.tunnels@[i] by {
        assert(m.tunnels@[i] == merged_tunnel(c.tunnels@[i], x.tunnels@));
    }
    assert(again.tunnels@ =~= m.tunnels@);
    let flows = x.flows.items();
    assert forall|i: int| 0 <= i < m.inputs@.len() implies again.inputs@[i] == m.inputs@[i] by {
        lemma_restored_input_again(flows, flows.len() as int, c.inputs@[i]);
    }
    assert(again.inputs@ =~= m.inputs@);
    assert forall|i: int| 0 <= i < m.outputs@.len() implies again.outputs@[i] == m.outputs@[i] by {
        lemma_restored_output_again(flows, flows.len() as int, c.outputs@[i]);
    }
    assert(again.outputs@ =~= m.outputs@);
}

// ---------------------------------------------------------------------------
// Laws, field by field
// ---------------------------------------------------------------------------

/// After the secrets were removed, none is left: not in the manager settings, the
/// server settings, the NMOS registration, a cellular router or a tunnel.
pub proof fn lemma_strip_leaves_no_secret(c: AppConfig, s: AppConfig)
    requires
        is_stripped(c, s),
    ensures
        s.manager is Some ==> s.manager->0.node_secret is None,
        s.manager is Some ==> s.manager->0.registration_token is None,
        s.server.tls is None,
        s.server.auth is None,
        s.setup_token is None,
        s.nmos_registration is Some ==> s.nmos_registration->0.bearer_token is None,
        forall|i: int|
            0 <= i < s.cellular_uplinks@.len() ==> (
            #[trigger] s.cellular_uplinks@[i]).password is None,
        forall|i: int|
            0 <= i < s.tunnels@.len() ==> {
                let t = #[trigger] s.tunnels@[i];
                &&& t.tunnel_encryption_key is None
                &&& t.tunnel_bind_secret is None
                &&& t.tunnel_psk is None
                &&& t.tls_cert_pem is None
                &&& t.tls_key_pem is None
            },
{
}

/// Removing the secrets keeps every other setting.
pub proof fn lemma_strip_keeps_every_other_setting(c: AppConfig, s: AppConfig)
    requires
        is_stripped(c, s),
    ensures
        s.version == c.version,
        s.node_id == c.node_id,
        s.monitor == c.monitor,
        s.device_name == c.device_name,
        s.setup_enabled == c.setup_enabled,
        s.inputs == c.inputs,
        s.outputs == c.outputs,
        s.flows == c.flows,
        s.resource_limits == c.resource_limits,
        s.bond_uplinks == c.bond_uplinks,
        s.shared_leg_broker == c.shared_leg_broker,
        s.logging == c.logging,
        s.flow_groups == c.flow_groups,
        s.upgrades == c.upgrades,
        s.starlink_uplinks == c.starlink_uplinks,
        s.manager is Some <==> c.manager is Some,
        c.manager is Some ==> {
            let (before, after) = (c.manager->0, s.manager->0);
            &&& after.enabled == before.enabled
            &&& after.url == before.url
            &&& after.accept_self_signed_cert == before.accept_self_signed_cert
            &&& after.cert_fingerprint == before.cert_fingerprint
            &&& after.node_id == before.node_id
        },
        s.server.listen_addr == c.server.listen_addr,
        s.server.listen_port == c.server.listen_port,
        s.server.listen_addrs == c.server.listen_addrs,
        s.nmos_registration is Some <==> c.nmos_registration is Some,
        c.nmos_registration is Some ==> {
            let (before, after) = (c.nmos_registration->0, s.nmos_registration->0);
            &&& after.enabled == before.enabled
            &&& after.registry_url == before.registry_url
            &&& after.api_version == before.api_version
            &&& after.heartbeat_interval_secs == before.heartbeat_interval_secs
            &&& after.request_timeout_secs == before.request_timeout_secs
        },
        s.cellular_uplinks@.len() == c.cellular_uplinks@.len(),
        forall|i: int|
            0 <= i < c.cellular_uplinks@.len() ==> {
                let (before, after) = (c.cellular_uplinks@[i], #[trigger] s.cellular_uplinks@[i]);
                &&& after.interface == before.interface
                &&& after.kind == before.kind
                &&& after.scheme == before.scheme
                &&& after.address == before.address
                &&& after.api == before.api
                &&& after.username == before.username
                &&& after.verify_tls == before.verify_tls
                &&& after.cert_fingerprint == before.cert_fingerprint
            },
        s.tunnels@.len() == c.tunnels@.len(),
        forall|i: int|
            0 <= i < c.tunnels@.len() ==> {
                let (before, after) = (c.tunnels@[i], #[trigger] s.tunnels@[i]);
                &&& after.id == before.id
                &&& after.name == before.name
                &&& after.enabled == before.enabled
                &&& after.protocol == before.protocol
                &&& after.mode == before.mode
                &&& after.direction == before.direction
                &&& after.local_addr == before.local_addr
                &&& after.relay_addrs == before.relay_addrs
                &&& after.relay_addr == before.relay_addr
                &&& after.max_rtt_failback_increase_ms == before.max_rtt_failback_increase_ms
                &&& after.peer_addr == before.peer_addr
                &&& after.direct_listen_addr == before.direct_listen_addr
            },
{
}

/// A configuration holds secrets exactly when one of these is set: the node's
/// secret or registration token, the server's TLS or authentication settings, the
/// setup token, the token for the NMOS registry, the password of a cellular router,
/// or a key, secret or certificate of a tunnel.
pub proof fn lemma_every_secret_is_detected(c: AppConfig)
    ensures
        c.manager is Some && c.manager->0.node_secret is Some ==> holds_secrets(c),
        c.manager is Some && c.manager->0.registration_token is Some ==> holds_secrets(c),
        c.server.tls is Some ==> holds_secrets(c),
        c.server.auth is Some ==> holds_secrets(c),
        c.setup_token is Some ==> holds_secrets(c),
        c.nmos_registration is Some && c.nmos_registration->0.bearer_token is Some
            ==> holds_secrets(c),
        forall|i: int|
            0 <= i < c.cellular_uplinks@.len() && (
            #[trigger] c.cellular_uplinks@[i]).password is Some ==> holds_secrets(c),
        forall|i: int|
            0 <= i < c.tunnels@.len() && (#[trigger] c.tunnels@[i]).tunnel_encryption_key is Some
                ==> holds_secrets(c),
        forall|i: int|
            0 <= i < c.tunnels@.len() && (#[trigger] c.tunnels@[i]).tunnel_bind_secret is Some
                ==> holds_secrets(c),
        forall|i: int|
            0 <= i < c.tunnels@.len() && (#[trigger] c.tunnels@[i]).tunnel_psk is Some
                ==> holds_secrets(c),
        forall|i: int|
            0 <= i < c.tunnels@.len() && (#[trigger] c.tunnels@[i]).tls_cert_pem is Some
                ==> holds_secrets(c),
        forall|i: int|
            0 <= i < c.tunnels@.len() && (#[trigger] c.tunnels@[i]).tls_key_pem is Some
                ==> holds_secrets(c),
        (c.manager is Some ==> c.manager->0.node_secret is None
            && c.manager->0.registration_token is None) && c.server.tls is None
            && c.server.auth is None && c.setup_token is None && (c.nmos_registration is Some
            ==> c.nmos_registration->0.bearer_token is None) && (forall|i: int|
            0 <= i < c.cellular_uplinks@.len() ==> (
            #[trigger] c.cellular_uplinks@[i]).password is None) && (forall|i: int|
            0 <= i < c.tunnels@.len() ==> {
                let t = #[trigger] c.tunnels@[i];
                &&& t.tunnel_encryption_key is None
                &&& t.tunnel_bind_secret is None
                &&& t.tunnel_psk is None
                &&& t.tls_cert_pem is None
                &&& t.tls_key_pem is None
            }) ==> !holds_secrets(c),
{
    assert forall|i: int| 0 <= i < c.tunnels@.len() && ({
        let t = #[trigger] c.tunnels@[i];
        ||| t.tunnel_encryption_key is Some
        ||| t.tunnel_bind_secret is Some
        ||| t.tunnel_psk is Some
        ||| t.tls_cert_pem is Some
        ||| t.tls_key_pem is Some
    }) implies holds_secrets(c) by {
        assert(tunnel_has_secrets(c.tunnels@[i]));
    }
}

/// The secrets that are extracted are the ones of the configuration, each under its
/// own name; nothing is extracted of inputs and outputs.
pub proof fn lemma_extraction_takes_each_secret(c: AppConfig, x: SecretsConfig)
    requires
        is_extracted(c, x),
    ensures
        c.manager is Some ==> x.manager_node_secret == c.manager->0.node_secret,
        c.manager is Some ==> x.manager_registration_token == c.manager->0.registration_token,
        c.manager is None ==> x.manager_node_secret is None
            && x.manager_registration_token is None,
        x.server_tls == c.server.tls,
        x.server_auth is Some <==> c.server.auth is Some,
        c.server.auth is Some ==> x.server_auth->0.enabled == c.server.auth->0.enabled
            && x.server_auth->0.jwt_secret == c.server.auth->0.jwt_secret
            && x.server_auth->0.token_lifetime_secs == c.server.auth->0.token_lifetime_secs
            && x.server_auth->0.clients@ == c.server.auth->0.clients@
            && x.server_auth->0.nmos_require_auth == c.server.auth->0.nmos_require_auth,
        x.setup_token == c.setup_token,
        c.nmos_registration is Some ==> x.nmos_bearer_token
            == c.nmos_registration->0.bearer_token,
        c.nmos_registration is None ==> x.nmos_bearer_token is None,
        x.flows.items().len() == 0,
        x.version == 1,
{
}

/// The secrets of a tunnel are extracted under its identifier, where no other
/// tunnel has it; a tunnel without secrets leaves nothing.
pub proof fn lemma_extraction_takes_tunnel_secrets(c: AppConfig, x: SecretsConfig, i: int)
    requires
        is_extracted(c, x),
        0 <= i < c.tunnels@.len(),
        forall|j: int|
            0 <= j < c.tunnels@.len() && j != i ==> (#[trigger] c.tunnels@[j]).id@
                != c.tunnels@[i].id@,
    ensures
        ({
            let (t, id) = (c.tunnels@[i], c.tunnels@[i].id@);
            &&& x.tunnels@.contains_key(id) <==> t.tunnel_encryption_key is Some
                || t.tunnel_bind_secret is Some || t.tunnel_psk is Some || t.tls_cert_pem is Some
                || t.tls_key_pem is Some
            &&& x.tunnels@.contains_key(id)
                ==> x.tunnels@[id].tunnel_encryption_key == t.tunnel_encryption_key
            &&& x.tunnels@.contains_key(id)
                ==> x.tunnels@[id].tunnel_bind_secret == t.tunnel_bind_secret
            &&& x.tunnels@.contains_key(id) ==> x.tunnels@[id].tunnel_psk == t.tunnel_psk
            &&& x.tunnels@.contains_key(id) ==> x.tunnels@[id].tls_cert_pem == t.tls_cert_pem
            &&& x.tunnels@.contains_key(id) ==> x.tunnels@[id].tls_key_pem == t.tls_key_pem
        }),
{
    let id = c.tunnels@[i].id@;
    lemma_tunnels_secrets(c.tunnels@, id);
    if tunnel_has_secrets(c.tunnels@[i]) {
        assert(c.tunnels@[i].id@ == id);
    }
}

/// The password of a cellular router is extracted under its interface, where no
/// other router is on it.
pub proof fn lemma_extraction_takes_passwords(c: AppConfig, x: SecretsConfig, i: int)
    requires
        is_extracted(c, x),
        0 <= i < c.cellular_uplinks@.len(),
        forall|j: int|
            0 <= j < c.cellular_uplinks@.len() && j != i ==> (
            #[trigger] c.cellular_uplinks@[j]).interface@ != c.cellular_uplinks@[i].interface@,
    ensures
        ({
            let (u, at) = (c.cellular_uplinks@[i], c.cellular_uplinks@[i].interface@);
            &&& x.cellular_passwords@.contains_key(at) <==> u.password is Some
            &&& u.password is Some ==> u.password == Some(x.cellular_passwords@[at])
        }),
{
    lemma_uplink_passwords(c.cellular_uplinks@, c.cellular_uplinks@[i].interface@);
}

/// Putting the secrets back fills each setting that is missing with the secret of
/// the same name, and nothing else.
pub proof fn lemma_merge_fills_each_secret(x: SecretsConfig, c: AppConfig, m: AppConfig)
    requires
        is_merged(x, c, m),
    ensures
        m.manager is Some <==> c.manager is Some,
        c.manager is Some && c.manager->0.node_secret is None ==> m.manager->0.node_secret
            == x.manager_node_secret,
        c.manager is Some && c.manager->0.registration_token is None
            ==> m.manager->0.registration_token == x.manager_registration_token,
        c.manager is Some ==> {
            let (before, after) = (c.manager->0, m.manager->0);
            &&& after.enabled == before.enabled
            &&& after.url == before.url
            &&& after.accept_self_signed_cert == before.accept_self_signed_cert
            &&& after.cert_fingerprint == before.cert_fingerprint
            &&& after.node_id == before.node_id
        },
        c.server.tls is None ==> m.server.tls == x.server_tls,
        c.server.auth is None ==> (m.server.auth is Some <==> x.server_auth is Some),
        c.server.auth is None && x.server_auth is Some ==> m.server.auth->0.enabled
            == x.server_auth->0.enabled && m.server.auth->0.jwt_secret
            == x.server_auth->0.jwt_secret && m.server.auth->0.token_lifetime_secs
            == x.server_auth->0.token_lifetime_secs && m.server.auth->0.clients@
            == x.server_auth->0.clients@ && m.server.auth->0.nmos_require_auth
            == x.server_auth->0.nmos_require_auth,
        m.server.listen_addr == c.server.listen_addr,
        m.server.listen_port == c.server.listen_port,
        m.server.listen_addrs == c.server.listen_addrs,
        c.setup_token is None ==> m.setup_token == x.setup_token,
        m.nmos_registration is Some <==> c.nmos_registration is Some,
        c.nmos_registration is Some && c.nmos_registration->0.bearer_token is None
            ==> m.nmos_registration->0.bearer_token == x.nmos_bearer_token,
        c.nmos_registration is Some ==> {
            let (before, after) = (c.nmos_registration->0, m.nmos_registration->0);
            &&& after.enabled == before.enabled
            &&& after.registry_url == before.registry_url
            &&& after.api_version == before.api_version
            &&& after.heartbeat_interval_secs == before.heartbeat_interval_secs
            &&& after.request_timeout_secs == before.request_timeout_secs
        },
        m.cellular_uplinks@.len() == c.cellular_uplinks@.len(),
        forall|i: int|
            0 <= i < c.cellular_uplinks@.len() ==> {
                let (before, after) = (c.cellular_uplinks@[i], #[trigger] m.cellular_uplinks@[i]);
                &&& before.password is None && x.cellular_passwords@.contains_key(before.interface@)
                    ==> after.password == Some(x.cellular_passwords@[before.interface@])
                &&& before.password is None && !x.cellular_passwords@.contains_key(
                    before.interface@,
                ) ==> after.password is None
                &&& after.interface == before.interface
                &&& after.kind == before.kind
                &&& after.scheme == before.scheme
                &&& after.address == before.address
                &&& after.api == before.api
                &&& after.username == before.username
                &&& after.verify_tls == before.verify_tls
                &&& after.cert_fingerprint == before.cert_fingerprint
            },
        m.tunnels@.len() == c.tunnels@.len(),
        forall|i: int|
            0 <= i < c.tunnels@.len() ==> {
                let (before, after) = (c.tunnels@[i], #[trigger] m.tunnels@[i]);
                &&& x.tunnels@.contains_key(before.id@) && before.tunnel_encryption_key is None
                    ==> after.tunnel_encryption_key == x.tunnels@[before.id@].tunnel_encryption_key
                &&& x.tunnels@.contains_key(before.id@) && before.tunnel_bind_secret is None
                    ==> after.tunnel_bind_secret == x.tunnels@[before.id@].tunnel_bind_secret
                &&& x.tunnels@.contains_key(before.id@) && before.tunnel_psk is None
                    ==> after.tunnel_psk == x.tunnels@[before.id@].tunnel_psk
                &&& x.tunnels@.contains_key(before.id@) && before.tls_cert_pem is None
                    ==> after.tls_cert_pem == x.tunnels@[before.id@].tls_cert_pem
                &&& x.tunnels@.contains_key(before.id@) && before.tls_key_pem is None
                    ==> after.tls_key_pem == x.tunnels@[before.id@].tls_key_pem
                &&& !x.tunnels@.contains_key(before.id@) ==> after == before
                &&& after.id == before.id
                &&& after.name == before.name
                &&& after.enabled == before.enabled
                &&& after.protocol == before.protocol
                &&& after.mode == before.mode
                &&& after.direction == before.direction
                &&& after.local_addr == before.local_addr
                &&& after.relay_addrs == before.relay_addrs
                &&& after.relay_addr == before.relay_addr
                &&& after.max_rtt_failback_increase_ms == before.max_rtt_failback_increase_ms
                &&& after.peer_addr == before.peer_addr
                &&& after.direct_listen_addr == before.direct_listen_addr
            },
        m.version == c.version,
        m.node_id == c.node_id,
        m.monitor == c.monitor,
        m.device_name == c.device_name,
        m.setup_enabled == c.setup_enabled,
        m.flows == c.flows,
        m.resource_limits == c.resource_limits,
        m.bond_uplinks == c.bond_uplinks,
        m.shared_leg_broker == c.shared_leg_broker,
        m.logging == c.logging,
        m.flow_groups == c.flow_groups,
        m.upgrades == c.upgrades,
        m.starlink_uplinks == c.starlink_uplinks,
        m.inputs@.len() == c.inputs@.len(),
        m.outputs@.len() == c.outputs@.len(),
        x.flows.items().len() == 0 ==> m.inputs@ == c.inputs@ && m.outputs@ == c.outputs@,
{
    if x.flows.items().len() == 0 {
        assert(m.inputs@ =~= c.inputs@);
        assert(m.outputs@ =~= c.outputs@);
    }
}

/// An input gets the parameters that belong to its kind, where it lacks them, and
/// keeps everything else.
pub proof fn lemma_input_gets_what_it_lacks(is: InputSecrets, input: InputConfig)
    ensures
        match (input, merged_input(is, input)) {
            (InputConfig::Srt(before), InputConfig::Srt(after)) => {
                &&& before.passphrase is Some ==> after.passphrase == before.passphrase
                &&& before.passphrase is None ==> after.passphrase == is.passphrase
                &&& after.redundancy is Some <==> before.redundancy is Some
                &&& before.redundancy is Some && before.redundancy->0.passphrase is Some
                    ==> after.redundancy == before.redundancy
                &&& before.redundancy is Some && before.redundancy->0.passphrase is None
                    ==> after.redundancy->0.passphrase == is.redundancy_passphrase
                &&& before.redundancy is Some ==> after.redundancy->0 == SrtRedundancyConfig {
                    passphrase: after.redundancy->0.passphrase,
                    ..before.redundancy->0
                }
                &&& after == SrtInputConfig {
                    passphrase: after.passphrase,
                    redundancy: after.redundancy,
                    ..before
                }
            },
            (InputConfig::Rtmp(before), InputConfig::Rtmp(after)) => {
                &&& before.stream_key is Some ==> after.stream_key == before.stream_key
                &&& before.stream_key is None ==> after.stream_key == is.stream_key
                &&& after == RtmpInputConfig { stream_key: after.stream_key, ..before }
            },
            (InputConfig::Rtsp(before), InputConfig::Rtsp(after)) => {
                &&& before.username is Some ==> after.username == before.username
                &&& before.username is None ==> after.username == is.username
                &&& before.password is Some ==> after.password == before.password
                &&& before.password is None ==> after.password == is.password
                &&& after == RtspInputConfig {
                    username: after.username,
                    password: after.password,
                    ..before
                }
            },
            (InputConfig::Webrtc(before), InputConfig::Webrtc(after)) => {
                &&& before.bearer_token is Some ==> after.bearer_token == before.bearer_token
                &&& before.bearer_token is None ==> after.bearer_token == is.bearer_token
                &&& after == WebrtcInputConfig { bearer_token: after.bearer_token, ..before }
            },
            (InputConfig::Whep(before), InputConfig::Whep(after)) => {
                &&& before.bearer_token is Some ==> after.bearer_token == before.bearer_token
                &&& before.bearer_token is None ==> after.bearer_token == is.bearer_token
                &&& after == WhepInputConfig { bearer_token: after.bearer_token, ..before }
            },
            (before, after) => {
                &&& !(before is Srt || before is Rtmp || before is Rtsp || before is Webrtc
                    || before is Whep)
                &&& after == before
            },
        },
{
}

/// An output gets the parameters that belong to its kind, where it lacks them, and
/// keeps everything else. An RTMP output lacks its stream key where that is empty.
pub proof fn lemma_output_gets_what_it_lacks(os: OutputSecrets, output: OutputConfig)
    ensures
        match (output, merged_output(os, output)) {
            (OutputConfig::Srt(before), OutputConfig::Srt(after)) => {
                &&& before.passphrase is Some ==> after.passphrase == before.passphrase
                &&& before.passphrase is None ==> after.passphrase == os.passphrase
                &&& after.redundancy is Some <==> before.redundancy is Some
                &&& before.redundancy is Some && before.redundancy->0.passphrase is Some
                    ==> after.redundancy == before.redundancy
                &&& before.redundancy is Some && before.redundancy->0.passphrase is None
                    ==> after.redundancy->0.passphrase == os.redundancy_passphrase
                &&& before.redundancy is Some ==> after.redundancy->0 == SrtRedundancyConfig {
                    passphrase: after.redundancy->0.passphrase,
                    ..before.redundancy->0
                }
                &&& after == SrtOutputConfig {
                    passphrase: after.passphrase,
                    redundancy: after.redundancy,
                    ..before
                }
            },
            (OutputConfig::Rtmp(before), OutputConfig::Rtmp(after)) => {
                &&& before.stream_key@.len() > 0 ==> after.stream_key == before.stream_key
                &&& before.stream_key@.len() == 0 && os.stream_key is Some
                    && os.stream_key->0@.len() > 0 ==> after.stream_key == os.stream_key->0
                &&& os.stream_key is None ==> after.stream_key == before.stream_key
                &&& after == RtmpOutputConfig { stream_key: after.stream_key, ..before }
            },
            (OutputConfig::Hls(before), OutputConfig::Hls(after)) => {
                &&& before.auth_token is Some ==> after.auth_token == before.auth_token
                &&& before.auth_token is None ==> after.auth_token == os.auth_token
                &&& after == HlsOutputConfig { auth_token: after.auth_token, ..before }
            },
            (OutputConfig::Cmaf(before), OutputConfig::Cmaf(after)) => {
                &&& before.auth_token is Some ==> after.auth_token == before.auth_token
                &&& before.auth_token is None ==> after.auth_token == os.auth_token
                &&& after == CmafOutputConfig { auth_token: after.auth_token, ..before }
            },
            (OutputConfig::Webrtc(before), OutputConfig::Webrtc(after)) => {
                &&& before.bearer_token is Some ==> after.bearer_token == before.bearer_token
                &&& before.bearer_token is None ==> after.bearer_token == os.bearer_token
                &&& after == WebrtcOutputConfig { bearer_token: after.bearer_token, ..before }
            },
            (before, after) => {
                &&& !(before is Srt || before is Rtmp || before is Hls || before is Cmaf
                    || before is Webrtc)
                &&& after == before
            },
        },
{
}

/// What the secrets file held of one flow goes to every input, and to the outputs
/// that it names.
pub proof fn lemma_merge_restores_one_flow(
    x: SecretsConfig,
    c: AppConfig,
    m: AppConfig,
    fs: FlowSecrets,
)
    requires
        is_merged(x, c, m),
        x.flows.items().len() == 1,
        x.flows.items()[0].1 == fs,
    ensures
        forall|i: int|
            0 <= i < c.inputs@.len() ==> {
                let (before, after) = (c.inputs@[i], #[trigger] m.inputs@[i]);
                &&& after.config == if fs.input is Some {
                    merged_input(fs.input->0, before.config)
                } else {
                    before.config
                }
                &&& after == InputDefinition { config: after.config, ..before }
            },
        forall|i: int|
            0 <= i < c.outputs@.len() ==> {
                let (before, after) = (c.outputs@[i], #[trigger] m.outputs@[i]);
                after == if fs.outputs@.contains_key(before.spec_id()) {
                    merged_output(fs.outputs@[before.spec_id()], before)
                } else {
                    before
                }
            },
{
    reveal_with_fuel(restored_input, 2);
    reveal_with_fuel(restored_output, 2);
    let flows = x.flows.items();
    assert forall|i: int| 0 <= i < c.inputs@.len() implies #[trigger] m.inputs@[i]
        == restored_input(flows, 1, c.inputs@[i]) by {}
    assert forall|i: int| 0 <= i < c.outputs@.len() implies #[trigger] m.outputs@[i]
        == restored_output(flows, 1, c.outputs@[i]) by {}
}

/// The test for secrets says that there are some exactly when one of the settings that
/// hold secrets is set.
pub proof fn lemma_test_for_secrets(c: &AppConfig, r: bool)
    requires
        call_ensures(has_secrets, (c,), r),
    ensures
        c.server.tls is Some || c.server.auth is Some || c.setup_token is Some ==> r,
        c.manager is Some && (c.manager->0.node_secret is Some
            || c.manager->0.registration_token is Some) ==> r,
        forall|i: int|
            0 <= i < c.tunnels@.len() && ((#[trigger] c.tunnels@[i]).tunnel_psk is Some
                || c.tunnels@[i].tunnel_encryption_key is Some
                || c.tunnels@[i].tunnel_bind_secret is Some || c.tunnels@[i].tls_cert_pem is Some
                || c.tunnels@[i].tls_key_pem is Some) ==> r,
        forall|i: int|
            0 <= i < c.cellular_uplinks@.len() && (
            #[trigger] c.cellular_uplinks@[i]).password is Some ==> r,
        r ==> holds_secrets(*c),
{
    lemma_every_secret_is_detected(*c);
}

/// Where tunnels share an identifier, the secrets of the last of them that has any are
/// kept.
pub proof fn lemma_last_tunnel_counts(s: Seq<TunnelConfig>, i: int)
    requires
        0 <= i < s.len(),
        s[i].tunnel_encryption_key is Some
            || s[i].tunnel_bind_secret is Some
            || s[i].tunnel_psk is Some
            || s[i].tls_cert_pem is Some
            || s[i].tls_key_pem is Some,
        forall|j: int|
            i < j < s.len() && (#[trigger] s[j]).id@ == s[i].id@ ==> s[j].tunnel_encryption_key is None
                && s[j].tunnel_bind_secret is None
                && s[j].tunnel_psk is None
                && s[j].tls_cert_pem is None
                && s[j].tls_key_pem is None,
    ensures
        tunnels_secrets(s).contains_key(s[i].id@),
        tunnels_secrets(s)[s[i].id@].tunnel_encryption_key == s[i].tunnel_encryption_key,
        tunnels_secrets(s)[s[i].id@].tunnel_bind_secret == s[i].tunnel_bind_secret,
        tunnels_secrets(s)[s[i].id@].tunnel_psk == s[i].tunnel_psk,
        tunnels_secrets(s)[s[i].id@].tls_cert_pem == s[i].tls_cert_pem,
        tunnels_secrets(s)[s[i].id@].tls_key_pem == s[i].tls_key_pem,
    decreases s.len(),
{
    if i < s.len() - 1 {
        let init = s.drop_last();
        assert forall|j: int| i < j < init.len() && (#[trigger] init[j]).id@
            == init[i].id@ implies init[j].tunnel_encryption_key is None && init[j].tunnel_bind_secret is None
            && init[j].tunnel_psk is None && init[j].tls_cert_pem is None && init[j].tls_key_pem is None by {
            assert(init[j] == s[j]);
        }
        lemma_last_tunnel_counts(init, i);
        assert(s[s.len() - 1] == s.last());
    }
}

/// Where cellular routers share an interface, the password of the last of them that has
/// one is kept.
pub proof fn lemma_last_router_counts(s: Seq<CellularUplinkConfig>, i: int)
    requires
        0 <= i < s.len(),
        s[i].password is Some,
        forall|j: int|
            i < j < s.len() && (#[trigger] s[j]).interface@ == s[i].interface@
                ==> s[j].password is None,
    ensures
        uplink_passwords(s).contains_key(s[i].interface@),
        uplink_passwords(s)[s[i].interface@] == s[i].password->0,
    decreases s.len(),
{
    if i < s.len() - 1 {
        let init = s.drop_last();
        assert forall|j: int| i < j < init.len() && (#[trigger] init[j]).interface@
            == init[i].interface@ implies init[j].password is None by {
            assert(init[j] == s[j]);
        }
        lemma_last_router_counts(init, i);
        assert(s[s.len() - 1] == s.last());
    }
}

} // verus!
