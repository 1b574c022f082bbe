//! Default values.

use vstd::prelude::*;

use crate::binary::{Binary32, Binary64};
use crate::models::{
    AppConfig, BandwidthProfile, ContentAnalysisConfig, NmosRegistrationConfig, RecordingConfig,
    ServerConfig, St2110_21ProfileConfig, UpgradeConfig,
};

verus! {

/// The dish's endpoint on its own management subnet.
pub const DEFAULT_DISH_ADDR: &'static str = "192.168.100.1:9200";

pub fn default_true() -> (r: bool)
    ensures
        r,
{
    true
}

pub fn default_true_opt() -> (r: Option<bool>)
    ensures
        r == Some(true),
{
    Some(true)
}

/// Whether a flag is off, and need not be written out.
pub fn is_false(b: &bool) -> (r: bool)
    ensures
        r == !*b,
{
    !*b
}

pub fn default_audio_channel_pair() -> (r: [u8; 2])
    ensures
        r@ == seq![0u8, 1u8],
{
    [0, 1]
}

/// Source kind of a cellular uplink.
pub fn default_cellular_kind() -> (r: String)
    ensures
        r@ == "rutos"@,
{
    "rutos".to_owned()
}

/// URL scheme of a cellular uplink.
pub fn default_cellular_scheme() -> (r: String)
    ensures
        r@ == "https"@,
{
    "https".to_owned()
}

/// Router API of a cellular uplink.
pub fn default_cellular_api() -> (r: String)
    ensures
        r@ == "ubus"@,
{
    "ubus".to_owned()
}

/// Endpoint of a Starlink dish.
pub fn default_starlink_address() -> (r: String)
    ensures
        r@ == DEFAULT_DISH_ADDR@,
{
    DEFAULT_DISH_ADDR.to_owned()
}

/// IS-04 API version.
pub fn default_nmos_api_version() -> (r: String)
    ensures
        r@ == "v1.3"@,
{
    "v1.3".to_owned()
}

/// RTMP application name.
pub fn default_rtmp_app() -> (r: String)
    ensures
        r@ == "live"@,
{
    "live".to_owned()
}

/// Install root of upgrades.
pub fn default_install_root() -> (r: String)
    ensures
        r@ == "/opt/bilbycast/edge"@,
{
    "/opt/bilbycast/edge".to_owned()
}

/// Display synchronisation.
pub fn default_sync_mode() -> (r: String)
    ensures
        r@ == "vsync_to_display"@,
{
    "vsync_to_display".to_owned()
}

/// SDI format.
pub fn default_sdi_format() -> (r: String)
    ensures
        r@ == "auto"@,
{
    "auto".to_owned()
}

/// SDI pixel format.
pub fn default_sdi_pixel_format() -> (r: String)
    ensures
        r@ == "uyvy422"@,
{
    "uyvy422".to_owned()
}

pub fn default_rollback_grace() -> (r: u32)
    ensures
        r == 1,
{
    1
}

pub fn default_boot_health_window_secs() -> (r: u32)
    ensures
        r == 120,
{
    120
}

pub fn default_max_boot_attempts() -> (r: u32)
    ensures
        r == 3,
{
    3
}

pub fn default_max_size_mb() -> (r: u32)
    ensures
        r == 64,
{
    64
}

pub fn default_max_backups() -> (r: u32)
    ensures
        r == 5,
{
    5
}

pub fn default_nmos_heartbeat_secs() -> (r: u32)
    ensures
        r == 5,
{
    5
}

pub fn default_nmos_timeout_secs() -> (r: u32)
    ensures
        r == 10,
{
    10
}

pub fn default_recording_segment_seconds() -> (r: u32)
    ensures
        r == 10,
{
    10
}

pub fn default_recording_retention_seconds() -> (r: u64)
    ensures
        r == 86_400,
{
    86_400
}

pub fn default_recording_max_bytes() -> (r: u64)
    ensures
        r == 50 * 1024 * 1024 * 1024,
{
    50 * 1024 * 1024 * 1024
}

pub fn default_grace_period() -> (r: u32)
    ensures
        r == 5,
{
    5
}

pub fn default_resource_grace() -> (r: u32)
    ensures
        r == 10,
{
    10
}

pub fn default_tp_width() -> (r: u16)
    ensures
        r == 1280,
{
    1280
}

pub fn default_tp_audio_channels() -> (r: u8)
    ensures
        r == 2,
{
    2
}

pub fn default_tp_height() -> (r: u16)
    ensures
        r == 720,
{
    720
}

pub fn default_tp_fps() -> (r: u16)
    ensures
        r == 25,
{
    25
}

pub fn default_tp_video_bitrate() -> (r: u32)
    ensures
        r == 2000,
{
    2000
}

pub fn default_tp_ts_packets_per_datagram() -> (r: u16)
    ensures
        r == 7,
{
    7
}

pub fn default_image_fps() -> (r: u8)
    ensures
        r == 5,
{
    5
}

pub fn default_image_bitrate_kbps() -> (r: u32)
    ensures
        r == 250,
{
    250
}

pub fn default_mp_ts_packets_per_datagram() -> (r: u16)
    ensures
        r == 7,
{
    7
}

pub fn default_max_publishers() -> (r: u32)
    ensures
        r == 1,
{
    1
}

pub fn default_rtsp_timeout() -> (r: u64)
    ensures
        r == 10,
{
    10
}

pub fn default_rtsp_reconnect() -> (r: u64)
    ensures
        r == 5,
{
    5
}

pub fn default_latency() -> (r: u64)
    ensures
        r == 120,
{
    120
}

pub fn default_peer_idle_timeout() -> (r: u64)
    ensures
        r == 30,
{
    30
}

pub fn default_dscp() -> (r: u8)
    ensures
        r == 46,
{
    46
}

pub fn default_bond_weight() -> (r: u32)
    ensures
        r == 1,
{
    1
}

pub fn default_reconnect_delay() -> (r: u64)
    ensures
        r == 5,
{
    5
}

pub fn default_max_segments() -> (r: usize)
    ensures
        r == 5,
{
    5
}

pub fn default_cmaf_chunk_duration_ms() -> (r: u32)
    ensures
        r == 500,
{
    500
}

pub fn default_st2110_video_pt() -> (r: u8)
    ensures
        r == 96,
{
    96
}

pub fn default_st2110_video_payload_budget() -> (r: usize)
    ensures
        r == 1428,
{
    1428
}

pub fn default_st2110_sample_rate() -> (r: u32)
    ensures
        r == 48_000,
{
    48_000
}

pub fn default_st2110_bit_depth() -> (r: u8)
    ensures
        r == 24,
{
    24
}

pub fn default_st2110_channels() -> (r: u8)
    ensures
        r == 2,
{
    2
}

pub fn default_st2110_packet_time_us() -> (r: u32)
    ensures
        r == 1_000,
{
    1_000
}

pub fn default_st2110_audio_pt() -> (r: u8)
    ensures
        r == 97,
{
    97
}

pub fn default_st2110_anc_pt() -> (r: u8)
    ensures
        r == 100,
{
    100
}

pub fn default_sdi_audio_channels() -> (r: u8)
    ensures
        r == 2,
{
    2
}

/// 80.
pub fn default_cpu_warning() -> (r: Binary64)
    ensures
        r.bits == 0x4054_0000_0000_0000,
        r.text@ == "80"@,
{
    Binary64::new(0x4054_0000_0000_0000, "80")
}

/// 95.
pub fn default_cpu_critical() -> (r: Binary64)
    ensures
        r.bits == 0x4057_C000_0000_0000,
        r.text@ == "95"@,
{
    Binary64::new(0x4057_C000_0000_0000, "95")
}

/// 80.
pub fn default_ram_warning() -> (r: Binary64)
    ensures
        r.bits == 0x4054_0000_0000_0000,
        r.text@ == "80"@,
{
    Binary64::new(0x4054_0000_0000_0000, "80")
}

/// 95.
pub fn default_ram_critical() -> (r: Binary64)
    ensures
        r.bits == 0x4057_C000_0000_0000,
        r.text@ == "95"@,
{
    Binary64::new(0x4057_C000_0000_0000, "95")
}

/// 2.
pub fn default_segment_duration() -> (r: Binary64)
    ensures
        r.bits == 0x4000_0000_0000_0000,
        r.text@ == "2"@,
{
    Binary64::new(0x4000_0000_0000_0000, "2")
}

/// 1000.
pub fn default_tp_tone_hz() -> (r: Binary32)
    ensures
        r.bits == 0x447A_0000,
{
    Binary32 { bits: 0x447A_0000 }
}

/// -20.
pub fn default_tp_tone_dbfs() -> (r: Binary32)
    ensures
        r.bits == 0xC1A0_0000,
{
    Binary32 { bits: 0xC1A0_0000 }
}

/// The stable channel only.
pub fn default_allowed_channels() -> (r: Vec<String>)
    ensures
        r@.len() == 1,
        r@[0]@ == "stable"@,
{
    vec!["stable".to_owned()]
}

/// Both manifests.
pub fn default_cmaf_manifests() -> (r: Vec<String>)
    ensures
        r@.len() == 2,
        r@[0]@ == "hls"@,
        r@[1]@ == "dash"@,
{
    vec!["hls".to_owned(), "dash".to_owned()]
}

impl Default for ServerConfig {
    /// The API server on both loopback addresses.
    fn default() -> (r: Self)
        ensures
            r.listen_addr@ == "127.0.0.1"@,
            r.listen_addrs matches Some(v) && v@.len() == 2 && v@[0]@ == "127.0.0.1"@ && v@[1]@
                == "[::1]"@,
            r.listen_port == 8080,
            r.tls is None,
            r.auth is None,
    {
        ServerConfig {
            listen_addr: "127.0.0.1".to_owned(),
            listen_addrs: Some(vec!["127.0.0.1".to_owned(), "[::1]".to_owned()]),
            listen_port: 8080,
            tls: None,
            auth: None,
        }
    }
}

impl Default for AppConfig {
    /// A node with nothing configured: the setup wizard is open.
    fn default() -> (r: Self)
        ensures
            r.version == 2,
            r.node_id is None,
            r.device_name is None,
            r.setup_enabled,
            r.setup_token is None,
            r.server.listen_addr@ == "127.0.0.1"@,
            r.server.listen_addrs matches Some(v) && v@.len() == 2 && v@[0]@ == "127.0.0.1"@
                && v@[1]@ == "[::1]"@,
            r.server.listen_port == 8080,
            r.server.tls is None,
            r.server.auth is None,
            r.monitor is None,
            r.manager is None,
            r.inputs@.len() == 0,
            r.outputs@.len() == 0,
            r.flows@.len() == 0,
            r.resource_limits is None,
            r.logging is None,
            r.tunnels@.len() == 0,
            r.flow_groups@.len() == 0,
            r.nmos_registration is None,
            r.upgrades is None,
            r.cellular_uplinks@.len() == 0,
            r.starlink_uplinks@.len() == 0,
            r.bond_uplinks@.len() == 0,
            r.shared_leg_broker is None,
    {
        AppConfig {
            version: 2,
            node_id: None,
            device_name: None,
            setup_enabled: true,
            setup_token: None,
            server: ServerConfig::default(),
            monitor: None,
            manager: None,
            inputs: Vec::new(),
            outputs: Vec::new(),
            resource_limits: None,
            logging: None,
            flows: Vec::new(),
            tunnels: Vec::new(),
            flow_groups: Vec::new(),
            nmos_registration: None,
            upgrades: None,
            cellular_uplinks: Vec::new(),
            starlink_uplinks: Vec::new(),
            bond_uplinks: Vec::new(),
            shared_leg_broker: None,
        }
    }
}

impl Default for UpgradeConfig {
    /// Remote upgrades switched off.
    fn default() -> (r: Self)
        ensures
            !r.enabled,
            r.allowed_channels@.len() == 1,
            r.allowed_channels@[0]@ == "stable"@,
            r.min_version is None,
            r.rollback_grace == 1,
            r.install_root@ == "/opt/bilbycast/edge"@,
            r.boot_health_window_secs == 120,
            r.max_boot_attempts == 3,
            !r.manual_only,
    {
        UpgradeConfig {
            enabled: false,
            allowed_channels: default_allowed_channels(),
            min_version: None,
            rollback_grace: default_rollback_grace(),
            install_root: default_install_root(),
            boot_health_window_secs: default_boot_health_window_secs(),
            max_boot_attempts: default_max_boot_attempts(),
            manual_only: false,
        }
    }
}

impl Default for NmosRegistrationConfig {
    /// Registration switched off.
    fn default() -> (r: Self)
        ensures
            !r.enabled,
            r.registry_url@.len() == 0,
            r.api_version@ == "v1.3"@,
            r.heartbeat_interval_secs == 5,
            r.request_timeout_secs == 10,
            r.bearer_token is None,
    {
        NmosRegistrationConfig {
            enabled: false,
            registry_url: String::new(),
            api_version: default_nmos_api_version(),
            heartbeat_interval_secs: default_nmos_heartbeat_secs(),
            request_timeout_secs: default_nmos_timeout_secs(),
            bearer_token: None,
        }
    }
}

impl Default for RecordingConfig {
    /// A day in segments of ten seconds, up to 50 GiB.
    fn default() -> (r: Self)
        ensures
            r == (RecordingConfig {
                enabled: true,
                storage_id: None,
                segment_seconds: 10,
                retention_seconds: 86_400,
                max_bytes: 53_687_091_200,
                pre_buffer_seconds: None,
                filmstrip_seconds: None,
            }),
    {
        RecordingConfig {
            enabled: true,
            storage_id: None,
            segment_seconds: default_recording_segment_seconds(),
            retention_seconds: default_recording_retention_seconds(),
            max_bytes: default_recording_max_bytes(),
            pre_buffer_seconds: None,
            filmstrip_seconds: None,
        }
    }
}

impl Default for ContentAnalysisConfig {
    /// The lite tier only.
    fn default() -> (r: Self)
        ensures
            r == (ContentAnalysisConfig {
                lite: true,
                audio_full: false,
                video_full: false,
                video_full_hz: None,
            }),
    {
        ContentAnalysisConfig { lite: true, audio_full: false, video_full: false, video_full_hz: None }
    }
}

impl Default for BandwidthProfile {
    fn default() -> (r: Self)
        ensures
            r == BandwidthProfile::Standard,
    {
        BandwidthProfile::Standard
    }
}

impl Default for St2110_21ProfileConfig {
    fn default() -> (r: Self)
        ensures
            r == St2110_21ProfileConfig::Narrow,
    {
        St2110_21ProfileConfig::Narrow
    }
}

// ---------------------------------------------------------------------------
// Laws
// ---------------------------------------------------------------------------

/// The numbers that stand in for settings that are left out.
pub proof fn lemma_default_numbers()
    ensures
        forall|r: u32| #[trigger] call_ensures(default_rollback_grace, (), r) ==> r == 1,
        forall|r: u32| #[trigger] call_ensures(default_boot_health_window_secs, (), r) ==> r == 120,
        forall|r: u32| #[trigger] call_ensures(default_max_boot_attempts, (), r) ==> r == 3,
        forall|r: u32| #[trigger] call_ensures(default_max_size_mb, (), r) ==> r == 64,
        forall|r: u32| #[trigger] call_ensures(default_max_backups, (), r) ==> r == 5,
        forall|r: u32| #[trigger] call_ensures(default_nmos_heartbeat_secs, (), r) ==> r == 5,
        forall|r: u32| #[trigger] call_ensures(default_nmos_timeout_secs, (), r) ==> r == 10,
        forall|r: u32| #[trigger]
            call_ensures(default_recording_segment_seconds, (), r) ==> r == 10,
        forall|r: u64| #[trigger]
            call_ensures(default_recording_retention_seconds, (), r) ==> r == 86_400,
        forall|r: u64| #[trigger]
            call_ensures(default_recording_max_bytes, (), r) ==> r == 50 * 1024 * 1024 * 1024,
        forall|r: u32| #[trigger] call_ensures(default_grace_period, (), r) ==> r == 5,
        forall|r: u32| #[trigger] call_ensures(default_resource_grace, (), r) ==> r == 10,
        forall|r: u16| #[trigger] call_ensures(default_tp_width, (), r) ==> r == 1280,
        forall|r: u8| #[trigger] call_ensures(default_tp_audio_channels, (), r) ==> r == 2,
        forall|r: u16| #[trigger] call_ensures(default_tp_height, (), r) ==> r == 720,
        forall|r: u16| #[trigger] call_ensures(default_tp_fps, (), r) ==> r == 25,
        forall|r: u32| #[trigger] call_ensures(default_tp_video_bitrate, (), r) ==> r == 2000,
        forall|r: u16| #[trigger]
            call_ensures(default_tp_ts_packets_per_datagram, (), r) ==> r == 7,
        forall|r: u8| #[trigger] call_ensures(default_image_fps, (), r) ==> r == 5,
        forall|r: u32| #[trigger] call_ensures(default_image_bitrate_kbps, (), r) ==> r == 250,
        forall|r: u16| #[trigger]
            call_ensures(default_mp_ts_packets_per_datagram, (), r) ==> r == 7,
        forall|r: u32| #[trigger] call_ensures(default_max_publishers, (), r) ==> r == 1,
        forall|r: u64| #[trigger] call_ensures(default_rtsp_timeout, (), r) ==> r == 10,
        forall|r: u64| #[trigger] call_ensures(default_rtsp_reconnect, (), r) ==> r == 5,
        forall|r: u64| #[trigger] call_ensures(default_latency, (), r) ==> r == 120,
        forall|r: u64| #[trigger] call_ensures(default_peer_idle_timeout, (), r) ==> r == 30,
        forall|r: u8| #[trigger] call_ensures(default_dscp, (), r) ==> r == 46,
        forall|r: u32| #[trigger] call_ensures(default_bond_weight, (), r) ==> r == 1,
        forall|r: u64| #[trigger] call_ensures(default_reconnect_delay, (), r) ==> r == 5,
        forall|r: usize| #[trigger] call_ensures(default_max_segments, (), r) ==> r == 5,
        forall|r: u32| #[trigger] call_ensures(default_cmaf_chunk_duration_ms, (), r) ==> r == 500,
        forall|r: u8| #[trigger] call_ensures(default_st2110_video_pt, (), r) ==> r == 96,
        forall|r: usize| #[trigger]
            call_ensures(default_st2110_video_payload_budget, (), r) ==> r == 1428,
        forall|r: u32| #[trigger] call_ensures(default_st2110_sample_rate, (), r) ==> r == 48_000,
        forall|r: u8| #[trigger] call_ensures(default_st2110_bit_depth, (), r) ==> r == 24,
        forall|r: u8| #[trigger] call_ensures(default_st2110_channels, (), r) ==> r == 2,
        forall|r: u32| #[trigger] call_ensures(default_st2110_packet_time_us, (), r) ==> r == 1_000,
        forall|r: u8| #[trigger] call_ensures(default_st2110_audio_pt, (), r) ==> r == 97,
        forall|r: u8| #[trigger] call_ensures(default_st2110_anc_pt, (), r) ==> r == 100,
        forall|r: u8| #[trigger] call_ensures(default_sdi_audio_channels, (), r) ==> r == 2,
{
}

/// The texts that stand in for settings that are left out.
pub proof fn lemma_default_texts()
    ensures
        forall|r: String| #[trigger] call_ensures(default_cellular_kind, (), r) ==> r@ == "rutos"@,
        forall|r: String| #[trigger]
            call_ensures(default_cellular_scheme, (), r) ==> r@ == "https"@,
        forall|r: String| #[trigger] call_ensures(default_cellular_api, (), r) ==> r@ == "ubus"@,
        forall|r: String| #[trigger]
            call_ensures(default_starlink_address, (), r) ==> r@ == "192.168.100.1:9200"@,
        forall|r: String| #[trigger]
            call_ensures(default_nmos_api_version, (), r) ==> r@ == "v1.3"@,
        forall|r: String| #[trigger] call_ensures(default_rtmp_app, (), r) ==> r@ == "live"@,
        forall|r: String| #[trigger]
            call_ensures(default_install_root, (), r) ==> r@ == "/opt/bilbycast/edge"@,
        forall|r: String| #[trigger]
            call_ensures(default_sync_mode, (), r) ==> r@ == "vsync_to_display"@,
        forall|r: String| #[trigger] call_ensures(default_sdi_format, (), r) ==> r@ == "auto"@,
        forall|r: String| #[trigger]
            call_ensures(default_sdi_pixel_format, (), r) ==> r@ == "uyvy422"@,
{
}

/// The other values that stand in for settings that are left out.
pub proof fn lemma_default_values()
    ensures
        forall|r: bool| #[trigger] call_ensures(default_true, (), r) ==> r,
        forall|r: Option<bool>| #[trigger]
            call_ensures(default_true_opt, (), r) ==> r == Some(true),
        forall|r: [u8; 2]| #[trigger]
            call_ensures(default_audio_channel_pair, (), r) ==> r@ == seq![0u8, 1u8],
        forall|r: Binary64| #[trigger]
            call_ensures(default_cpu_warning, (), r) ==> r.bits == 0x4054_0000_0000_0000
                && r.text@ == "80"@,
        forall|r: Binary64| #[trigger]
            call_ensures(default_cpu_critical, (), r) ==> r.bits == 0x4057_C000_0000_0000
                && r.text@ == "95"@,
        forall|r: Binary64| #[trigger]
            call_ensures(default_ram_warning, (), r) ==> r.bits == 0x4054_0000_0000_0000
                && r.text@ == "80"@,
        forall|r: Binary64| #[trigger]
            call_ensures(default_ram_critical, (), r) ==> r.bits == 0x4057_C000_0000_0000
                && r.text@ == "95"@,
        forall|r: Binary64| #[trigger]
            call_ensures(default_segment_duration, (), r) ==> r.bits == 0x4000_0000_0000_0000
                && r.text@ == "2"@,
        forall|r: Binary32| #[trigger]
            call_ensures(default_tp_tone_hz, (), r) ==> r.bits == 0x447A_0000,
        forall|r: Binary32| #[trigger]
            call_ensures(default_tp_tone_dbfs, (), r) ==> r.bits == 0xC1A0_0000,
        forall|r: Vec<String>| #[trigger]
            call_ensures(default_allowed_channels, (), r) ==> r@.len() == 1 && r@[0]@ == "stable"@,
        forall|r: Vec<String>| #[trigger]
            call_ensures(default_cmaf_manifests, (), r) ==> r@.len() == 2
                && r@[0]@ == "hls"@
                && r@[1]@ == "dash"@,
        forall|b: &bool, r: bool| #[trigger] call_ensures(is_false, (b,), r) ==> r == !*b,
{
}

/// A server that is not configured listens on both loopback addresses, on port 8080,
/// without encryption and authentication.
pub proof fn lemma_default_server(r: ServerConfig)
    requires
        call_ensures(ServerConfig::default, (), r),
    ensures
        r.listen_addr@ == "127.0.0.1"@,
        r.listen_addrs is Some,
        r.listen_addrs->0@.len() == 2,
        r.listen_addrs->0@[0]@ == "127.0.0.1"@,
        r.listen_addrs->0@[1]@ == "[::1]"@,
        r.listen_port == 8080,
        r.tls is None,
        r.auth is None,
{
}

/// A node that is not configured has a default server, an open setup wizard, and nothing
/// else.
pub proof fn lemma_default_config(r: AppConfig)
    requires
        call_ensures(AppConfig::default, (), r),
    ensures
        r.version == 2,
        r.setup_enabled,
        r.setup_token is None,
        r.server.listen_addr@ == "127.0.0.1"@,
        r.server.listen_port == 8080,
        r.server.tls is None,
        r.server.auth is None,
        r.monitor is None,
        r.manager is None,
        r.inputs@.len() == 0,
        r.outputs@.len() == 0,
        r.flows@.len() == 0,
        r.tunnels@.len() == 0,
        r.flow_groups@.len() == 0,
        r.resource_limits is None,
        r.logging is None,
        r.nmos_registration is None,
        r.upgrades is None,
        r.device_name is None,
        r.node_id is None,
{
}

/// Remote upgrades are off and on the stable channel, registration is off, a recording is a
/// day in segments of ten seconds, and a flow has the smallest profile.
pub proof fn lemma_default_features(
    upgrades: UpgradeConfig,
    nmos: NmosRegistrationConfig,
    recording: RecordingConfig,
    profile: BandwidthProfile,
)
    requires
        call_ensures(UpgradeConfig::default, (), upgrades),
        call_ensures(NmosRegistrationConfig::default, (), nmos),
        call_ensures(RecordingConfig::default, (), recording),
        call_ensures(BandwidthProfile::default, (), profile),
    ensures
        !upgrades.enabled,
        upgrades.allowed_channels@.len() == 1,
        upgrades.allowed_channels@[0]@ == "stable"@,
        upgrades.install_root@ == "/opt/bilbycast/edge"@,
        upgrades.rollback_grace == 1,
        upgrades.boot_health_window_secs == 120,
        upgrades.max_boot_attempts == 3,
        !upgrades.manual_only,
        !nmos.enabled,
        nmos.registry_url@.len() == 0,
        nmos.api_version@ == "v1.3"@,
        nmos.heartbeat_interval_secs == 5,
        nmos.request_timeout_secs == 10,
        nmos.bearer_token is None,
        recording.enabled,
        recording.segment_seconds == 10,
        recording.retention_seconds == 86_400,
        recording.max_bytes == 53_687_091_200,
        recording.pre_buffer_seconds is None,
        recording.filmstrip_seconds is None,
        profile is Standard,
{
}

} // verus!
