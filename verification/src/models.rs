//! The configuration data model.
//!
//! Every type is plain data. Fractional numbers are held by their binary
//! representation ([`Binary64`], [`Binary32`]); file system paths are text.

use std::collections::BTreeMap;

use vstd::prelude::*;

use crate::audio_transcode::TranscodeJson;
use crate::auth::AuthConfig;
use crate::binary::{Binary32, Binary64};
use crate::manager::ManagerConfig;
use crate::srt_filter::PacketFilter;
use crate::tunnel::TunnelConfig;

verus! {

/// Host-level physical-uplink capacity declaration for the shared-leg capacity broker
/// (`engine::bond_leg_broker`).
#[derive(Debug, Clone)]
pub struct BondUplinkConfig {
    /// NIC name the bonded legs pin to (e.g. `"eno4"`, `"wwp151s0u1i4"`, `"wlo5"`).
    pub interface: String,
    /// Physical uplink capacity, bits/sec — the amount divided across all bonded flows
    /// sharing this NIC.
    pub capacity_bps: u64,
    /// Optional per-flow minimum-viable rate on this leg, bits/sec.
    pub min_viable_bps: Option<u64>,
    /// Optional per-uplink override of the broker's activity-grace threshold, bits/sec
    /// — a flow delivering at least this on the leg keeps its min-viable reservation;
    /// below it (once the grace window lapses) it releases its share so a co-flow that
    /// actually wants the leg can use it.
    pub demand_active_bps: Option<u64>,
}

/// Root configuration, persisted to config.json.
#[derive(Debug, Clone)]
pub struct AppConfig {
    /// Schema version for forward compatibility.
    pub version: u32,
    /// Persistent node UUID (auto-generated on first run, used for NMOS IS-04).
    pub node_id: Option<String>,
    /// API server configuration.
    pub server: ServerConfig,
    /// Optional web monitoring dashboard.
    pub monitor: Option<MonitorConfig>,
    /// Optional human-readable device name/label (set during initial setup).
    pub device_name: Option<String>,
    /// Whether the /setup wizard page is enabled.
    pub setup_enabled: bool,
    /// One-shot bearer token gating the `/setup` wizard against non-loopback callers.
    pub setup_token: Option<String>,
    /// Optional manager connection for centralized monitoring.
    pub manager: Option<ManagerConfig>,
    /// Top-level input definitions.
    pub inputs: Vec<InputDefinition>,
    /// Top-level output definitions.
    pub outputs: Vec<OutputConfig>,
    /// Flows connect one input to one or more outputs by reference.
    pub flows: Vec<FlowConfig>,
    /// Optional system resource monitoring thresholds (CPU, RAM).
    pub resource_limits: Option<ResourceLimitConfig>,
    /// OPTIONAL host-level policy caps for the shared-leg capacity broker — one hard
    /// ceiling per physical NIC that the broker's auto-discovered capacity estimate
    /// must never probe past.
    pub bond_uplinks: Vec<BondUplinkConfig>,
    /// Explicit on/off for the shared-leg broker.
    pub shared_leg_broker: Option<bool>,
    /// Optional structured-JSON log shipper for SIEM / NMS / observability pickup
    /// (Splunk, Skyline DataMiner, generic JSON-line ingesters).
    pub logging: Option<LoggingConfig>,
    /// Optional IP tunnels (relay or direct QUIC tunnels between edge nodes).
    pub tunnels: Vec<TunnelConfig>,
    /// Optional SMPTE ST 2110 flow groups (essence bundles).
    pub flow_groups: Vec<FlowGroupConfig>,
    /// Optional AMWA IS-04 registration-client configuration.
    pub nmos_registration: Option<NmosRegistrationConfig>,
    /// Remote-upgrade configuration.
    pub upgrades: Option<UpgradeConfig>,
    /// Optional cellular-uplink telemetry sources (RutOS routers).
    pub cellular_uplinks: Vec<CellularUplinkConfig>,
    /// Optional Starlink dish telemetry sources.
    pub starlink_uplinks: Vec<StarlinkUplinkConfig>,
}

/// One opt-in cellular-uplink telemetry source.
#[derive(Debug, Clone, PartialEq)]
pub struct CellularUplinkConfig {
    /// Kernel netdev this annotates, e.g. `"eno4"`.
    pub interface: String,
    /// Source kind.
    pub kind: String,
    /// `"http"` | `"https"` (default `"https"`).
    pub scheme: String,
    /// Router host or IP (no scheme), e.g. `"192.168.1.1"`.
    pub address: String,
    /// `"ubus"` (default, broad compatibility) | `"rest"` (RutOS 7.x).
    pub api: String,
    /// Read-only RutOS username.
    pub username: Option<String>,
    /// Read-only RutOS password.
    pub password: Option<String>,
    /// Verify the router's TLS chain.
    pub verify_tls: bool,
    /// Optional SHA-256 cert fingerprint pin (hex, `:`-separators allowed).
    pub cert_fingerprint: Option<String>,
}

/// One opt-in Starlink dish telemetry source.
#[derive(Debug, Clone, PartialEq)]
pub struct StarlinkUplinkConfig {
    /// Kernel netdev this annotates, e.g. `"wlo5"`.
    pub interface: String,
    /// Dish gRPC endpoint `host[:port]` (no scheme / path).
    pub address: String,
    /// Optional source IP to bind this dish's poll to.
    pub source_address: Option<String>,
    /// Optional gateway (the Starlink Wi-Fi router) for the dish's management subnet,
    /// e.g. `"192.168.4.1"`.
    pub gateway: Option<String>,
}

/// Remote-upgrade configuration.
#[derive(Debug, Clone, PartialEq)]
pub struct UpgradeConfig {
    /// Master switch.
    pub enabled: bool,
    /// Channels this node is allowed to install.
    pub allowed_channels: Vec<String>,
    /// Optional minimum version floor.
    pub min_version: Option<String>,
    /// How many minor versions back from the currently installed version the edge is
    /// willing to roll *forward* to.
    pub rollback_grace: u32,
    /// On-disk install root.
    pub install_root: String,
    /// Window after a respawn during which the new binary must produce healthy manager
    /// beats; if it fails to authenticate within this window, the boot watchdog rolls
    /// the symlink back to `previous` and emits `upgrade_rolled_back`.
    pub boot_health_window_secs: u32,
    /// Maximum boot attempts on the new binary before automatic rollback.
    pub max_boot_attempts: u32,
    /// When true, the manager can stage an upgrade (download + verify + extract under
    /// `versions/<new>/`) but the symlink swap waits for a local `kill -SIGUSR1 <pid>`
    /// so a human operator approves the actual switchover.
    pub manual_only: bool,
}

/// A standalone input definition, referenceable by flows.
#[derive(Debug, Clone, PartialEq)]
pub struct InputDefinition {
    /// Unique identifier for this input (max 64 chars).
    pub id: String,
    /// Human-readable name (max 256 chars).
    pub name: String,
    /// Whether this input is currently active.
    pub active: bool,
    /// Optional free-form group tag (max 64 chars) for UI grouping.
    pub group: Option<String>,
    /// The protocol-specific input configuration (flattened into the same JSON object).
    pub config: InputConfig,
}

#[derive(Debug, Clone)]
pub struct ServerConfig {
    /// API listen address, e.g. "0.0.0.0".
    pub listen_addr: String,
    /// API listen port, default 8080.
    pub listen_port: u16,
    /// Dual-stack listener addresses.
    pub listen_addrs: Option<Vec<String>>,
    /// Optional TLS configuration for HTTPS on the API server.
    pub tls: Option<TlsConfig>,
    /// Optional OAuth 2.0 authentication configuration.
    pub auth: Option<AuthConfig>,
}

/// TLS configuration for HTTPS serving.
#[derive(Debug)]
pub struct TlsConfig {
    /// Path to PEM-encoded TLS certificate file.
    pub cert_path: String,
    /// Path to PEM-encoded TLS private key file.
    pub key_path: String,
}

impl Clone for TlsConfig {
    fn clone(&self) -> (r: Self)
        ensures
            r == *self,
    {
        TlsConfig { cert_path: self.cert_path.clone(), key_path: self.key_path.clone() }
    }
}

/// Optional web monitoring dashboard configuration.
#[derive(Debug, Clone)]
pub struct MonitorConfig {
    /// Dashboard listen address, e.g. "0.0.0.0".
    pub listen_addr: String,
    /// Dual-stack listener addresses for the dashboard.
    pub listen_addrs: Option<Vec<String>>,
    /// Dashboard listen port, e.g. 9090.
    pub listen_port: u16,
}

/// Structured-JSON log shipper configuration.
#[derive(Debug, Clone, PartialEq)]
pub struct LoggingConfig {
    /// JSON event sink.
    pub json_target: Option<JsonLogTarget>,
}

/// JSON log sink — exactly one of `file`, `syslog`, or `stdout`.
#[derive(Debug, Clone, PartialEq)]
pub enum JsonLogTarget {
    /// Write JSON lines to stdout.
    Stdout {
        format: LogFormat,
    },
    /// Append JSON lines to a file with simple size-based rotation.
    File {
        /// Absolute path to the active log file.
        path: String,
        format: LogFormat,
        /// Rotate when the active file exceeds this size in megabytes.
        max_size_mb: u32,
        /// Maximum number of rotated backup files to retain.
        max_backups: u32,
    },
    /// UDP syslog (RFC 5424) target.
    Syslog {
        /// Syslog destination, e.g. `127.0.0.1:514` or `siem.internal:6514`.
        addr: String,
        format: LogFormat,
    },
}

/// JSON envelope shape.
#[derive(Debug, Clone, Copy, PartialEq, Default)]
pub enum LogFormat {
    /// Generic single-line JSON envelope (default).
    #[default]
    Raw,
    /// Splunk HEC-friendly: wraps the envelope inside a top-level `{"event": ...}`
    /// object so a Splunk HTTP Event Collector forwarder can ingest the same line.
    Splunk,
    /// Skyline DataMiner-friendly field renames (`error_code` → `parameter_id`).
    Dataminer,
}

/// AMWA IS-04 registration-client configuration.
#[derive(Debug, Clone)]
pub struct NmosRegistrationConfig {
    /// Whether registration is active.
    pub enabled: bool,
    /// Base URL of the NMOS registry, e.g. `https://registry.example.com:8235` or
    /// `http://localhost:8235`.
    pub registry_url: String,
    /// IS-04 registration API version.
    pub api_version: String,
    /// How often to POST a `health/nodes/{id}` heartbeat to the registry.
    pub heartbeat_interval_secs: u32,
    /// HTTP request timeout for registration / heartbeat / delete requests.
    pub request_timeout_secs: u32,
    /// Optional Bearer token to include on every registry request.
    pub bearer_token: Option<String>,
}

/// A Flow connects one or more inputs to one or more outputs by reference.
#[derive(Debug, Clone)]
pub struct FlowConfig {
    /// Unique identifier for this flow.
    pub id: String,
    /// Human-readable name.
    pub name: String,
    /// Whether this flow should be active on startup.
    pub enabled: bool,
    /// Enable media content analysis (codec, resolution, frame rate detection).
    pub media_analysis: bool,
    /// Enable thumbnail generation for visual flow preview.
    pub thumbnail: bool,
    /// MPEG-TS program_number whose video to render in the thumbnail when the input is
    /// an MPTS.
    pub thumbnail_program_number: Option<u16>,
    /// How often (in seconds) to capture a fresh thumbnail.
    pub thumbnail_interval_secs: Option<u32>,
    /// Optional bandwidth limit for trust boundary enforcement (RP 2129).
    pub bandwidth_limit: Option<BandwidthLimitConfig>,
    /// Optional SMPTE ST 2110 flow group membership.
    pub flow_group_id: Option<String>,
    /// Optional PTP clock domain (IEEE 1588) for this flow.
    pub clock_domain: Option<u8>,
    /// References to top-level input definitions by ID.
    pub input_ids: Vec<String>,
    /// References to top-level output definitions by ID.
    pub output_ids: Vec<String>,
    /// Optional per-output PID-bus assembly plan (Phase 3+ schema).
    pub assembly: Option<FlowAssembly>,
    /// Optional in-depth content analysis tiers.
    pub content_analysis: Option<ContentAnalysisConfig>,
    /// Optional per-flow continuous recording to disk.
    pub recording: Option<RecordingConfig>,
    /// Optional per-flow master-clock configuration.
    pub master_clock: Option<MasterClockConfig>,
    /// Optional per-flow bandwidth profile.
    pub bandwidth_profile: Option<BandwidthProfile>,
}

/// Channel-capacity tier for a flow's broadcast-class channels.
#[derive(Debug, Clone, Copy, PartialEq, Eq)]
pub enum BandwidthProfile {
    /// 16 384 slots.
    Standard,
    /// 32 768 slots.
    HighBitrate,
    /// 65 536 slots.
    Uncompressed,
}

/// Per-flow master-clock override.
#[derive(Debug, Clone, PartialEq)]
pub struct MasterClockConfig {
    /// Which master-clock backend to use for this flow.
    pub kind: MasterClockKindConfig,
    /// Lipsync trim in 90 kHz ticks.
    pub lipsync_offset_90k: i64,
    /// PLL-lock timeout in seconds.
    pub pll_lock_timeout_s: Option<u32>,
    /// p99 residual-jitter threshold (µs) at which the PLL transitions to `locked =
    /// true`.
    pub pll_lock_jitter_us: Option<u32>,
}

#[derive(Debug, Clone, Copy, PartialEq, Eq)]
pub enum MasterClockKindConfig {
    SourcePcrPll,
    Ptp,
    AudioMaster,
    /// "This flow doesn't need a recovered source clock." Output PCR comes from source
    /// bytes (passthrough) or source PTS (transcoded) so the master clock is
    /// informational only.
    Passthrough,
    /// Recover rate from the SRT/RIST sender's per-packet timestamp instead of MPEG-TS
    /// PCR sampled from the bytes.
    SenderTimestamp,
    Wallclock,
    /// Contribution-mode PLL: same runtime backend as `source_pcr_pll` (PI-controller
    /// PLL recovering source's 27 MHz from incoming PCR samples) but flags the
    /// operator's *intent* — "this is a clean contribution feed and I want the output
    /// PCR to track the source clock".
    Contribution,
    /// Per-input auto policy.
    Auto,
}

/// Per-flow continuous-recording attributes.
#[derive(Debug, Clone, PartialEq)]
pub struct RecordingConfig {
    /// Whether the recorder is currently armed.
    pub enabled: bool,
    /// Storage subdirectory under the replay root.
    pub storage_id: Option<String>,
    /// Rolling segment duration in seconds.
    pub segment_seconds: u32,
    /// Maximum recording age in seconds.
    pub retention_seconds: u64,
    /// Maximum total bytes per recording.
    pub max_bytes: u64,
    /// Pre-buffer (ring buffer) duration in seconds.
    pub pre_buffer_seconds: Option<u32>,
    /// Filmstrip thumbnail cadence in seconds.
    pub filmstrip_seconds: Option<u32>,
}

/// Per-flow content-analysis tier selection.
#[derive(Debug, Clone, PartialEq)]
pub struct ContentAnalysisConfig {
    /// Lite (compressed-domain) tier.
    pub lite: bool,
    /// Audio Full tier (R128 / true-peak / silence / mute / clipping).
    pub audio_full: bool,
    /// Video Full tier (blockiness / blur / letterbox / colour-bar / slate / freeze).
    pub video_full: bool,
    /// Override the Video Full sample rate in Hz.
    pub video_full_hz: Option<Binary32>,
}

/// Per-flow assembly plan.
#[derive(Debug, Clone, PartialEq)]
pub struct FlowAssembly {
    /// Shape of the egress TS.
    pub kind: AssemblyKind,
    /// PCR reference.
    pub pcr_source: Option<PcrSource>,
    /// Programs to synthesise.
    pub programs: Vec<AssembledProgram>,
}

/// Egress TS shape selector.
#[derive(Debug, Clone, Copy, PartialEq, Eq)]
pub enum AssemblyKind {
    /// Single-program TS.
    Spts,
    /// Multi-program TS.
    Mpts,
    /// Legacy mode — no assembly, the flow's outputs forward the active input's bytes.
    Passthrough,
}

/// PCR reference input.
#[derive(Debug, Clone, PartialEq)]
pub struct PcrSource {
    /// Flow-local input ID (must be in `FlowConfig.input_ids`).
    pub input_id: String,
    /// Source PID carrying PCR on that input.
    pub pid: u16,
}

/// One program in the assembled egress TS.
#[derive(Debug, Clone, PartialEq)]
pub struct AssembledProgram {
    /// MPEG-TS program_number (1..=65535; 0 is reserved for the NIT).
    pub program_number: u16,
    /// Optional SDT `service_name` — shipped as a short label in the manager UI and (in
    /// a later phase) synthesised into an SDT table.
    pub service_name: Option<String>,
    /// PMT PID for this program on the egress side.
    pub pmt_pid: u16,
    /// Optional per-program PCR reference.
    pub pcr_source: Option<PcrSource>,
    /// Elementary streams composing the program.
    pub streams: Vec<AssembledStream>,
}

/// One elementary-stream slot within an assembled program.
#[derive(Debug, Clone, PartialEq)]
pub struct AssembledStream {
    /// Where to pull bytes from.
    pub source: SlotSource,
    /// Output PID for this ES on the egress side.
    pub out_pid: u16,
    /// Output PMT `stream_type`.
    pub stream_type: u8,
    /// Optional human label surfaced in UI + events (e.g. `"English"`, `"Isolated
    /// Camera 2"`).
    pub label: Option<String>,
}

/// Where the bytes for a slot come from.
#[derive(Debug, PartialEq)]
pub enum SlotSource {
    /// Explicit PID on a named input.
    Pid { input_id: String, source_pid: u16 },
    /// Broad essence selector — the assembler picks the first stream of the given kind
    /// from the named input's PMT.
    Essence { input_id: String, kind: EssenceKind },
    /// Hitless SMPTE 2022-7-style pair.
    Hitless {
        primary: Box<SlotSource>,
        backup: Box<SlotSource>,
        /// Failover algorithm.
        mode: HitlessMode,
        /// Override for the stall timer (`PrimaryPreference` mode only — `SeqAware`
        /// ignores this).
        stall_ms: Option<u64>,
        /// Reorder window for the seq-aware merger (`SeqAware` mode only).
        reorder_window: Option<u16>,
        /// Path-differential / skew-accommodation buffer in milliseconds (`SeqAware`
        /// mode only).
        path_differential_ms: Option<u32>,
    },
    /// Operator-driven N-input switch.
    Switch {
        /// 1..=64 legs.
        legs: Vec<SwitchLeg>,
        /// Input ID of the leg that is active at flow bring-up.
        initial_input_id: String,
        /// PES Switch Phase 4.
        splice_mode: SpliceMode,
        /// Splice budget in milliseconds (PES-aligned mode only).
        splice_budget_ms: Option<u32>,
    },
}

impl Clone for SlotSource {
    fn clone(&self) -> Self
        decreases self,
    {
        match self {
            SlotSource::Pid { input_id, source_pid } => SlotSource::Pid {
                input_id: input_id.clone(),
                source_pid: *source_pid,
            },
            SlotSource::Essence { input_id, kind } => SlotSource::Essence {
                input_id: input_id.clone(),
                kind: *kind,
            },
            SlotSource::Hitless {
                primary,
                backup,
                mode,
                stall_ms,
                reorder_window,
                path_differential_ms,
            } => SlotSource::Hitless {
                primary: Box::new((&**primary).clone()),
                backup: Box::new((&**backup).clone()),
                mode: *mode,
                stall_ms: *stall_ms,
                reorder_window: *reorder_window,
                path_differential_ms: *path_differential_ms,
            },
            SlotSource::Switch { legs, initial_input_id, splice_mode, splice_budget_ms } =>
                SlotSource::Switch {
                    legs: legs.clone(),
                    initial_input_id: initial_input_id.clone(),
                    splice_mode: *splice_mode,
                    splice_budget_ms: *splice_budget_ms,
                },
        }
    }
}

/// PES Switch Phase 4.
#[derive(Debug, Clone, Copy, PartialEq, Eq, Default)]
pub enum SpliceMode {
    /// PMT version bump + DI=1 on next PCR.
    #[default]
    PmtBump,
    /// Hold the outbound stream at the from-leg's last fully-emitted PES boundary, then
    /// concatenate the to-leg's first PES whose PTS is monotonically past the last
    /// emitted PTS.
    PesAligned,
}

/// One leg of a [`SlotSource::Switch`].
#[derive(Debug, Clone, PartialEq)]
pub enum SwitchLeg {
    /// Explicit PID on a named input.
    Pid { input_id: String, source_pid: u16 },
    /// Auto-pick the first stream of a given kind from the input's PMT.
    Essence { input_id: String, kind: EssenceKind },
}

/// Hitless failover algorithm.
#[derive(Debug, Clone, Copy, PartialEq, Eq, Default)]
pub enum HitlessMode {
    /// Primary-preference with a stall timer.
    #[default]
    PrimaryPreference,
    /// True SMPTE 2022-7 seq-aware hitless.
    SeqAware,
}

/// Broad kind of essence on the bus.
#[derive(Debug, Clone, Copy, PartialEq, Eq)]
pub enum EssenceKind {
    Video,
    Audio,
    Subtitle,
    Data,
}

/// Bandwidth limit configuration for per-flow trust boundary enforcement.
#[derive(Debug, Clone, PartialEq)]
pub struct BandwidthLimitConfig {
    /// Expected maximum bitrate in megabits per second.
    pub max_bitrate_mbps: Binary64,
    /// Action to take when the limit is exceeded.
    pub action: BandwidthLimitAction,
    /// Seconds the bitrate must continuously exceed the limit before triggering the
    /// action.
    pub grace_period_secs: u32,
}

/// Action to take when a flow's bandwidth limit is exceeded.
#[derive(Debug, Clone, PartialEq)]
pub enum BandwidthLimitAction {
    /// Raise a warning event and flag the flow on the dashboard.
    Alarm,
    /// Gate the flow: drop all incoming packets until the bandwidth returns to within
    /// the configured limit.
    Block,
}

/// System resource monitoring and threshold configuration.
#[derive(Debug, Clone, PartialEq)]
pub struct ResourceLimitConfig {
    /// CPU usage warning threshold (percent, 0-100).
    pub cpu_warning_percent: Binary64,
    /// CPU usage critical threshold (percent, 0-100).
    pub cpu_critical_percent: Binary64,
    /// RAM usage warning threshold (percent, 0-100).
    pub ram_warning_percent: Binary64,
    /// RAM usage critical threshold (percent, 0-100).
    pub ram_critical_percent: Binary64,
    /// Action when critical threshold is exceeded.
    pub critical_action: ResourceLimitAction,
    /// Seconds the metric must continuously exceed the threshold before triggering.
    pub grace_period_secs: u32,
}

/// Action to take when a system resource critical threshold is exceeded.
#[derive(Debug, Clone, Default, PartialEq)]
pub enum ResourceLimitAction {
    /// Raise events only (default).
    #[default]
    Alarm,
    /// Prevent new flows from starting while any resource is critical.
    GateFlows,
}

/// Per-socket physical interface binding.
#[derive(Debug, Clone, PartialEq)]
pub struct InterfaceBinding {
    /// NIC name as enumerated by the kernel, e.g. `"eno4"`.
    pub name: String,
    /// When true, also call `setsockopt(SO_BINDTODEVICE, name)` so the kernel cannot
    /// route the socket to any other NIC.
    pub strict: bool,
}

/// Input source configuration — RTP, UDP, SRT, RTMP, RTSP, or WebRTC.
#[derive(Debug, Clone, PartialEq)]
pub enum InputConfig {
    /// Receive RTP over UDP (unicast or multicast) with optional FEC and ingress
    /// filters.
    Rtp(RtpInputConfig),
    /// Receive raw UDP datagrams (MPEG-TS or other payloads, no RTP header required).
    Udp(UdpInputConfig),
    /// Receive RTP over SRT.
    Srt(SrtInputConfig),
    /// Receive RIST Simple Profile (TR-06-1:2020) — reliable RTP transport with RTCP
    /// NACK-based retransmission.
    Rist(RistInputConfig),
    /// Receive H.264/AAC via RTMP (accept publish from OBS, ffmpeg, etc.).
    Rtmp(RtmpInputConfig),
    /// Receive H.264/H.265 + AAC via RTSP (pull from IP cameras, media servers).
    Rtsp(RtspInputConfig),
    /// Receive H.264/Opus via WebRTC WHIP (accept publish from OBS, browser, etc.).
    Webrtc(WebrtcInputConfig),
    /// Receive H.264/Opus via WebRTC WHEP client (pull from external WHEP server).
    Whep(WhepInputConfig),
    /// Receive SMPTE ST 2110-30 uncompressed PCM audio over RTP (L16/L24).
    St2110_30(St2110AudioInputConfig),
    /// Receive SMPTE ST 2110-31 AES3 transparent audio over RTP (preserves Dolby E,
    /// AES3 user/channel-status/validity bits).
    St2110_31(St2110AudioInputConfig),
    /// Receive SMPTE ST 2110-40 ancillary data (RFC 8331) — SCTE-104 ad markers, SMPTE
    /// 12M timecode, CEA-608/708 captions, and other ANC essence.
    St2110_40(St2110AncillaryInputConfig),
    /// Receive SMPTE ST 2110-20 uncompressed video over RTP (RFC 4175).
    St2110_20(St2110VideoInputConfig),
    /// Receive SMPTE ST 2110-23 (single video essence across multiple -20 sub-streams).
    St2110_23(St2110_23InputConfig),
    /// Receive RFC 3551 PCM audio over RTP/UDP without ST 2110 constraints.
    RtpAudio(RtpAudioInputConfig),
    /// Receive a bonded flow across N paths (UDP / QUIC / RIST), reassemble in bond-
    /// sequence order, and publish payloads onto the flow's broadcast channel.
    Bonded(BondedInputConfig),
    /// Synthetic test-pattern input: generates SMPTE 75% colour bars + optional 1 kHz
    /// tone in-process, encodes to H.264 + AAC, and publishes as MPEG-TS onto the flow
    /// broadcast channel.
    TestPattern(TestPatternInputConfig),
    /// File-based media player: replays a local `.ts` / `.mp4` / `.mov` / `.mkv` /
    /// image asset (single file or sequential playlist) as a fresh MPEG-TS feed onto
    /// the flow broadcast channel.
    MediaPlayer(MediaPlayerInputConfig),
    /// Replay input: pump a previously-recorded flow's TS segments back onto the
    /// broadcast channel, PTS-paced.
    Replay(ReplayInputConfig),
    /// Consume a MXL (Media eXchange Layer) **video** flow — V210 4:2:2 10-bit grains
    /// from the shared-memory bus, encoded to H.264/HEVC and published as MPEG-TS onto
    /// the flow's broadcast channel.
    MxlVideo(MxlVideoInputConfig),
    /// Consume a MXL **audio** flow — Float32 PCM @ 48 kHz samples from the shared-
    /// memory bus.
    MxlAudio(MxlAudioInputConfig),
    /// Consume a MXL **ancillary** flow — RFC 8331 ANC grains from the shared-memory
    /// bus.
    MxlAnc(MxlAncInputConfig),
    /// Capture SDI directly off a Blackmagic DeckLink card — packed 4:2:2 video +
    /// embedded PCM audio from one device handle, encoded to H.264/HEVC and muxed into
    /// a single A+V MPEG-TS on the flow's broadcast channel.
    Sdi(SdiInputConfig),
}

/// File-backed replay input.
#[derive(Debug, Clone, PartialEq)]
pub struct ReplayInputConfig {
    /// ID of the recording on this edge's replay store.
    pub recording_id: String,
    /// Optional clip ID.
    pub clip_id: Option<String>,
    /// When true, restart at the beginning on EOF.
    pub loop_playback: bool,
    /// Initial state on flow start.
    pub start_paused: bool,
    /// Optional audio re-encode applied at ingress, before the bytes reach the flow
    /// broadcast channel.
    pub audio_encode: Option<AudioEncodeConfig>,
    /// Optional planar PCM transcode (channel shuffle / sample-rate / bit-depth)
    /// applied between decode and `audio_encode`.
    pub transcode: Option<TranscodeJson>,
    /// Optional video re-encode applied at ingress.
    pub video_encode: Option<VideoEncodeConfig>,
    /// Optional ingress program filter for MPTS sources.
    pub program_number: Option<u16>,
    /// Optional mechanical PID remap table applied at ingress (after the program
    /// filter, before any role-keyed override or transcode).
    pub pid_map: Option<BTreeMap<u16, u16>>,
    /// Optional MPEG-TS PID overrides for the transcoded output.
    pub pid_overrides: Option<TsPidOverridesMap>,
    /// Muxer-mode PCR + PES PTS regeneration opt-out.
    pub passthrough_clock: Option<bool>,
}

/// What each synthetic audio channel carries in a test-pattern input.
#[derive(Debug, Clone, Copy, PartialEq, Eq, Default)]
pub enum TestPatternAudioContent {
    /// Classic line-up: the same sine tone on every channel.
    #[default]
    Tone,
    /// Each channel announces its own 1-based number so an operator can tell channels
    /// apart by ear — a looped spoken digit when a voice clip is available in the
    /// testgen-voice directory, otherwise N counted beeps per cycle as a built-in
    /// fallback.
    ChannelIdent,
}

/// Visual style of the A/V-sync marker when `av_sync_marker` is on.
#[derive(Debug, Clone, Copy, PartialEq, Eq, Default)]
pub enum TestPatternAvSyncStyle {
    /// Corner luma patch that flashes on the beep (EBU R 49 / 2-pop).
    #[default]
    Flash,
    /// A dot orbits a ring once per second; the beep fires as it crosses 12 o'clock.
    Sweep,
}

/// How the per-channel number idents are arranged in time when `audio_content =
/// channel_ident`.
#[derive(Debug, Clone, Copy, PartialEq, Eq, Default)]
pub enum TestPatternChannelIdentLayout {
    /// Round-robin: channel N announces in its own one-second slot, so the numbers are
    /// heard one at a time even on a summed / downmixed monitor (the BLITS / GLITS
    /// approach to surround channel identification).
    #[default]
    Sequential,
    /// Every channel announces its number at the same instant.
    Simultaneous,
}

/// Configuration for an in-process synthetic test-pattern input.
#[derive(Debug, Clone, PartialEq)]
pub struct TestPatternInputConfig {
    /// Video width in pixels.
    pub width: u16,
    /// Video height in pixels.
    pub height: u16,
    /// Frame rate in frames per second.
    pub fps: u16,
    /// Target video bitrate in kbit/s.
    pub video_bitrate_kbps: u32,
    /// When true, generate and encode a 1 kHz sine tone.
    pub audio_enabled: bool,
    /// Audio tone frequency in Hz.
    pub tone_hz: Binary32,
    /// Audio level in dBFS (negative).
    pub tone_dbfs: Binary32,
    /// A/V sync test mode (a.k.a.
    pub av_sync_marker: bool,
    /// Optional ingress audio re-encode applied to the synthesised tone before the
    /// bytes reach the flow broadcast channel.
    pub audio_encode: Option<AudioEncodeConfig>,
    /// Optional planar PCM transcode applied between decode and `audio_encode`.
    pub transcode: Option<TranscodeJson>,
    /// Optional ingress video re-encode applied to the synthesised colour-bars before
    /// fan-out.
    pub video_encode: Option<VideoEncodeConfig>,
    /// Optional ingress program filter for MPTS sources.
    pub program_number: Option<u16>,
    /// Optional mechanical PID remap table applied at ingress (after the program
    /// filter, before any role-keyed override or transcode).
    pub pid_map: Option<BTreeMap<u16, u16>>,
    /// Optional MPEG-TS PID overrides for the transcoded output.
    pub pid_overrides: Option<TsPidOverridesMap>,
    /// Optional burned-in identifier drawn large near the top of the frame so multiple
    /// generators are distinguishable on a multiviewer.
    pub screen_id: Option<String>,
    /// Number of audio channels to synthesise.
    pub audio_channels: u8,
    /// What each audio channel carries — a shared tone (default) or a per-channel
    /// number announcement.
    pub audio_content: TestPatternAudioContent,
    /// A/V-sync marker style when `av_sync_marker = true`.
    pub av_sync_style: TestPatternAvSyncStyle,
    /// When `audio_content = channel_ident`, how the per-channel announcements are laid
    /// out in time.
    pub channel_ident_layout: TestPatternChannelIdentLayout,
    /// Maximum number of 188-byte MPEG-TS packets bundled into each output datagram
    /// (`RtpPacket`) this generator emits.
    pub ts_packets_per_datagram: u16,
}

/// One asset inside a [`MediaPlayerInputConfig`].
#[derive(Debug, Clone, PartialEq)]
pub enum MediaPlayerSource {
    /// Pre-encoded MPEG-TS file in the edge's media library.
    Ts {
        /// Filename inside the media library directory (no path components).
        name: String,
        /// Down-select an MPTS file to a single program before publishing onto the
        /// flow.
        program_number: Option<u16>,
    },
    /// MP4 / MOV / MKV container in the edge's media library.
    Mp4 {
        /// Filename inside the media library directory (no path components).
        name: String,
    },
    /// Still image (JPEG / PNG) in the edge's media library.
    Image {
        /// Filename inside the media library directory (no path components).
        name: String,
        /// Encoder frame rate for the still — keeps decoder TS state warm without
        /// burning CPU.
        fps: u8,
        /// Encoder target bitrate in kbps.
        bitrate_kbps: u32,
        /// When true, also encode silent AAC stereo (matches every other MediaPlayer
        /// source which carries audio).
        audio_silence: bool,
    },
}

/// File-backed media player input.
#[derive(Debug, Clone, PartialEq)]
pub struct MediaPlayerInputConfig {
    /// Ordered list of assets.
    pub sources: Vec<MediaPlayerSource>,
    /// When true, restart at the head of `sources` after the last asset finishes.
    pub loop_playback: bool,
    /// When true and `sources.len() > 1`, randomise the playback order each time the
    /// playlist starts.
    pub shuffle: bool,
    /// Override the natural pacing for `ts`-kind sources.
    pub paced_bitrate_bps: Option<u64>,
    /// Optional audio re-encode applied at ingress, before the playlist bytes reach the
    /// flow broadcast channel.
    pub audio_encode: Option<AudioEncodeConfig>,
    /// Optional planar PCM transcode applied between decode and `audio_encode`.
    pub transcode: Option<TranscodeJson>,
    /// Optional ingress video re-encode.
    pub video_encode: Option<VideoEncodeConfig>,
    /// Optional ingress program filter for MPTS sources.
    pub program_number: Option<u16>,
    /// Optional mechanical PID remap table applied at ingress (after the program
    /// filter, before any role-keyed override or transcode).
    pub pid_map: Option<BTreeMap<u16, u16>>,
    /// Optional MPEG-TS PID overrides for the transcoded output.
    pub pid_overrides: Option<TsPidOverridesMap>,
    /// Muxer-mode PCR + PES PTS regeneration opt-out.
    pub passthrough_clock: Option<bool>,
    /// Maximum number of 188-byte MPEG-TS packets bundled into each output datagram
    /// (`RtpPacket`) published onto the flow.
    pub ts_packets_per_datagram: u16,
}

#[derive(Debug, Clone, PartialEq)]
pub struct RtpInputConfig {
    /// Local address to bind, e.g. "0.0.0.0:5000" or "239.1.1.1:5000" for multicast.
    pub bind_addr: String,
    /// Optional public `host:port` reachable from outside this node's network (e.g. a
    /// port-forward on the firewall in front of this edge).
    pub external_address: Option<String>,
    /// Network interface IP for multicast join (optional).
    pub interface_addr: Option<String>,
    /// Optional source address for source-specific multicast (SSM, RFC 3678).
    pub source_addr: Option<String>,
    /// Optional: decode incoming SMPTE 2022-1 FEC before forwarding.
    pub fec_decode: Option<FecConfig>,
    /// Enable VSF TR-07 mode: validates JPEG XS stream presence in PMT.
    pub tr07_mode: Option<bool>,
    /// Source IP allow-list (RP 2129 C5).
    pub allowed_sources: Option<Vec<String>>,
    /// RTP payload type allow-list (RP 2129 U4).
    pub allowed_payload_types: Option<Vec<u8>>,
    /// Maximum ingress bitrate in Mbps (RP 2129 C7).
    pub max_bitrate_mbps: Option<Binary64>,
    /// Optional: enable SMPTE 2022-7 redundancy (merge from two UDP legs).
    pub redundancy: Option<RtpRedundancyConfig>,
    /// Optional audio re-encode applied at ingress.
    pub audio_encode: Option<AudioEncodeConfig>,
    /// Optional planar PCM transcode (channel shuffle / sample-rate / bit-depth)
    /// applied between decode and `audio_encode`.
    pub transcode: Option<TranscodeJson>,
    /// Optional video re-encode applied at ingress.
    pub video_encode: Option<VideoEncodeConfig>,
    /// Optional ingress program filter for MPTS sources.
    pub program_number: Option<u16>,
    /// Optional mechanical PID remap table applied at ingress (after the program
    /// filter, before any role-keyed override or transcode).
    pub pid_map: Option<BTreeMap<u16, u16>>,
    /// Optional MPEG-TS PID overrides for the transcoded output.
    pub pid_overrides: Option<TsPidOverridesMap>,
    /// Pin this leg to a physical NIC (loose source-IP bind by default, strict
    /// `SO_BINDTODEVICE` when `strict: true`).
    pub interface_binding: Option<InterfaceBinding>,
    /// Fixed ingress **delay** (0..=1000 ms).
    pub ingress_delay_ms: Option<u16>,
    /// Ingress **de-jitter** buffer setpoint, in ms of content.
    pub ingress_dejitter_ms: Option<u32>,
    /// Opt OUT of muxer-mode PCR + PES PTS regeneration.
    pub passthrough_clock: Option<bool>,
}

/// Raw UDP input — receives datagrams without requiring RTP headers.
#[derive(Debug, Clone, PartialEq)]
pub struct UdpInputConfig {
    /// Local address to bind, e.g. "0.0.0.0:5000" or "239.1.1.1:5000" for multicast.
    pub bind_addr: String,
    /// Optional public `host:port` reachable from outside this node's network.
    pub external_address: Option<String>,
    /// Network interface IP for multicast join (optional).
    pub interface_addr: Option<String>,
    /// Source-specific multicast (SSM) source — see `RtpInputConfig::source_addr`.
    pub source_addr: Option<String>,
    /// Optional ingress audio re-encode.
    pub audio_encode: Option<AudioEncodeConfig>,
    /// Optional planar PCM transcode.
    pub transcode: Option<TranscodeJson>,
    /// Optional ingress video re-encode.
    pub video_encode: Option<VideoEncodeConfig>,
    /// Optional ingress program filter for MPTS sources.
    pub program_number: Option<u16>,
    /// Optional mechanical PID remap table applied at ingress (after the program
    /// filter, before any role-keyed override or transcode).
    pub pid_map: Option<BTreeMap<u16, u16>>,
    /// Optional MPEG-TS PID overrides for the transcoded output.
    pub pid_overrides: Option<TsPidOverridesMap>,
    /// Pin this input to a physical NIC.
    pub interface_binding: Option<InterfaceBinding>,
    /// Fixed ingress delay (0..=1000 ms) — a pure delay line, NOT a jitter buffer (use
    /// `ingress_dejitter_ms` to de-jitter).
    pub ingress_delay_ms: Option<u16>,
    /// Ingress de-jitter buffer setpoint (20–2000 ms of content).
    pub ingress_dejitter_ms: Option<u32>,
    /// Muxer-mode PCR + PES PTS regeneration opt-out.
    pub passthrough_clock: Option<bool>,
}

#[derive(Debug, Clone, PartialEq)]
pub struct SrtInputConfig {
    /// SRT connection mode.
    pub mode: SrtMode,
    /// Local bind address, e.g. "0.0.0.0:9000".
    pub local_addr: Option<String>,
    /// Optional public `host:port` reachable from outside this node's network (e.g. a
    /// port-forward on the firewall in front of this edge).
    pub external_address: Option<String>,
    /// Remote address (required for caller and rendezvous modes).
    pub remote_addr: Option<String>,
    /// SRT latency in milliseconds (sets both receiver and peer/sender latency).
    pub latency_ms: u64,
    /// Receiver-side latency override in milliseconds.
    pub recv_latency_ms: Option<u64>,
    /// Peer/sender-side latency override in milliseconds.
    pub peer_latency_ms: Option<u64>,
    /// Peer idle timeout in seconds.
    pub peer_idle_timeout_secs: u64,
    /// Optional AES encryption passphrase (10-79 chars).
    pub passphrase: Option<String>,
    /// AES key length: 16, 24, or 32 (default 16).
    pub aes_key_len: Option<usize>,
    /// Encryption cipher mode: "aes-ctr" (default) or "aes-gcm" (authenticated
    /// encryption).
    pub crypto_mode: Option<String>,
    /// Maximum retransmission bandwidth in bytes/sec (Token Bucket shaper).
    pub max_rexmit_bw: Option<i64>,
    /// SRT Stream ID for access control (max 512 chars, per SRT spec).
    pub stream_id: Option<String>,
    /// SRT packet filter for FEC (Forward Error Correction).
    pub packet_filter: Option<PacketFilter>,
    /// Maximum bandwidth in bytes/sec (0 = unlimited).
    pub max_bw: Option<i64>,
    /// Estimated input bandwidth in bytes/sec.
    pub input_bw: Option<i64>,
    /// Overhead bandwidth as percentage (5-100) over the input rate for congestion
    /// control.
    pub overhead_bw: Option<i32>,
    /// Enforce encryption: reject connections from unencrypted peers.
    pub enforced_encryption: Option<bool>,
    /// Connection timeout in seconds.
    pub connect_timeout_secs: Option<u64>,
    /// Flow control window size in packets (default: 25600).
    pub flight_flag_size: Option<u32>,
    /// Send buffer size in packets (default: 8192).
    pub send_buffer_size: Option<u32>,
    /// Receive buffer size in packets (default: 8192).
    pub recv_buffer_size: Option<u32>,
    /// IP Type of Service / DSCP value (0-255).
    pub ip_tos: Option<i32>,
    /// Retransmission algorithm: "default" or "reduced" (v1.5.5 efficient algo).
    pub retransmit_algo: Option<String>,
    /// Extra delay in ms before sender drops a packet (-1 = off).
    pub send_drop_delay: Option<i32>,
    /// Maximum reorder tolerance in packets (0 = adaptive).
    pub loss_max_ttl: Option<i32>,
    /// Key material refresh rate in packets.
    pub km_refresh_rate: Option<u32>,
    /// Key material pre-announce in packets before refresh.
    pub km_pre_announce: Option<u32>,
    /// Maximum payload size per SRT packet (default: 1316 for MPEG-TS 7×188).
    pub payload_size: Option<u32>,
    /// Maximum Segment Size in bytes (default: 1500).
    pub mss: Option<u32>,
    /// Enable too-late packet drop (default: true in live mode).
    pub tlpkt_drop: Option<bool>,
    /// IP Time To Live (default: 64).
    pub ip_ttl: Option<i32>,
    /// Optional: enable 2022-7 redundancy on input (merge from two SRT legs).
    pub redundancy: Option<SrtRedundancyConfig>,
    /// Optional: enable native libsrt SRT bonding (socket groups) on input.
    pub bonding: Option<SrtBondingConfig>,
    /// Transport mode for the SRT input stream.
    pub transport_mode: Option<String>,
    /// Optional ingress audio re-encode.
    pub audio_encode: Option<AudioEncodeConfig>,
    /// Optional planar PCM transcode.
    pub transcode: Option<TranscodeJson>,
    /// Optional ingress video re-encode.
    pub video_encode: Option<VideoEncodeConfig>,
    /// Optional ingress program filter for MPTS sources.
    pub program_number: Option<u16>,
    /// Optional mechanical PID remap table applied at ingress (after the program
    /// filter, before any role-keyed override or transcode).
    pub pid_map: Option<BTreeMap<u16, u16>>,
    /// Optional MPEG-TS PID overrides for the transcoded output.
    pub pid_overrides: Option<TsPidOverridesMap>,
    /// Pin this SRT input to a physical NIC.
    pub interface_binding: Option<InterfaceBinding>,
    /// Fixed ingress delay (0..=1000 ms) — a pure delay line for alignment, NOT a
    /// jitter buffer.
    pub ingress_delay_ms: Option<u16>,
    /// Muxer-mode PCR + PES PTS regeneration opt-out.
    pub passthrough_clock: Option<bool>,
}

/// RTMP input configuration — runs an RTMP server that accepts publish connections.
#[derive(Debug, Clone, PartialEq)]
pub struct RtmpInputConfig {
    /// RTMP listen address, e.g. "0.0.0.0:1935".
    pub listen_addr: String,
    /// Optional public `host:port` reachable from outside this node's network.
    pub external_address: Option<String>,
    /// RTMP application name.
    pub app: String,
    /// Optional stream key for authentication.
    pub stream_key: Option<String>,
    /// Maximum number of simultaneous publishers allowed (default: 1).
    pub max_publishers: u32,
    /// Optional ingress audio re-encode.
    pub audio_encode: Option<AudioEncodeConfig>,
    /// Optional planar PCM transcode.
    pub transcode: Option<TranscodeJson>,
    /// Optional ingress video re-encode.
    pub video_encode: Option<VideoEncodeConfig>,
    /// Optional ingress program filter for MPTS sources.
    pub program_number: Option<u16>,
    /// Optional mechanical PID remap table applied at ingress (after the program
    /// filter, before any role-keyed override or transcode).
    pub pid_map: Option<BTreeMap<u16, u16>>,
    /// Optional MPEG-TS PID overrides for the transcoded output.
    pub pid_overrides: Option<TsPidOverridesMap>,
    /// Fixed ingress delay (0..=1000 ms) — a pure delay line, NOT a jitter buffer (use
    /// `ingress_dejitter_ms` to de-jitter).
    pub ingress_delay_ms: Option<u16>,
    /// Muxer-mode PCR + PES PTS regeneration opt-out.
    pub passthrough_clock: Option<bool>,
}

/// RTSP transport mode for receiving RTP packets.
#[derive(Debug, Clone, PartialEq, Default)]
pub enum RtspTransport {
    /// RTP over TCP interleaved in the RTSP connection (most reliable, works through
    /// firewalls).
    #[default]
    Tcp,
    /// RTP over UDP (lower latency, may not work through NAT/firewalls).
    Udp,
}

/// RTSP input configuration — pulls media from an RTSP source (IP cameras, media
/// servers).
#[derive(Debug, Clone, PartialEq)]
pub struct RtspInputConfig {
    /// RTSP source URL, e.g. "rtsp://camera.local:554/stream1".
    pub rtsp_url: String,
    /// Username for RTSP authentication (Digest or Basic).
    pub username: Option<String>,
    /// Password for RTSP authentication.
    pub password: Option<String>,
    /// RTP transport mode: "tcp" (interleaved, default) or "udp".
    pub transport: RtspTransport,
    /// Connection timeout in seconds (default: 10).
    pub timeout_secs: u64,
    /// Reconnect delay in seconds after connection loss (default: 5).
    pub reconnect_delay_secs: u64,
    /// Optional ingress audio re-encode.
    pub audio_encode: Option<AudioEncodeConfig>,
    /// Optional planar PCM transcode.
    pub transcode: Option<TranscodeJson>,
    /// Optional ingress video re-encode.
    pub video_encode: Option<VideoEncodeConfig>,
    /// Optional ingress program filter for MPTS sources.
    pub program_number: Option<u16>,
    /// Optional mechanical PID remap table applied at ingress (after the program
    /// filter, before any role-keyed override or transcode).
    pub pid_map: Option<BTreeMap<u16, u16>>,
    /// Optional MPEG-TS PID overrides for the transcoded output.
    pub pid_overrides: Option<TsPidOverridesMap>,
    /// Fixed ingress delay (0..=1000 ms) — a pure delay line, NOT a jitter buffer (use
    /// `ingress_dejitter_ms` to de-jitter).
    pub ingress_delay_ms: Option<u16>,
    /// Muxer-mode PCR + PES PTS regeneration opt-out.
    pub passthrough_clock: Option<bool>,
}

/// WebRTC/WHIP input configuration — runs a WHIP server endpoint accepting WebRTC
/// contributions from publishers (OBS, browsers, etc.).
#[derive(Debug, Clone, PartialEq)]
pub struct WebrtcInputConfig {
    /// Optional bind address for the WHIP UDP listener (e.g. `0.0.0.0:8000`).
    pub bind_addr: Option<String>,
    /// Optional Bearer token required from WHIP publishers for authentication.
    pub bearer_token: Option<String>,
    /// When true, only video is received (audio tracks from publisher ignored).
    pub video_only: bool,
    /// Public IP to advertise in ICE candidates (for NAT traversal).
    pub public_ip: Option<String>,
    /// STUN server URL for ICE candidate gathering (optional, ICE-lite doesn't need
    /// it).
    pub stun_server: Option<String>,
    /// Optional ingress audio re-encode.
    pub audio_encode: Option<AudioEncodeConfig>,
    /// Optional planar PCM transcode.
    pub transcode: Option<TranscodeJson>,
    /// Optional ingress video re-encode.
    pub video_encode: Option<VideoEncodeConfig>,
    /// Optional ingress program filter for MPTS sources.
    pub program_number: Option<u16>,
    /// Optional mechanical PID remap table applied at ingress (after the program
    /// filter, before any role-keyed override or transcode).
    pub pid_map: Option<BTreeMap<u16, u16>>,
    /// Optional MPEG-TS PID overrides for the transcoded output.
    pub pid_overrides: Option<TsPidOverridesMap>,
}

/// WebRTC/WHEP input configuration — pulls media from an external WHEP server.
#[derive(Debug, Clone, PartialEq)]
pub struct WhepInputConfig {
    /// WHEP endpoint URL to pull media from.
    pub whep_url: String,
    /// Optional Bearer token for WHEP authentication.
    pub bearer_token: Option<String>,
    /// When true, only video is received (audio tracks ignored).
    pub video_only: bool,
    /// Accept self-signed TLS certificates on the WHEP endpoint (useful for testing
    /// against self-signed origin servers).
    pub accept_self_signed_cert: Option<bool>,
    /// SHA-256 fingerprint of the expected WHEP server certificate (colon-separated
    /// hex, e.g. `"ab:cd:..."`).
    pub cert_fingerprint: Option<String>,
    /// Optional ingress audio re-encode.
    pub audio_encode: Option<AudioEncodeConfig>,
    /// Optional planar PCM transcode.
    pub transcode: Option<TranscodeJson>,
    /// Optional ingress video re-encode.
    pub video_encode: Option<VideoEncodeConfig>,
    /// Optional ingress program filter for MPTS sources.
    pub program_number: Option<u16>,
    /// Optional mechanical PID remap table applied at ingress (after the program
    /// filter, before any role-keyed override or transcode).
    pub pid_map: Option<BTreeMap<u16, u16>>,
    /// Optional MPEG-TS PID overrides for the transcoded output.
    pub pid_overrides: Option<TsPidOverridesMap>,
}

/// Output destination configuration.
#[derive(Debug, Clone, PartialEq)]
pub enum OutputConfig {
    /// Send RTP-wrapped packets over UDP (with RTP headers, optional FEC).
    Rtp(RtpOutputConfig),
    /// Send raw MPEG-TS over UDP (no RTP headers, 7×188-byte datagrams).
    Udp(UdpOutputConfig),
    /// Send RTP over SRT.
    Srt(SrtOutputConfig),
    /// Send via RIST Simple Profile (TR-06-1:2020) — reliable RTP transport with RTCP
    /// NACK-based retransmission.
    Rist(RistOutputConfig),
    /// Publish to RTMP/RTMPS server (e.g. Twitch, YouTube).
    Rtmp(RtmpOutputConfig),
    /// Send TS segments via HLS ingest (e.g. YouTube HLS).
    Hls(HlsOutputConfig),
    /// Send fragmented-MP4 (CMAF / CMAF-LL) segments with HLS + DASH manifests,
    /// optionally encrypted via ClearKey CENC.
    Cmaf(CmafOutputConfig),
    /// Send via WebRTC/WHIP.
    Webrtc(WebrtcOutputConfig),
    /// Send SMPTE ST 2110-30 uncompressed PCM audio over RTP (L16/L24).
    St2110_30(St2110AudioOutputConfig),
    /// Send SMPTE ST 2110-31 AES3 transparent audio over RTP.
    St2110_31(St2110AudioOutputConfig),
    /// Send SMPTE ST 2110-40 ancillary data over RTP.
    St2110_40(St2110AncillaryOutputConfig),
    /// Send SMPTE ST 2110-20 uncompressed video over RTP (RFC 4175).
    St2110_20(St2110VideoOutputConfig),
    /// Send SMPTE ST 2110-23 — one video essence split across N ST 2110-20 sub-streams
    /// per the configured partition mode.
    St2110_23(St2110_23OutputConfig),
    /// Send PCM audio via RFC 3551 RTP/UDP without ST 2110 constraints (no PTP, no RFC
    /// 7273 timing, no NMOS clock_domain advertising).
    RtpAudio(RtpAudioOutputConfig),
    /// Send the flow across N bonded paths (UDP / QUIC / RIST) with a media-aware
    /// scheduler that duplicates IDR frames across the two best paths.
    Bonded(BondedOutputConfig),
    /// Decode the flow's video + audio and render to a local Linux display connector
    /// (HDMI / DisplayPort) plus an ALSA audio device.
    Display(DisplayOutputConfig),
    /// Native SDI playout via Blackmagic DeckLink: decode the flow's video and schedule
    /// it against the card's clock.
    Sdi(SdiOutputConfig),
    /// Produce a MXL **video** flow — decode the flow's H.264/HEVC TS, scale + convert
    /// to V210 4:2:2 10-bit planar, publish as grains onto the shared-memory bus.
    MxlVideo(MxlVideoOutputConfig),
    /// Produce a MXL **audio** flow — Float32 PCM @ 48 kHz samples onto the shared-
    /// memory bus.
    MxlAudio(MxlAudioOutputConfig),
    /// Produce a MXL **ancillary** flow — RFC 8331 ANC grains onto the shared-memory
    /// bus.
    MxlAnc(MxlAncOutputConfig),
}

#[derive(Debug, Clone, PartialEq)]
pub struct RtpOutputConfig {
    /// Unique output ID within this flow.
    pub id: String,
    /// Human-readable name.
    pub name: String,
    /// Whether this output is currently active.
    pub active: bool,
    /// Optional free-form group tag (max 64 chars) for UI grouping.
    pub group: Option<String>,
    /// Destination address, e.g. "192.168.1.100:5004" or "239.1.2.1:5004".
    pub dest_addr: String,
    /// Source bind address (optional, defaults to "0.0.0.0:0").
    pub bind_addr: Option<String>,
    /// Network interface IP for multicast send (optional).
    pub interface_addr: Option<String>,
    /// Optional: encode SMPTE 2022-1 FEC on output.
    pub fec_encode: Option<FecConfig>,
    /// DSCP value for QoS marking on egress (RP 2129 C10), range 0-63.
    pub dscp: u8,
    /// Optional: enable SMPTE 2022-7 redundancy (duplicate to two UDP legs).
    pub redundancy: Option<RtpOutputRedundancyConfig>,
    /// If set, filter the (possibly MPTS) input stream down to this single MPEG-TS
    /// program before sending.
    pub program_number: Option<u16>,
    /// Optional PID remapping applied after `program_number` filtering and any
    /// audio/video re-encode.
    pub pid_map: Option<BTreeMap<u16, u16>>,
    /// Optional output delay for stream synchronization.
    pub delay: Option<OutputDelay>,
    /// Enable per-output A/V alignment buffer.
    pub audio_encode: Option<AudioEncodeConfig>,
    /// Optional audio channel shuffle / sample-rate transcode applied to the decoded
    /// PCM **before** `audio_encode` re-encodes.
    pub transcode: Option<TranscodeJson>,
    /// Optional video encode block.
    pub video_encode: Option<VideoEncodeConfig>,
    /// Optional MPEG-TS PID overrides for the transcoded output.
    pub pid_overrides: Option<TsPidOverridesMap>,
    /// Optional CBR padding to a target wire bitrate (kbps).
    pub cbr_pad_to_kbps: Option<u32>,
    /// Pin this output to a physical NIC.
    pub interface_binding: Option<InterfaceBinding>,
    /// Egress pacing model for this compressed RTP output.
    pub egress_pacing: Option<EgressPacingMode>,
    /// Egress de-jitter buffer setpoint (ms of content).
    pub egress_buffer_ms: Option<u32>,
}

/// Egress pacing model for compressed (MPEG-TS) UDP/RTP outputs — how
/// `engine::wire_emit` times each datagram's release onto the wire.
#[derive(Debug, Clone, Copy, PartialEq, Eq, Default)]
pub enum EgressPacingMode {
    /// Emit at input cadence (no re-pacing).
    #[default]
    Forward,
    /// Open-loop PCR-delta re-pacing.
    Pcr,
    /// Closed-loop release-rate servo (optionally cushioned via `egress_buffer_ms`).
    Servo,
}

/// Configurable output delay for stream synchronization.
#[derive(Debug, Clone, PartialEq)]
pub enum OutputDelay {
    /// Fixed delay added on top of the existing processing latency.
    Fixed {
        /// Delay in milliseconds (0–10000).
        ms: u64,
    },
    /// Target end-to-end latency.
    TargetMs {
        /// Target end-to-end latency in milliseconds (1–10000).
        ms: u64,
    },
    /// Target end-to-end latency expressed in video frames.
    TargetFrames {
        /// Number of frames of end-to-end latency (0.01–300.0).
        frames: Binary64,
        /// Fallback delay in milliseconds if no frame rate is detected within 5 seconds
        /// of output start.
        fallback_ms: Option<u64>,
    },
}

/// Raw UDP output — sends MPEG-TS datagrams without RTP headers.
#[derive(Debug, Clone, PartialEq)]
pub struct UdpOutputConfig {
    /// Unique output ID within this flow.
    pub id: String,
    /// Human-readable name.
    pub name: String,
    /// Whether this output is currently active.
    pub active: bool,
    /// Optional free-form group tag (max 64 chars) for UI grouping.
    pub group: Option<String>,
    /// Destination address, e.g. "192.168.1.100:5004" or "239.1.2.1:5004".
    pub dest_addr: String,
    /// Source bind address (optional, defaults to "0.0.0.0:0").
    pub bind_addr: Option<String>,
    /// Network interface IP for multicast send (optional).
    pub interface_addr: Option<String>,
    /// DSCP value for QoS marking on egress, range 0-63.
    pub dscp: u8,
    /// If set, filter the (possibly MPTS) input stream down to this single MPEG-TS
    /// program before sending.
    pub program_number: Option<u16>,
    /// Optional PID remapping.
    pub pid_map: Option<BTreeMap<u16, u16>>,
    /// Transport mode for this UDP output.
    pub transport_mode: Option<String>,
    /// Optional output delay for stream synchronization.
    pub delay: Option<OutputDelay>,
    /// Optional audio encode block.
    pub audio_encode: Option<AudioEncodeConfig>,
    /// Optional audio channel shuffle / sample-rate transcode applied to the decoded
    /// PCM **before** `audio_encode` re-encodes.
    pub transcode: Option<TranscodeJson>,
    /// Optional video encode block.
    pub video_encode: Option<VideoEncodeConfig>,
    /// Optional MPEG-TS PID overrides for the transcoded output.
    pub pid_overrides: Option<TsPidOverridesMap>,
    /// Optional CBR padding to a target wire bitrate (kbps).
    pub cbr_pad_to_kbps: Option<u32>,
    /// Pin this UDP output to a physical NIC.
    pub interface_binding: Option<InterfaceBinding>,
    /// Egress pacing model for this compressed UDP output.
    pub egress_pacing: Option<EgressPacingMode>,
    /// Egress de-jitter buffer setpoint, in milliseconds of content.
    pub egress_buffer_ms: Option<u32>,
}

#[derive(Debug, Clone, PartialEq)]
pub struct SrtOutputConfig {
    /// Unique output ID within this flow.
    pub id: String,
    /// Human-readable name.
    pub name: String,
    /// Whether this output is currently active.
    pub active: bool,
    /// Optional free-form group tag (max 64 chars) for UI grouping.
    pub group: Option<String>,
    /// SRT connection mode.
    pub mode: SrtMode,
    /// Local bind address.
    pub local_addr: Option<String>,
    /// Optional public `host:port` reachable from outside this node's network.
    pub external_address: Option<String>,
    /// Remote address (required for caller and rendezvous).
    pub remote_addr: Option<String>,
    /// SRT latency in ms (sets both receiver and peer/sender latency).
    pub latency_ms: u64,
    /// Receiver-side latency override in milliseconds.
    pub recv_latency_ms: Option<u64>,
    /// Peer/sender-side latency override in milliseconds.
    pub peer_latency_ms: Option<u64>,
    /// Peer idle timeout in seconds.
    pub peer_idle_timeout_secs: u64,
    /// Optional AES encryption passphrase.
    pub passphrase: Option<String>,
    /// AES key length: 16, 24, or 32.
    pub aes_key_len: Option<usize>,
    /// Encryption cipher mode: "aes-ctr" (default) or "aes-gcm" (authenticated
    /// encryption).
    pub crypto_mode: Option<String>,
    /// Maximum retransmission bandwidth in bytes/sec (Token Bucket shaper).
    pub max_rexmit_bw: Option<i64>,
    /// SRT Stream ID for access control (max 512 chars, per SRT spec).
    pub stream_id: Option<String>,
    /// SRT packet filter for FEC (Forward Error Correction).
    pub packet_filter: Option<PacketFilter>,
    /// Maximum bandwidth in bytes/sec (0 = unlimited).
    pub max_bw: Option<i64>,
    /// Estimated input bandwidth in bytes/sec.
    pub input_bw: Option<i64>,
    /// Overhead bandwidth as percentage (5-100).
    pub overhead_bw: Option<i32>,
    /// Enforce encryption: reject unencrypted peers.
    pub enforced_encryption: Option<bool>,
    /// Connection timeout in seconds.
    pub connect_timeout_secs: Option<u64>,
    /// Flow control window size in packets (default: 25600).
    pub flight_flag_size: Option<u32>,
    /// Send buffer size in packets (default: 8192).
    pub send_buffer_size: Option<u32>,
    /// Receive buffer size in packets (default: 8192).
    pub recv_buffer_size: Option<u32>,
    /// IP Type of Service / DSCP value (0-255).
    pub ip_tos: Option<i32>,
    /// Retransmission algorithm: "default" or "reduced".
    pub retransmit_algo: Option<String>,
    /// Extra delay in ms before sender drops a packet (-1 = off).
    pub send_drop_delay: Option<i32>,
    /// Maximum reorder tolerance in packets (0 = adaptive).
    pub loss_max_ttl: Option<i32>,
    /// Key material refresh rate in packets.
    pub km_refresh_rate: Option<u32>,
    /// Key material pre-announce in packets before refresh.
    pub km_pre_announce: Option<u32>,
    /// Maximum payload size per SRT packet (default: 1316).
    pub payload_size: Option<u32>,
    /// Maximum Segment Size in bytes (default: 1500).
    pub mss: Option<u32>,
    /// Enable too-late packet drop (default: true in live mode).
    pub tlpkt_drop: Option<bool>,
    /// IP Time To Live (default: 64).
    pub ip_ttl: Option<i32>,
    /// Optional: enable 2022-7 redundancy on output (duplicate to two SRT legs).
    pub redundancy: Option<SrtRedundancyConfig>,
    /// Optional: enable native libsrt SRT bonding (socket groups) on output.
    pub bonding: Option<SrtBondingConfig>,
    /// If set, filter the (possibly MPTS) input stream down to this single MPEG-TS
    /// program before sending.
    pub program_number: Option<u16>,
    /// Optional PID remapping.
    pub pid_map: Option<BTreeMap<u16, u16>>,
    /// Transport mode for this SRT output.
    pub transport_mode: Option<String>,
    /// Optional output delay for stream synchronization.
    pub delay: Option<OutputDelay>,
    /// Optional audio encode block.
    pub audio_encode: Option<AudioEncodeConfig>,
    /// Optional audio channel shuffle / sample-rate transcode applied to the decoded
    /// PCM **before** `audio_encode` re-encodes.
    pub transcode: Option<TranscodeJson>,
    /// Optional video encode block.
    pub video_encode: Option<VideoEncodeConfig>,
    /// Optional MPEG-TS PID overrides for the transcoded output.
    pub pid_overrides: Option<TsPidOverridesMap>,
    /// Optional CBR padding to a target wire bitrate (kbps).
    pub cbr_pad_to_kbps: Option<u32>,
    /// Force a browser-safe ("WebRTC-compatible") H.264 egress.
    pub webrtc_compatible: bool,
    /// Pin this SRT output to a physical NIC.
    pub interface_binding: Option<InterfaceBinding>,
}

/// SRT connection mode, determining which side initiates the handshake.
#[derive(Debug, Clone, Copy, PartialEq, Eq)]
pub enum SrtMode {
    /// Active mode: the SRT endpoint initiates the connection to a remote listener.
    Caller,
    /// Passive mode: the SRT endpoint binds to `local_addr` and waits for an incoming
    /// connection from a remote caller.
    Listener,
    /// Symmetric mode: both endpoints simultaneously attempt to connect to each other.
    Rendezvous,
}

/// SMPTE 2022-7 redundancy config for an SRT leg.
#[derive(Debug, Clone, PartialEq)]
pub struct SrtRedundancyConfig {
    /// SRT mode for the second leg.
    pub mode: SrtMode,
    /// Local bind address for leg 2.
    pub local_addr: Option<String>,
    /// Remote address for leg 2 (for caller/rendezvous).
    pub remote_addr: Option<String>,
    /// SRT latency for leg 2.
    pub latency_ms: u64,
    /// Receiver-side latency override for leg 2.
    pub recv_latency_ms: Option<u64>,
    /// Peer/sender-side latency override for leg 2.
    pub peer_latency_ms: Option<u64>,
    /// Peer idle timeout in seconds for leg 2.
    pub peer_idle_timeout_secs: u64,
    /// Optional AES passphrase for leg 2.
    pub passphrase: Option<String>,
    /// AES key length for leg 2.
    pub aes_key_len: Option<usize>,
    /// Encryption cipher mode for leg 2: "aes-ctr" (default) or "aes-gcm".
    pub crypto_mode: Option<String>,
    /// Maximum retransmission bandwidth in bytes/sec for leg 2.
    pub max_rexmit_bw: Option<i64>,
    /// SRT Stream ID for leg 2.
    pub stream_id: Option<String>,
    /// SRT packet filter for FEC on leg 2.
    pub packet_filter: Option<PacketFilter>,
    /// Maximum bandwidth in bytes/sec for leg 2.
    pub max_bw: Option<i64>,
    /// Estimated input bandwidth in bytes/sec for leg 2.
    pub input_bw: Option<i64>,
    /// Overhead bandwidth as percentage for leg 2.
    pub overhead_bw: Option<i32>,
    /// Enforce encryption for leg 2.
    pub enforced_encryption: Option<bool>,
    /// Connection timeout in seconds for leg 2.
    pub connect_timeout_secs: Option<u64>,
    /// Flow control window size for leg 2.
    pub flight_flag_size: Option<u32>,
    /// Send buffer size in packets for leg 2.
    pub send_buffer_size: Option<u32>,
    /// Receive buffer size in packets for leg 2.
    pub recv_buffer_size: Option<u32>,
    /// IP TOS / DSCP for leg 2.
    pub ip_tos: Option<i32>,
    /// Retransmission algorithm for leg 2.
    pub retransmit_algo: Option<String>,
    /// Extra delay before sender drop for leg 2.
    pub send_drop_delay: Option<i32>,
    /// Maximum reorder tolerance for leg 2.
    pub loss_max_ttl: Option<i32>,
    /// Key material refresh rate for leg 2.
    pub km_refresh_rate: Option<u32>,
    /// Key material pre-announce for leg 2.
    pub km_pre_announce: Option<u32>,
    /// Maximum payload size for leg 2.
    pub payload_size: Option<u32>,
    /// Maximum Segment Size for leg 2.
    pub mss: Option<u32>,
    /// Enable too-late packet drop for leg 2.
    pub tlpkt_drop: Option<bool>,
    /// IP Time To Live for leg 2.
    pub ip_ttl: Option<i32>,
    /// Pin SRT leg 2 to a physical NIC (loose only).
    pub interface_binding: Option<InterfaceBinding>,
}

/// Native libsrt SRT bonding mode (socket-group type).
#[derive(Debug, Clone, Copy, PartialEq, Eq)]
pub enum SrtBondingMode {
    /// All member links active simultaneously.
    Broadcast,
    /// Primary/backup: only the highest-priority healthy link carries data; others
    /// stand by for automatic failover.
    Backup,
}

/// One endpoint (member link) in an SRT bonding group.
#[derive(Debug, Clone, PartialEq)]
pub struct SrtBondingEndpoint {
    /// Remote address (caller side) or local bind address (listener side).
    pub addr: String,
    /// Optional local bind address for caller members (e.g. to pin the member to a
    /// specific NIC / source IP).
    pub local_addr: Option<String>,
    /// Backup-mode member priority.
    pub weight: Option<u16>,
    /// Pin this bonding endpoint to a physical NIC (loose only).
    pub interface_binding: Option<InterfaceBinding>,
}

/// Native libsrt SRT bonding (socket group) config.
#[derive(Debug, Clone, PartialEq)]
pub struct SrtBondingConfig {
    /// Bonding mode: broadcast (all-active, dedup) or backup (primary/ failover).
    pub mode: SrtBondingMode,
    /// Member endpoints (2..=8).
    pub endpoints: Vec<SrtBondingEndpoint>,
}

/// SMPTE 2022-7 redundancy config for an RTP input (leg 2).
#[derive(Debug, Clone, PartialEq)]
pub struct RtpRedundancyConfig {
    /// Bind address for leg 2, e.g. "239.1.1.2:5000" or "0.0.0.0:5002".
    pub bind_addr: String,
    /// Network interface IP for multicast join on leg 2 (optional).
    pub interface_addr: Option<String>,
    /// Source-specific multicast (SSM) source for leg 2.
    pub source_addr: Option<String>,
    /// Path-differential / skew-accommodation buffer in milliseconds.
    pub path_differential_ms: Option<u32>,
    /// Pin RTP leg 2 to a physical NIC.
    pub interface_binding: Option<InterfaceBinding>,
}

/// SMPTE 2022-7 redundancy config for an RTP output (leg 2).
#[derive(Debug, Clone, PartialEq)]
pub struct RtpOutputRedundancyConfig {
    /// Destination address for leg 2, e.g. "239.1.2.1:5004".
    pub dest_addr: String,
    /// Source bind address for leg 2 (optional, defaults to "0.0.0.0:0").
    pub bind_addr: Option<String>,
    /// Network interface IP for multicast send on leg 2 (optional).
    pub interface_addr: Option<String>,
    /// DSCP value for leg 2 (optional, defaults to parent's dscp).
    pub dscp: Option<u8>,
    /// Pin RTP output leg 2 to a physical NIC.
    pub interface_binding: Option<InterfaceBinding>,
}

/// RIST Simple Profile (TR-06-1:2020) input.
#[derive(Debug, Clone, PartialEq)]
pub struct RistInputConfig {
    /// Local bind address, e.g. "0.0.0.0:6000".
    pub bind_addr: String,
    /// Optional public `host:port` reachable from outside this node's network.
    pub external_address: Option<String>,
    /// Receiver jitter / retransmit buffer depth in milliseconds.
    pub buffer_ms: Option<u32>,
    /// Maximum NACK retransmission attempts per lost packet.
    pub max_nack_retries: Option<u32>,
    /// CNAME emitted in RTCP SDES packets (optional, auto-generated if absent).
    pub cname: Option<String>,
    /// RTCP emission interval in milliseconds (TR-06-1 requires ≤ 100 ms).
    pub rtcp_interval_ms: Option<u32>,
    /// Optional SMPTE 2022-7 redundancy (merge two RIST legs).
    pub redundancy: Option<RistInputRedundancyConfig>,
    /// Optional ingress audio re-encode.
    pub audio_encode: Option<AudioEncodeConfig>,
    /// Optional planar PCM transcode.
    pub transcode: Option<TranscodeJson>,
    /// Optional ingress video re-encode.
    pub video_encode: Option<VideoEncodeConfig>,
    /// Optional ingress program filter for MPTS sources.
    pub program_number: Option<u16>,
    /// Optional mechanical PID remap table applied at ingress (after the program
    /// filter, before any role-keyed override or transcode).
    pub pid_map: Option<BTreeMap<u16, u16>>,
    /// Optional MPEG-TS PID overrides for the transcoded output.
    pub pid_overrides: Option<TsPidOverridesMap>,
    /// Pin this RIST input to a physical NIC (loose only — strict deferred
    /// pending librist plumbing).
    pub interface_binding: Option<InterfaceBinding>,
    /// Muxer-mode PCR + PES PTS regeneration opt-out.
    pub passthrough_clock: Option<bool>,
}

/// RIST Simple Profile (TR-06-1:2020) output.
#[derive(Debug, Clone, PartialEq)]
pub struct RistOutputConfig {
    /// Unique output ID within this flow.
    pub id: String,
    /// Human-readable name.
    pub name: String,
    /// Whether this output is currently active.
    pub active: bool,
    /// Optional free-form group tag (max 64 chars).
    pub group: Option<String>,
    /// Remote RIST address, e.g. "203.0.113.10:6000".
    pub remote_addr: String,
    /// Local bind address for the sender's RTP socket.
    pub local_addr: Option<String>,
    /// Sender retransmit buffer depth in milliseconds.
    pub buffer_ms: Option<u32>,
    /// Retransmit buffer capacity in packets (sender side).
    pub retransmit_buffer_capacity: Option<usize>,
    /// CNAME emitted in RTCP SDES packets.
    pub cname: Option<String>,
    /// RTCP emission interval in milliseconds.
    pub rtcp_interval_ms: Option<u32>,
    /// Optional SMPTE 2022-7 redundancy (duplicate output to a second leg).
    pub redundancy: Option<RistOutputRedundancyConfig>,
    /// If set, filter the (possibly MPTS) input stream down to this single program.
    pub program_number: Option<u16>,
    /// Optional PID remapping.
    pub pid_map: Option<BTreeMap<u16, u16>>,
    /// Optional output delay for stream synchronization.
    pub delay: Option<OutputDelay>,
    /// Optional audio encode block (AAC-LC / HE-AAC / MP2 / AC-3).
    pub audio_encode: Option<AudioEncodeConfig>,
    /// Optional audio channel shuffle / sample-rate transcode applied to the decoded
    /// PCM **before** `audio_encode` re-encodes.
    pub transcode: Option<TranscodeJson>,
    /// Optional video encode block (x264 / x265 / NVENC, feature-gated).
    pub video_encode: Option<VideoEncodeConfig>,
    /// Optional MPEG-TS PID overrides for the transcoded output.
    pub pid_overrides: Option<TsPidOverridesMap>,
    /// Pin this RIST output to a physical NIC (loose only — strict deferred
    /// pending librist plumbing).
    pub interface_binding: Option<InterfaceBinding>,
}

/// SMPTE 2022-7 redundancy config for a RIST input (leg 2).
#[derive(Debug, Clone, PartialEq)]
pub struct RistInputRedundancyConfig {
    /// Bind address for leg 2.
    pub bind_addr: String,
    /// Optional public `host:port` reachable from outside this node's network for leg
    /// 2.
    pub external_address: Option<String>,
    /// Pin RIST leg 2 to a physical NIC (loose only).
    pub interface_binding: Option<InterfaceBinding>,
}

/// SMPTE 2022-7 redundancy config for a RIST output (leg 2).
#[derive(Debug, Clone, PartialEq)]
pub struct RistOutputRedundancyConfig {
    /// Remote address for leg 2.
    pub remote_addr: String,
    /// Local bind address for leg 2 (optional).
    pub local_addr: Option<String>,
    /// Pin RIST output leg 2 to a physical NIC (loose only).
    pub interface_binding: Option<InterfaceBinding>,
}

/// Bonded input — reassembles a bond flow arriving on N paths and publishes the
/// delivered payloads into the flow's broadcast channel.
#[derive(Debug, Clone, PartialEq)]
pub struct BondedInputConfig {
    /// Bond-layer flow identifier — must match the sender end.
    pub bond_flow_id: u32,
    /// Paths to bind on.
    pub paths: Vec<BondPathConfig>,
    /// Reassembly hold time in milliseconds.
    pub hold_ms: Option<u32>,
    /// Optional adaptive hold-time **ceiling** in milliseconds.
    pub hold_max_ms: Option<u32>,
    /// Base NACK delay in milliseconds.
    pub nack_delay_ms: Option<u32>,
    /// Max NACK retries per gap.
    pub max_nack_retries: Option<u32>,
    /// Keepalive interval in milliseconds.
    pub keepalive_ms: Option<u32>,
    /// Optional 64-hex-char (32-byte) AEAD key — must match the bonded output's key for
    /// the encrypted legs to open.
    pub encryption_key: Option<String>,
    /// Optional proactive FEC — must match the bonded output's geometry.
    pub fec: Option<BondFecConfig>,
    /// Optional ingress de-jitter depth in milliseconds applied to the reassembled bond
    /// stream before it reaches the flow's outputs (HDMI display, UDP/RTP egress).
    pub ingress_dejitter_ms: Option<u32>,
    /// Per-leg latency/jitter **equalization** mode on this bonded input (see
    /// `bilbycast-bonding/docs/per-leg-equalization.md`).
    pub equalization: Option<BondEqualizationMode>,
    /// Equalization latency budget in milliseconds — the ceiling for how far a fast leg
    /// is held to align a slow one, and the loss-recovery deadline while aligned.
    pub max_bonding_latency_ms: Option<u32>,
}

/// Per-leg equalization mode for a bonded input/output.
#[derive(Debug, Clone, Copy, PartialEq, Eq, Default)]
pub enum BondEqualizationMode {
    /// Stamp + measure always; engage alignment only when the measured inter-leg skew
    /// is worth the latency, within budget, and the sender isn't ride-fastest.
    #[default]
    Auto,
    /// Never stamp/measure/align — legacy aggregate-but-never-align (the latency-
    /// critical escape hatch: a slow leg's reorder is ARQ/FEC-recovered rather than
    /// absorbed by alignment latency).
    Off,
    /// Force-engage alignment whenever a leg is warm, overriding the ride-fastest
    /// (duplicate-all) suppression.
    On,
}

/// Bonded output — subscribes to the flow's broadcast channel, frames each packet into
/// the bond header, and transmits across N paths using the configured scheduler.
#[derive(Debug, Clone, PartialEq)]
pub struct BondedOutputConfig {
    /// Unique output ID within the flow.
    pub id: String,
    /// Human-readable name.
    pub name: String,
    /// Whether this output is currently active.
    pub active: bool,
    /// Optional free-form group tag.
    pub group: Option<String>,
    /// Bond-layer flow identifier — must match the receiver end.
    pub bond_flow_id: u32,
    /// Paths to transmit across.
    pub paths: Vec<BondPathConfig>,
    /// Scheduling policy.
    pub scheduler: BondSchedulerKind,
    /// Optional congestion-control tuning for the `adaptive` scheduler.
    pub congestion: Option<BondCongestionConfig>,
    /// Optional proactive FEC (off by default).
    pub fec: Option<BondFecConfig>,
    /// Optional packet **redundancy** (off by default).
    pub redundancy: Option<BondRedundancyConfig>,
    /// Optional 64-hex-char (32-byte) AEAD key.
    pub encryption_key: Option<String>,
    /// Sender retransmit buffer capacity in packets.
    pub retransmit_capacity: Option<usize>,
    /// Per-leg latency/jitter **equalization** mode (see `bilbycast-bonding/docs/per-
    /// leg-equalization.md`).
    pub equalization: Option<BondEqualizationMode>,
    /// Equalization latency budget in milliseconds — the single bonding-latency knob
    /// (default 1000).
    pub max_bonding_latency_ms: Option<u32>,
    /// Keepalive interval in milliseconds.
    pub keepalive_ms: Option<u32>,
    /// Smallest IP-layer path MTU (bytes) across this bond's legs.
    pub path_mtu: Option<u32>,
    /// Optional MPTS `program_number` filter applied before bonding (mirrors other TS-
    /// native outputs).
    pub program_number: Option<u16>,
    /// Optional PID remapping applied after `program_number` filtering and before
    /// bonding.
    pub pid_map: Option<BTreeMap<u16, u16>>,
    /// QoS priority tier for the shared-leg capacity broker (default `best_effort`).
    pub priority: Option<BondPriority>,
}

/// A single bond leg definition.
#[derive(Debug, Clone, PartialEq)]
pub struct BondPathConfig {
    /// Path identifier — must be unique within the paths array.
    pub id: u8,
    /// Operator-visible name (e.g. `"lte-0"`, `"starlink"`).
    pub name: String,
    /// Scheduler weight hint; higher = more traffic at steady state.
    pub weight_hint: u32,
    /// Optional **hard upper bound** on this leg's send rate, bits/sec.
    pub max_bitrate_bps: Option<u64>,
    /// Optional **per-leg** FEC for this path (interleaved XOR).
    pub fec: Option<BondFecConfig>,
    /// Transport flavour.
    pub transport: BondPathTransportConfig,
}

/// Congestion-control tuning for the `adaptive` bonded-output scheduler.
#[derive(Debug, Clone, PartialEq, Default)]
pub struct BondCongestionConfig {
    /// Floor each link's capacity estimate never drops below, kbps.
    pub min_rate_kbps: Option<u32>,
    /// Starting capacity estimate (before measurement) for a unit-weight link, kbps.
    pub start_rate_kbps: Option<u32>,
    /// Loss percent below which a link is "clean" and probes up.
    pub loss_low_pct: Option<Binary32>,
    /// Loss percent at/above which a link backs off hard.
    pub loss_high_pct: Option<Binary32>,
    /// RTT inflation over a link's own minimum treated as queue-building congestion
    /// (delay-based signal), milliseconds.
    pub delay_inflation_ms: Option<u32>,
    /// Auto-derive the queue-building delay threshold per link from its own measured
    /// baseline RTT instead of using a fixed `delay_inflation_ms`.
    pub delay_inflation_auto: Option<bool>,
    /// Token-bucket burst depth, milliseconds of capacity.
    pub burst_ms: Option<u32>,
    /// Evidence bound on the probed capacity: once a delivered rate has been measured,
    /// a link's estimate never exceeds `delivered × probe_cap_mult` — bounds
    /// undersubscribed-bond inflation while still letting the estimate grow after a
    /// failover.
    pub probe_cap_mult: Option<Binary64>,
    /// Window over which each link's minimum RTT baseline is tracked (BBR-style),
    /// milliseconds — a route change that shifts the RTT floor ages out of the window
    /// instead of reading as permanent congestion.
    pub rtt_min_window_ms: Option<u64>,
    /// Smoothed interarrival jitter (milliseconds) above which a link is demoted from
    /// carrying UNIQUE media — it keeps carrying redundancy / FEC copies (late copies
    /// are harmless insurance) but can no longer head-of-line-block the in-order
    /// reassembly of the whole flow.
    pub jitter_demote_ms: Option<u32>,
}

/// FEC algorithm for a bonded link.
#[derive(Debug, Clone, Copy, PartialEq, Eq, Default)]
pub enum BondFecAlgorithm {
    /// Interleaved XOR (SMPTE 2022-1 column model) — recovers one loss per column.
    #[default]
    Xor,
    /// Reed-Solomon — recovers up to `parity` losses per `data+parity` block.
    ReedSolomon,
}

/// Proactive FEC geometry for a bonded link.
#[derive(Debug, Clone, Copy, PartialEq, Eq)]
pub struct BondFecConfig {
    pub columns: u16,
    pub rows: u16,
    /// FEC algorithm.
    pub algorithm: Option<BondFecAlgorithm>,
    /// Reed-Solomon **adaptive** parity ceiling.
    pub parity_max: Option<u16>,
}

/// Packet-redundancy mode for a bonded output.
#[derive(Debug, Clone, Copy, PartialEq, Eq, Default)]
pub enum BondRedundancyMode {
    /// No extra replication (only Critical/IDR keyframes still duplicate).
    #[default]
    Off,
    /// Replicate every packet across the N best legs (N× bandwidth).
    All,
    /// Replicate only packets at/above `min_priority` across the N best legs.
    Threshold,
}

/// Priority threshold for `threshold`-mode redundancy.
#[derive(Debug, Clone, Copy, PartialEq, Eq)]
pub enum BondRedundancyPriority {
    Normal,
    High,
    Critical,
}

/// Optional packet redundancy on a bonded output — replicate packets across several
/// legs for max loss-resilience over flaky links.
#[derive(Debug, Clone, Copy, PartialEq, Eq)]
pub struct BondRedundancyConfig {
    pub mode: BondRedundancyMode,
    /// For `threshold` mode: replicate packets at/above this priority.
    pub min_priority: Option<BondRedundancyPriority>,
    /// Number of legs to replicate across (2–8).
    pub replicas: Option<u8>,
}

/// Transport enum for a single bond leg.
#[derive(Debug, Clone, PartialEq)]
pub enum BondPathTransportConfig {
    /// Raw UDP — bidirectional, simplest path.
    Udp {
        /// Local bind `ip:port`.
        bind: Option<String>,
        /// Remote peer `ip:port`.
        remote: Option<String>,
        /// Optional NIC pin (e.g. `"eth0"`, `"wwan0"`).
        interface: Option<String>,
        /// **Gateway-mode** path selection (sender side only).
        gateway: Option<String>,
        /// Source address (`ip/prefix`, e.g. `192.168.10.2/24`) this leg binds to,
        /// inside the `gateway`'s subnet.
        source: Option<String>,
    },
    /// **Relayed** leg — this bond leg rides a native plain-UDP relay tunnel **in-
    /// process** (no `127.0.0.1` loopback hop).
    Relay {
        /// Relay tunnel id (UUID) — stamped by the manager FK; both ends share it so
        /// the relay pairs the ingress + egress halves.
        tunnel_id: String,
        /// Relay address(es) `host:port`.
        relay_addrs: Vec<String>,
        /// Optional 64-hex (32-byte) relay bind secret → HMAC-SHA256 bind token in the
        /// `Register` (same auth the native SRT/RIST relay tunnel uses).
        tunnel_bind_secret: Option<String>,
        /// Optional 64-hex (32-byte) per-leg tunnel AEAD key.
        tunnel_encryption_key: Option<String>,
        /// Optional NIC pin (`"wwan0"`, `"eno4"`) for the bridge's outbound relay
        /// socket — same `SO_BINDTODEVICE` → `IP_UNICAST_IF` mechanism as the UDP leg.
        interface: Option<String>,
        /// Optional source address (`ip` or `ip/prefix`) the bridge socket binds to.
        source: Option<String>,
        /// Optional gateway-mode next-hop.
        gateway: Option<String>,
    },
    /// RIST Simple Profile leg.
    Rist {
        role: BondRistRole,
        /// Remote RIST receiver (sender role).
        remote: Option<String>,
        /// Local bind.
        local_bind: Option<String>,
        /// RIST buffer in milliseconds (default 1000 ms).
        buffer_ms: Option<u32>,
    },
    /// QUIC path (TLS 1.3 + DATAGRAM extension).
    Quic {
        /// QUIC role.
        role: BondQuicRole,
        /// Client: remote `host:port`.
        addr: String,
        /// Client: server name for SNI/ALPN.
        server_name: String,
        tls: BondQuicTls,
        /// Client-only local source bind `ip:port` (port usually 0) to pin egress on a
        /// multi-homed sender.
        bind: Option<String>,
        /// NIC pin (e.g. `"eno4"`, `"wwan0"`) — same `SO_BINDTODEVICE` →
        /// `IP_UNICAST_IF` mechanism as the UDP leg.
        interface: Option<String>,
    },
}

#[derive(Debug, Clone, Copy, PartialEq, Eq)]
pub enum BondRistRole {
    Sender,
    Receiver,
}

#[derive(Debug, Clone, Copy, PartialEq, Eq, Default)]
pub enum BondQuicRole {
    /// Default — overridden by the leg's side at build time (output → client, input →
    /// server).
    #[default]
    Client,
    Server,
}

/// QUIC TLS material.
#[derive(Debug, Clone, PartialEq)]
pub enum BondQuicTls {
    /// Self-signed in-process (dev / loopback / trusted LAN).
    SelfSigned,
    /// PEM cert chain + private key, loaded from on-disk paths.
    Pem {
        cert_chain_path: String,
        private_key_path: String,
        client_trust_root_path: Option<String>,
    },
}

/// QoS priority tier for a bonded flow, used by the shared-leg capacity broker when
/// several bonded flows share one physical uplink.
#[derive(Debug, Clone, Copy, PartialEq, Eq, Default)]
pub enum BondPriority {
    /// Highest — reserved before everything else (the main programme feed).
    Critical,
    /// Guaranteed, but yields to `Critical` under contention.
    Normal,
    /// Spare-only — takes whatever capacity the guaranteed flows leave.
    #[default]
    BestEffort,
}

/// Scheduling policy for a bonded output.
#[derive(Debug, Clone, Copy, PartialEq, Eq, Default)]
pub enum BondSchedulerKind {
    /// Equal-weight rotation — simplest policy, fine for links with nearly identical
    /// health.
    RoundRobin,
    /// RTT-weighted rotation — sends more traffic to lower-RTT paths and duplicates
    /// `Critical`-priority packets across the two lowest-RTT paths.
    WeightedRtt,
    /// RTT-weighted plus NAL-type detection: walks H.264 / HEVC NAL boundaries in the
    /// outbound TS stream, tags SPS / PPS / IDR (H.264 types 7, 8, 5; HEVC
    /// VPS/SPS/PPS/IDR_W_RADL/IDR_N_LP) as `Priority::Critical` so the scheduler
    /// duplicates them across the two best paths.
    MediaAware,
    /// **Capacity-aware congestion-controlled** scheduler plus the same NAL-type IDR
    /// detection as `media_aware`.
    #[default]
    Adaptive,
}

/// RTMP/RTMPS output configuration for publishing to streaming platforms.
#[derive(Debug, Clone, PartialEq)]
pub struct RtmpOutputConfig {
    /// Unique output ID within this flow.
    pub id: String,
    /// Human-readable name.
    pub name: String,
    /// Whether this output is currently active.
    pub active: bool,
    /// Optional free-form group tag (max 64 chars) for UI grouping.
    pub group: Option<String>,
    /// RTMP destination URL, e.g. "rtmp://live.twitch.tv/app" or
    /// "rtmps://a.rtmps.youtube.com/live2".
    pub dest_url: String,
    /// Stream key for authentication.
    pub stream_key: String,
    /// Reconnect delay in seconds after connection failure (default: 5).
    pub reconnect_delay_secs: u64,
    /// Maximum reconnection attempts.
    pub max_reconnect_attempts: Option<u32>,
    /// MPEG-TS program_number to extract elementary streams from when the input is an
    /// MPTS.
    pub program_number: Option<u16>,
    /// Optional audio encode block.
    pub audio_encode: Option<AudioEncodeConfig>,
    /// Optional audio channel shuffle / sample-rate transcode applied to the decoded
    /// PCM **before** `audio_encode` re-encodes.
    pub transcode: Option<TranscodeJson>,
    /// Optional video encode block (x264 / x265 / NVENC, feature-gated).
    pub video_encode: Option<VideoEncodeConfig>,
    /// Optional MPEG-TS PID overrides for the transcoded output.
    pub pid_overrides: Option<TsPidOverridesMap>,
}

/// HLS ingest output configuration for YouTube HLS or similar endpoints.
#[derive(Debug, Clone, PartialEq)]
pub struct HlsOutputConfig {
    /// Unique output ID within this flow.
    pub id: String,
    /// Human-readable name.
    pub name: String,
    /// Whether this output is currently active.
    pub active: bool,
    /// Optional free-form group tag (max 64 chars) for UI grouping.
    pub group: Option<String>,
    /// HLS ingest URL (base URL for segment and playlist uploads).
    pub ingest_url: String,
    /// Target segment duration in seconds (default: 2.0, range: 0.5-10.0).
    pub segment_duration_secs: Binary64,
    /// Optional authentication token (sent as Authorization: Bearer header).
    pub auth_token: Option<String>,
    /// Maximum number of segments in the rolling playlist (default: 5).
    pub max_segments: usize,
    /// If set, filter the (possibly MPTS) input stream down to this single MPEG-TS
    /// program before segmenting.
    pub program_number: Option<u16>,
    /// Optional PID remapping applied to the TS bytes before segmentation.
    pub pid_map: Option<BTreeMap<u16, u16>>,
    /// Optional audio encode block.
    pub audio_encode: Option<AudioEncodeConfig>,
    /// Optional audio channel shuffle / sample-rate transcode applied to the decoded
    /// PCM **before** `audio_encode` re-encodes.
    pub transcode: Option<TranscodeJson>,
}

/// CMAF / CMAF-LL output.
#[derive(Debug, Clone, PartialEq)]
pub struct CmafOutputConfig {
    /// Unique output ID.
    pub id: String,
    /// Human-readable name.
    pub name: String,
    /// Whether this output is currently active.
    pub active: bool,
    /// Optional free-form group tag.
    pub group: Option<String>,
    /// Base URL for segment / init / manifest uploads.
    pub ingest_url: String,
    /// Enable Low-Latency CMAF (chunked-transfer streaming PUT per segment plus `#EXT-
    /// X-PART` / `availabilityTimeOffset` in manifests).
    pub low_latency: bool,
    /// LL-CMAF chunk duration in milliseconds.
    pub chunk_duration_ms: u32,
    /// Target segment (GoP) duration in seconds.
    pub segment_duration_secs: Binary64,
    /// Maximum number of segments in the rolling playlist.
    pub max_segments: usize,
    /// Manifests to publish.
    pub manifests: Vec<String>,
    /// Optional ClearKey CENC encryption.
    pub encryption: Option<CencConfig>,
    /// Optional audio encode block.
    pub audio_encode: Option<AudioEncodeConfig>,
    /// Optional PCM transcode (channel shuffle / SRC / bit-depth), sits between the AAC
    /// decoder and `audio_encode`.
    pub transcode: Option<TranscodeJson>,
    /// Optional video encode block.
    pub video_encode: Option<VideoEncodeConfig>,
    /// Optional MPEG-TS PID overrides for the transcoded output.
    pub pid_overrides: Option<TsPidOverridesMap>,
    /// MPTS program filter.
    pub program_number: Option<u16>,
    /// Optional Bearer token sent as `Authorization: Bearer {token}` on every upload.
    pub auth_token: Option<String>,
}

/// Common Encryption (ISO/IEC 23001-7) configuration for a CMAF output.
#[derive(Debug, Clone, PartialEq)]
pub struct CencConfig {
    /// Key ID, exactly 32 lowercase or uppercase hex characters (16 bytes).
    pub key_id: String,
    /// AES-128 content key, exactly 32 hex characters (16 bytes).
    pub key: String,
    /// Encryption scheme: `"cenc"` (AES-128 CTR, the default) or `"cbcs"` (AES-128 CBC
    /// with 1:9 block pattern, required for FairPlay).
    pub scheme: String,
    /// Optional pre-built `pssh` box payloads (hex-encoded), one per additional DRM
    /// system.
    pub pssh_boxes: Vec<String>,
}

/// WebRTC output mode.
#[derive(Debug, Clone, PartialEq, Default)]
pub enum WebrtcOutputMode {
    /// Push media to an external WHIP endpoint (edge acts as WHIP client).
    #[default]
    WhipClient,
    /// Serve media to browser viewers via WHEP (edge acts as WHEP server).
    WhepServer,
}

/// WebRTC output configuration.
#[derive(Debug, Clone, PartialEq)]
pub struct WebrtcOutputConfig {
    /// Unique output ID within this flow.
    pub id: String,
    /// Human-readable name.
    pub name: String,
    /// Whether this output is currently active.
    pub active: bool,
    /// Optional free-form group tag (max 64 chars) for UI grouping.
    pub group: Option<String>,
    /// Output mode: `"whip_client"` or `"whep_server"`.
    pub mode: WebrtcOutputMode,
    /// WHIP endpoint URL (required for `whip_client` mode).
    pub whip_url: Option<String>,
    /// Optional Bearer token for WHIP/WHEP authentication.
    pub bearer_token: Option<String>,
    /// Accept self-signed TLS certificates on the WHIP endpoint (`whip_client` mode
    /// only — `whep_server` is the receiving side and does not dial TLS).
    pub accept_self_signed_cert: Option<bool>,
    /// SHA-256 fingerprint of the expected WHIP server certificate (colon-separated
    /// hex).
    pub cert_fingerprint: Option<String>,
    /// Maximum concurrent viewers (WHEP server mode only, default: 10).
    pub max_viewers: Option<u32>,
    /// Public IP to advertise in ICE candidates (for NAT traversal).
    pub public_ip: Option<String>,
    /// When true, only video is sent (audio track omitted).
    pub video_only: bool,
    /// MPEG-TS program_number to extract elementary streams from when the input is an
    /// MPTS.
    pub program_number: Option<u16>,
    /// Optional audio encode block.
    pub audio_encode: Option<AudioEncodeConfig>,
    /// Optional audio channel shuffle / sample-rate transcode applied to the decoded
    /// PCM **before** the Opus encoder.
    pub transcode: Option<TranscodeJson>,
    /// Optional video encode block.
    pub video_encode: Option<VideoEncodeConfig>,
    /// Force a browser-safe ("WebRTC-compatible") H.264 egress.
    pub webrtc_compatible: bool,
    /// Optional MPEG-TS PID overrides for the transcoded output.
    pub pid_overrides: Option<TsPidOverridesMap>,
}

/// Video encoder configuration block.
#[derive(Debug, Clone, PartialEq)]
pub struct VideoEncodeConfig {
    /// Encoder backend.
    pub codec: String,
    /// Optional source video PID to transcode.
    pub source_video_pid: Option<u16>,
    /// Output width in pixels.
    pub width: Option<u32>,
    /// Output height in pixels.
    pub height: Option<u32>,
    /// Output frame-rate numerator (e.g. 30000 for 29.97 fps).
    pub fps_num: Option<u32>,
    /// Output frame-rate denominator (e.g. 1001 for 29.97 fps).
    pub fps_den: Option<u32>,
    /// Target average bitrate in kbps.
    pub bitrate_kbps: Option<u32>,
    /// Keyframe interval (GOP size) in frames.
    pub gop_size: Option<u32>,
    /// Speed/quality preset.
    pub preset: Option<String>,
    /// H.264/HEVC profile target.
    pub profile: Option<String>,
    /// Chroma subsampling for the encoded bitstream.
    pub chroma: Option<String>,
    /// Sample bit depth.
    pub bit_depth: Option<u8>,
    /// Rate-control mode.
    pub rate_control: Option<String>,
    /// Constant rate factor (quality target) for `rate_control == "crf"`.
    pub crf: Option<u8>,
    /// Max bitrate cap in kbps for VBR (`rc_max_rate`) or CBR ceiling.
    pub max_bitrate_kbps: Option<u32>,
    /// Consecutive B-frames.
    pub bframes: Option<u8>,
    /// Reference frames count.
    pub refs: Option<u8>,
    /// Codec level — e.g. `"3.0"`, `"4.0"`, `"5.1"`.
    pub level: Option<String>,
    /// Encoder `tune` hint — one of: `zerolatency` (default), `film`, `animation`,
    /// `grain`, `stillimage`, `fastdecode`, `psnr`, `ssim`.
    pub tune: Option<String>,
    /// Colour primaries — one of: `bt709`, `bt2020`, `smpte170m`, `smpte240m`,
    /// `bt470m`, `bt470bg`.
    pub color_primaries: Option<String>,
    /// Transfer characteristics — one of: `bt709`, `smpte170m`, `smpte2084` (PQ),
    /// `arib-std-b67` (HLG), `bt2020-10`, `bt2020-12`.
    pub color_transfer: Option<String>,
    /// Matrix coefficients — one of: `bt709`, `bt2020nc`, `bt2020c`, `smpte170m`,
    /// `smpte240m`.
    pub color_matrix: Option<String>,
    /// Colour range — `tv` (limited, default) or `pc` (full).
    pub color_range: Option<String>,
    /// Hardware-decoder preference for the input decode side of the transcode pipeline.
    pub hw_decode: Option<HwDecodePreference>,
}

/// Audio encoder configuration block.
#[derive(Debug, Clone, PartialEq)]
pub struct AudioEncodeConfig {
    /// Codec name.
    pub codec: String,
    /// Optional source audio PID to transcode.
    pub source_audio_pid: Option<u16>,
    /// Optional bitrate in kbps.
    pub bitrate_kbps: Option<u32>,
    /// Optional output sample rate in Hz.
    pub sample_rate: Option<u32>,
    /// Optional output channel count (1 or 2).
    pub channels: Option<u8>,
    /// If true, inject a continuous zero-filled (silent) PCM track into the encoder
    /// whenever the upstream source has no audio PID, or stops delivering audio mid-
    /// stream (watchdog, see `engine::audio_silence`).
    pub silent_fallback: bool,
    /// **Opus-specific.** Rate-control mode.
    pub opus_vbr_mode: Option<String>,
    /// **Opus-specific.** Forward Error Correction (in-band redundancy for the previous
    /// frame).
    pub opus_fec: bool,
    /// **Opus-specific.** Discontinuous Transmission — encoder skips frames during
    /// silence to save bandwidth.
    pub opus_dtx: bool,
    /// **Opus-specific.** Frame duration in milliseconds.
    pub opus_frame_duration_ms: Option<u8>,
}

/// Per-program MPEG-TS PID override block.
#[derive(Debug, Clone, Default, PartialEq, Eq)]
pub struct TsPidOverridesEntry {
    /// Override the PMT PID for this program.
    pub pmt_pid: Option<u16>,
    /// Override the video PES PID for this program.
    pub video_pid: Option<u16>,
    /// Override the audio PES PID for this program.
    pub audio_pid: Option<u16>,
    /// Per-source-PID audio remap for multi-language / multi-track programs.
    pub audio_pids: Option<BTreeMap<u16, u16>>,
    /// Override the PCR PID for this program.
    pub pcr_pid: Option<u16>,
}

/// Map from `program_number` → per-program PID overrides.
pub type TsPidOverridesMap = BTreeMap<u16, TsPidOverridesEntry>;

/// SMPTE 2022-1 FEC parameters.
#[derive(Debug, Clone, PartialEq)]
pub struct FecConfig {
    /// Number of columns (L parameter), typically 5-20.
    pub columns: u8,
    /// Number of rows (D parameter), typically 5-20.
    pub rows: u8,
}

/// Second-leg bind for SMPTE 2022-7 dual-network (Red/Blue) operation.
#[derive(Debug, Clone, PartialEq)]
pub struct RedBlueBindConfig {
    /// Second-leg socket address.
    pub addr: String,
    /// Network interface IP for multicast on leg 2 (optional).
    pub interface_addr: Option<String>,
    /// Source-specific multicast (SSM) source for this leg.
    pub source_addr: Option<String>,
    /// Pin this leg to a physical NIC.
    pub interface_binding: Option<InterfaceBinding>,
}

/// SMPTE ST 2110-30 / -31 audio input configuration.
#[derive(Debug, Clone, PartialEq)]
pub struct St2110AudioInputConfig {
    /// Primary (Red) bind address, e.g. "239.10.10.1:5004" or "0.0.0.0:5004".
    pub bind_addr: String,
    /// Network interface IP for multicast join on the primary leg (optional).
    pub interface_addr: Option<String>,
    /// Source-specific multicast (SSM) source for the primary leg — see
    /// `RtpInputConfig::source_addr`.
    pub source_addr: Option<String>,
    /// Optional SMPTE 2022-7 second leg (Blue network).
    pub redundancy: Option<RedBlueBindConfig>,
    /// Sample rate in Hz.
    pub sample_rate: u32,
    /// Bit depth per sample.
    pub bit_depth: u8,
    /// Channel count: 1, 2, 4, 8, or 16.
    pub channels: u8,
    /// RTP packet time in microseconds.
    pub packet_time_us: u32,
    /// Dynamic RTP payload type (96..=127).
    pub payload_type: u8,
    /// PTP clock domain (IEEE 1588), 0..=127.
    pub clock_domain: Option<u8>,
    /// Source IP allow-list (RP 2129 C5).
    pub allowed_sources: Option<Vec<String>>,
    /// Maximum ingress bitrate in Mbps (RP 2129 C7).
    pub max_bitrate_mbps: Option<Binary64>,
    /// Optional planar PCM transcode applied between PCM depacketization and re-
    /// packetization.
    pub transcode: Option<TranscodeJson>,
    /// Optional ingress audio re-encode.
    pub audio_encode: Option<AudioEncodeConfig>,
    /// Optional MPEG-TS PID overrides for the synthesised TS that the PCM-encode stage
    /// emits (only consulted when `audio_encode` is set; ignored when the PCM input
    /// feeds the broadcast channel as raw PCM-RTP).
    pub pid_overrides: Option<TsPidOverridesMap>,
    /// Pin this ST 2110 audio input to a physical NIC.
    pub interface_binding: Option<InterfaceBinding>,
}

/// SMPTE ST 2110-30 / -31 audio output configuration.
#[derive(Debug, Clone, PartialEq)]
pub struct St2110AudioOutputConfig {
    /// Unique output ID within this flow.
    pub id: String,
    /// Human-readable name.
    pub name: String,
    /// Whether this output is currently active.
    pub active: bool,
    /// Optional free-form group tag (max 64 chars) for UI grouping.
    pub group: Option<String>,
    /// Primary (Red) destination address.
    pub dest_addr: String,
    /// Source bind address (optional, defaults to "0.0.0.0:0").
    pub bind_addr: Option<String>,
    /// Network interface IP for multicast send on the primary leg (optional).
    pub interface_addr: Option<String>,
    /// Optional SMPTE 2022-7 second leg (Blue network).
    pub redundancy: Option<RedBlueBindConfig>,
    /// Sample rate in Hz (48000 default, 96000 allowed).
    pub sample_rate: u32,
    /// Bit depth per sample (16 or 24 for -30; 24 for -31).
    pub bit_depth: u8,
    /// Channel count (1, 2, 4, 8, 16).
    pub channels: u8,
    /// RTP packet time in microseconds.
    pub packet_time_us: u32,
    /// Dynamic RTP payload type (96..=127).
    pub payload_type: u8,
    /// PTP clock domain (0..=127).
    pub clock_domain: Option<u8>,
    /// DSCP value for QoS marking (0-63).
    pub dscp: u8,
    /// Optional fixed RTP SSRC.
    pub ssrc: Option<u32>,
    /// Optional per-output PCM transcode block.
    pub transcode: Option<TranscodeJson>,
    /// Audio track selector for de-embedding from MPEG-TS inputs.
    pub audio_track_index: Option<u8>,
    /// Pin this ST 2110 audio output to a physical NIC.
    pub interface_binding: Option<InterfaceBinding>,
}

/// Generic RFC 3551 PCM-over-RTP audio input — no ST 2110 baggage.
#[derive(Debug, Clone, PartialEq)]
pub struct RtpAudioInputConfig {
    /// Local UDP bind address (e.g. "0.0.0.0:5004" or "239.10.10.1:5004").
    pub bind_addr: String,
    /// Multicast NIC IP for joining (optional).
    pub interface_addr: Option<String>,
    /// Source-specific multicast (SSM) source — see `RtpInputConfig::source_addr`.
    pub source_addr: Option<String>,
    /// Optional SMPTE 2022-7 second leg.
    pub redundancy: Option<RedBlueBindConfig>,
    /// Sample rate in Hz.
    pub sample_rate: u32,
    /// PCM bit depth: 16 or 24.
    pub bit_depth: u8,
    /// Channel count: 1..=16.
    pub channels: u8,
    /// RTP packet time in microseconds.
    pub packet_time_us: u32,
    /// Dynamic RTP payload type (96..=127).
    pub payload_type: u8,
    /// Source IP allow-list (RP 2129 C5).
    pub allowed_sources: Option<Vec<String>>,
    /// Optional planar PCM transcode.
    pub transcode: Option<TranscodeJson>,
    /// Optional ingress audio re-encode.
    pub audio_encode: Option<AudioEncodeConfig>,
    /// Optional MPEG-TS PID overrides for the synthesised TS that the PCM-encode stage
    /// emits (only consulted when `audio_encode` is set).
    pub pid_overrides: Option<TsPidOverridesMap>,
    /// Pin this RTP audio input to a physical NIC.
    pub interface_binding: Option<InterfaceBinding>,
}

/// Generic RFC 3551 PCM-over-RTP audio output.
#[derive(Debug, Clone, PartialEq)]
pub struct RtpAudioOutputConfig {
    pub id: String,
    pub name: String,
    /// Whether this output is currently active.
    pub active: bool,
    /// Optional free-form group tag (max 64 chars) for UI grouping.
    pub group: Option<String>,
    pub dest_addr: String,
    pub bind_addr: Option<String>,
    pub interface_addr: Option<String>,
    pub redundancy: Option<RedBlueBindConfig>,
    pub sample_rate: u32,
    pub bit_depth: u8,
    pub channels: u8,
    pub packet_time_us: u32,
    pub payload_type: u8,
    pub dscp: u8,
    pub ssrc: Option<u32>,
    /// Optional per-output PCM transcode block (see St2110AudioOutputConfig.transcode).
    pub transcode: Option<TranscodeJson>,
    /// Audio track selector for de-embedding from MPEG-TS inputs.
    pub audio_track_index: Option<u8>,
    /// Transport mode: `"rtp"` (default) sends RFC 3551 PCM over UDP, `"audio_302m"`
    /// wraps the PCM as SMPTE 302M LPCM in MPEG-TS and sends the TS via RTP/MP2T (RFC
    /// 2250).
    pub transport_mode: Option<String>,
    /// Optional MPEG-TS PID overrides for the synthesised TS that the `audio_302m`
    /// transport mode emits (ignored in plain RTP mode).
    pub pid_overrides: Option<TsPidOverridesMap>,
    /// Pin this RTP audio output to a physical NIC.
    pub interface_binding: Option<InterfaceBinding>,
}

/// SMPTE ST 2110-40 ancillary data input configuration.
#[derive(Debug, Clone, PartialEq)]
pub struct St2110AncillaryInputConfig {
    /// Primary (Red) bind address.
    pub bind_addr: String,
    /// Network interface IP for multicast join on the primary leg (optional).
    pub interface_addr: Option<String>,
    /// Source-specific multicast (SSM) source for the primary leg — see
    /// `RtpInputConfig::source_addr`.
    pub source_addr: Option<String>,
    /// Optional SMPTE 2022-7 second leg (Blue network).
    pub redundancy: Option<RedBlueBindConfig>,
    /// Dynamic RTP payload type (96..=127).
    pub payload_type: u8,
    /// PTP clock domain (0..=127).
    pub clock_domain: Option<u8>,
    /// Source IP allow-list (RP 2129 C5).
    pub allowed_sources: Option<Vec<String>>,
    /// Pin this ST 2110-40 ancillary input to a physical NIC.
    pub interface_binding: Option<InterfaceBinding>,
}

/// SMPTE ST 2110-40 ancillary data output configuration.
#[derive(Debug, Clone, PartialEq)]
pub struct St2110AncillaryOutputConfig {
    /// Unique output ID within this flow.
    pub id: String,
    /// Human-readable name.
    pub name: String,
    /// Whether this output is currently active.
    pub active: bool,
    /// Optional free-form group tag (max 64 chars) for UI grouping.
    pub group: Option<String>,
    /// Primary (Red) destination address.
    pub dest_addr: String,
    /// Source bind address (optional, defaults to "0.0.0.0:0").
    pub bind_addr: Option<String>,
    /// Network interface IP for multicast send on the primary leg (optional).
    pub interface_addr: Option<String>,
    /// Optional SMPTE 2022-7 second leg (Blue network).
    pub redundancy: Option<RedBlueBindConfig>,
    /// Dynamic RTP payload type (96..=127).
    pub payload_type: u8,
    /// PTP clock domain (0..=127).
    pub clock_domain: Option<u8>,
    /// DSCP value for QoS marking (0-63).
    pub dscp: u8,
    /// Optional fixed RTP SSRC.
    pub ssrc: Option<u32>,
    /// Pin this ST 2110-40 ancillary output to a physical NIC.
    pub interface_binding: Option<InterfaceBinding>,
}

/// RFC 4175 pixel format for ST 2110-20 / -23 on the wire.
#[derive(Debug, Clone, Copy, PartialEq, Eq)]
pub enum St2110VideoPixelFormat {
    Yuv422_8bit,
    Yuv422_10bit,
}

/// Partition mode for ST 2110-23 multi-stream video.
#[derive(Debug, Clone, Copy, PartialEq, Eq)]
pub enum St2110_23PartitionModeConfig {
    TwoSampleInterleave,
    SampleRow,
}

/// ST 2110-20 (uncompressed video) input configuration.
#[derive(Debug, Clone, PartialEq)]
pub struct St2110VideoInputConfig {
    pub bind_addr: String,
    pub interface_addr: Option<String>,
    /// Source-specific multicast (SSM) source for the primary leg — see
    /// `RtpInputConfig::source_addr`.
    pub source_addr: Option<String>,
    pub redundancy: Option<RedBlueBindConfig>,
    pub width: u32,
    pub height: u32,
    /// Frame-rate numerator (e.g. 30000 for 29.97 fps, 60 for 60 fps).
    pub frame_rate_num: u32,
    /// Frame-rate denominator (e.g. 1001 for 29.97 fps, 1 for 60 fps).
    pub frame_rate_den: u32,
    /// Wire pgroup format.
    pub pixel_format: St2110VideoPixelFormat,
    /// Dynamic RTP payload type (96..=127).
    pub payload_type: u8,
    pub clock_domain: Option<u8>,
    pub allowed_sources: Option<Vec<String>>,
    pub max_bitrate_mbps: Option<Binary64>,
    /// Mandatory encoder block.
    pub video_encode: VideoEncodeConfig,
    /// Optional MPEG-TS PID overrides for the synthesised TS that the 2110-20 encode
    /// stage emits.
    pub pid_overrides: Option<TsPidOverridesMap>,
    /// Pin this ST 2110-20 video input to a physical NIC.
    pub interface_binding: Option<InterfaceBinding>,
}

/// ST 2110-20 (uncompressed video) output configuration.
#[derive(Debug, Clone, PartialEq)]
pub struct St2110VideoOutputConfig {
    pub id: String,
    pub name: String,
    pub active: bool,
    pub group: Option<String>,
    pub dest_addr: String,
    pub bind_addr: Option<String>,
    pub interface_addr: Option<String>,
    pub redundancy: Option<RedBlueBindConfig>,
    pub width: u32,
    pub height: u32,
    pub frame_rate_num: u32,
    pub frame_rate_den: u32,
    pub pixel_format: St2110VideoPixelFormat,
    pub payload_type: u8,
    pub clock_domain: Option<u8>,
    pub dscp: u8,
    pub ssrc: Option<u32>,
    /// RTP payload budget per datagram (bytes of payload excluding the RTP header and
    /// RFC 4175 triplet headers).
    pub payload_budget: usize,
    /// Deprecated: pacing is now automatic on every ST 2110-20 output via
    /// `engine::wire_emit`.
    pub wire_pacing: Option<WirePacingConfig>,
    /// Pin this ST 2110-20 video output to a physical NIC.
    pub interface_binding: Option<InterfaceBinding>,
    /// HW backend for the egress video decode (the output decodes the flow's H.264/HEVC
    /// and packetizes raw RFC 4175).
    pub hw_decode: Option<HwDecodePreference>,
}

/// Per-sub-stream bind (ST 2110-23 input).
#[derive(Debug, Clone, PartialEq)]
pub struct St2110_23SubStreamBind {
    pub bind_addr: String,
    pub interface_addr: Option<String>,
    /// Source-specific multicast (SSM) source for this sub-stream's primary leg — see
    /// `RtpInputConfig::source_addr`.
    pub source_addr: Option<String>,
    pub redundancy: Option<RedBlueBindConfig>,
    pub payload_type: u8,
}

/// Per-sub-stream destination (ST 2110-23 output).
#[derive(Debug, Clone, PartialEq)]
pub struct St2110_23SubStreamDest {
    pub dest_addr: String,
    pub bind_addr: Option<String>,
    pub interface_addr: Option<String>,
    pub redundancy: Option<RedBlueBindConfig>,
    pub payload_type: u8,
    pub ssrc: Option<u32>,
}

/// ST 2110-23 input: multiple -20 sub-streams reassembled into one essence.
#[derive(Debug, Clone, PartialEq)]
pub struct St2110_23InputConfig {
    pub sub_streams: Vec<St2110_23SubStreamBind>,
    pub partition_mode: St2110_23PartitionModeConfig,
    pub width: u32,
    pub height: u32,
    pub frame_rate_num: u32,
    pub frame_rate_den: u32,
    pub pixel_format: St2110VideoPixelFormat,
    pub clock_domain: Option<u8>,
    pub video_encode: VideoEncodeConfig,
    /// Optional MPEG-TS PID overrides for the synthesised TS that the 2110-23 encode
    /// stage emits.
    pub pid_overrides: Option<TsPidOverridesMap>,
    /// Pin every ST 2110-23 sub-stream input to a physical NIC.
    pub interface_binding: Option<InterfaceBinding>,
}

/// ST 2110-23 output: one essence split into N sub-stream -20 senders.
#[derive(Debug, Clone, PartialEq)]
pub struct St2110_23OutputConfig {
    pub id: String,
    pub name: String,
    pub active: bool,
    pub group: Option<String>,
    pub sub_streams: Vec<St2110_23SubStreamDest>,
    pub partition_mode: St2110_23PartitionModeConfig,
    pub width: u32,
    pub height: u32,
    pub frame_rate_num: u32,
    pub frame_rate_den: u32,
    pub pixel_format: St2110VideoPixelFormat,
    pub clock_domain: Option<u8>,
    pub dscp: u8,
    pub payload_budget: usize,
    /// Deprecated: pacing is now automatic on every ST 2110-23 sub-stream output via
    /// `engine::wire_emit`.
    pub wire_pacing: Option<WirePacingConfig>,
    /// Pin every ST 2110-23 sub-stream output to a physical NIC.
    pub interface_binding: Option<InterfaceBinding>,
    /// HW backend for the egress video decode — same semantics as
    /// [`St2110VideoOutputConfig::hw_decode`].
    pub hw_decode: Option<HwDecodePreference>,
}

/// ST 2110-21 sender profile per ST 2110-21 §6.3.
#[derive(Debug, Clone, Copy, PartialEq, Eq)]
pub enum St2110_21ProfileConfig {
    Narrow,
    NarrowLinear,
    Wide,
}

/// Wire-pacing mode for an output.
#[derive(Debug, Clone, PartialEq)]
pub enum WirePacingConfig {
    /// Kernel-paced via `SO_TXTIME` + ETF qdisc.
    TxTime {
        profile: St2110_21ProfileConfig,
    },
}

/// SMPTE ST 2110 flow group ("essence bundle") configuration.
#[derive(Debug, Clone, PartialEq)]
pub struct FlowGroupConfig {
    /// Unique identifier for this flow group (max 64 chars).
    pub id: String,
    /// Human-readable name (max 256 chars).
    pub name: String,
    /// PTP clock domain (IEEE 1588), 0..=127, shared by all member flows unless they
    /// override it individually.
    pub clock_domain: Option<u8>,
    /// Member flow IDs.
    pub flows: Vec<String>,
}

/// Local-display output: decode the flow's video + audio and render to a physical Linux
/// HDMI/DisplayPort connector + an ALSA audio device.
#[derive(Debug, Clone, PartialEq)]
pub struct DisplayOutputConfig {
    /// Unique output ID within this flow.
    pub id: String,
    /// Human-readable name.
    pub name: String,
    /// Whether this output is currently active.
    pub active: bool,
    /// Optional free-form group tag (max 64 chars) for UI grouping.
    pub group: Option<String>,
    /// KMS connector name from the edge's display enumeration, e.g. `"HDMI-A-1"`,
    /// `"DP-2"`, `"DVI-D-1"`.
    pub device: String,
    /// ALSA device id (`"hw:0,3"`, `"plughw:0,3"`, `"default"`, `"sysdefault"`,
    /// `"pulse"`).
    pub audio_device: Option<String>,
    /// MPEG-TS program filter (1-based; `program_number = 0` is reserved for the NIT
    /// and rejected).
    pub program_number: Option<u16>,
    /// Audio elementary-stream index within the chosen program.
    pub audio_track_index: Option<u8>,
    /// Stereo channel pair to render from the decoded multichannel audio.
    pub audio_channel_pair: [u8; 2],
    /// How the display task chooses the connector's KMS mode.
    pub scaling_mode: DisplayScalingMode,
    /// **Deprecated, ignored at runtime.** Replaced by `scaling_mode`.
    pub resolution: Option<String>,
    /// **Deprecated, ignored at runtime.** Same rationale as `resolution`.
    pub refresh_hz: Option<u32>,
    /// A/V sync mode.
    pub sync_mode: String,
    /// Render a per-PID, per-channel audio level meter strip across the bottom of the
    /// picture.
    pub show_audio_bars: bool,
    /// Operator's hardware-decode preference for this display output.
    pub hw_decode: Option<HwDecodePreference>,
}

/// Per-display-output hardware-decode preference.
#[derive(Debug, Clone, Copy, PartialEq, Eq, Default)]
pub enum HwDecodePreference {
    #[default]
    Auto,
    Cpu,
    Nvdec,
    Qsv,
    Vaapi,
}

/// How the display output picks the connector's KMS mode.
#[derive(Debug, Clone, Copy, PartialEq, Eq, Default)]
pub enum DisplayScalingMode {
    #[default]
    MatchSource,
    MonitorNative,
}

/// Shared identifier for a MXL flow on a domain.
#[derive(Debug, Clone, PartialEq)]
pub struct MxlDomainRef {
    /// Path to the MXL domain directory — typically `/dev/shm/<name>`.
    pub domain_path: String,
    /// MXL flow name (libmxl identifies flows by this string).
    pub flow_name: String,
}

/// MXL **video** input.
#[derive(Debug, Clone, PartialEq)]
pub struct MxlVideoInputConfig {
    /// Shared-memory domain + flow identifier.
    pub mxl: MxlDomainRef,
    /// Video width in pixels.
    pub width: u32,
    /// Video height in pixels.
    pub height: u32,
    /// Frame rate numerator (e.g. 30000 for 29.97).
    pub frame_rate_num: u32,
    /// Frame rate denominator (e.g. 1001 for 29.97).
    pub frame_rate_den: u32,
    /// PTP clock domain (0..=127).
    pub clock_domain: Option<u8>,
    /// Mandatory ingress video encode.
    pub video_encode: VideoEncodeConfig,
    /// MPEG-TS PID overrides for the synthesised TS.
    pub pid_overrides: Option<TsPidOverridesMap>,
}

/// SDI capture input via a Blackmagic DeckLink card (the `sdi` input type, gated by the
/// `sdi-decklink` Cargo feature).
#[derive(Debug, Clone, PartialEq)]
pub struct SdiOutputConfig {
    /// Unique output ID within this flow.
    pub id: String,
    /// Human-readable name.
    pub name: String,
    /// Whether this output is currently active.
    pub active: bool,
    /// Optional free-form group tag (max 64 chars).
    pub group: Option<String>,
    /// DeckLink device display name, e.g. `"DeckLink Quad (1)"`.
    pub device: String,
    /// DeckLink mode FourCC to play out, e.g. `"Hi50"` / `"Hp25"`.
    pub mode: String,
    /// Wire pixel format.
    pub pixel_format: String,
    /// Embedded-audio channel count to play out (2 / 8 / 16).
    pub audio_channels: u8,
    /// MPEG-TS program filter (1-based).
    pub program_number: Option<u16>,
    /// Translate inbound SCTE-35 cues into SCTE-104 VANC on SDI playout.
    pub scte35_injection: bool,
    /// Operator A/V-sync trim for the embedded audio, in milliseconds.
    pub audio_offset_ms: i32,
}

#[derive(Debug, Clone, PartialEq)]
pub struct SdiInputConfig {
    /// DeckLink device display name, e.g. `"DeckLink Quad (1)"`.
    pub device: String,
    /// SDI mode: `"auto"` (card input-format detection, **strongly preferred**) or a
    /// concrete DeckLink mode FourCC such as `"Hi50"` / `"Hp30"`.
    pub format: String,
    /// Wire pixel format.
    pub pixel_format: String,
    /// Embedded-audio channel count to capture (2 / 8 / 16).
    pub audio_channels: u8,
    /// Translate SCTE-104 VANC triggers into an SCTE-35 PID in the egress TS.
    pub scte35_extraction: bool,
    /// Decode SMPTE 12M-2 ATC VANC timecode (DID `0x60`) into a live
    /// `InputStats.sdi_stats.timecode` field.
    pub timecode_extraction: bool,
    /// Detect CEA-608/708 caption presence from VANC (DID `0x61`) — presence and
    /// cc_count only, not caption text.
    pub captions_extraction: bool,
    /// Mandatory ingress video encode (mirrors `MxlVideoInputConfig`).
    pub video_encode: VideoEncodeConfig,
    /// Optional embedded-audio re-encode into the muxed TS audio PID.
    pub audio_encode: Option<AudioEncodeConfig>,
    /// MPEG-TS PID overrides for the synthesised A+V TS.
    pub pid_overrides: Option<TsPidOverridesMap>,
}

/// MXL **video** output.
#[derive(Debug, Clone, PartialEq)]
pub struct MxlVideoOutputConfig {
    /// Unique output ID within this flow.
    pub id: String,
    /// Human-readable name.
    pub name: String,
    /// Whether this output is currently active.
    pub active: bool,
    /// Optional free-form group tag.
    pub group: Option<String>,
    /// Shared-memory domain + flow identifier we publish onto.
    pub mxl: MxlDomainRef,
    /// Output frame dimensions.
    pub width: u32,
    pub height: u32,
    pub frame_rate_num: u32,
    pub frame_rate_den: u32,
    /// PTP clock domain (0..=127).
    pub clock_domain: Option<u8>,
}

/// MXL **audio** input — consumes a Float32 PCM samples flow from the bus.
#[derive(Debug, Clone, PartialEq)]
pub struct MxlAudioInputConfig {
    /// Shared-memory domain + flow identifier.
    pub mxl: MxlDomainRef,
    /// Channel count (1, 2, 4, 8, 16).
    pub channels: u8,
    /// Packet time in microseconds.
    pub packet_time_us: u32,
    /// PTP clock domain (0..=127).
    pub clock_domain: Option<u8>,
    /// Optional planar PCM transcode — see `St2110AudioInputConfig::transcode`.
    pub transcode: Option<TranscodeJson>,
    /// Optional ingress audio re-encode — see `St2110AudioInputConfig::audio_encode`.
    pub audio_encode: Option<AudioEncodeConfig>,
    /// MPEG-TS PID overrides when `audio_encode` is set.
    pub pid_overrides: Option<TsPidOverridesMap>,
}

/// MXL **audio** output — publishes Float32 PCM samples onto the bus.
#[derive(Debug, Clone, PartialEq)]
pub struct MxlAudioOutputConfig {
    /// Unique output ID within this flow.
    pub id: String,
    /// Human-readable name.
    pub name: String,
    /// Whether this output is currently active.
    pub active: bool,
    /// Optional free-form group tag.
    pub group: Option<String>,
    /// Shared-memory domain + flow identifier we publish onto.
    pub mxl: MxlDomainRef,
    /// Channel count.
    pub channels: u8,
    /// Packet time in microseconds.
    pub packet_time_us: u32,
    /// PTP clock domain (0..=127).
    pub clock_domain: Option<u8>,
    /// Optional planar PCM transcode.
    pub transcode: Option<TranscodeJson>,
}

/// MXL **ancillary** input — consumes RFC 8331 ANC grains from the bus.
#[derive(Debug, Clone, PartialEq)]
pub struct MxlAncInputConfig {
    /// Shared-memory domain + flow identifier.
    pub mxl: MxlDomainRef,
    /// PTP clock domain (0..=127).
    pub clock_domain: Option<u8>,
}

/// MXL **ancillary** output — publishes RFC 8331 ANC grains onto the bus.
#[derive(Debug, Clone, PartialEq)]
pub struct MxlAncOutputConfig {
    /// Unique output ID within this flow.
    pub id: String,
    /// Human-readable name.
    pub name: String,
    /// Whether this output is currently active.
    pub active: bool,
    /// Optional free-form group tag.
    pub group: Option<String>,
    /// Shared-memory domain + flow identifier we publish onto.
    pub mxl: MxlDomainRef,
    /// PTP clock domain (0..=127).
    pub clock_domain: Option<u8>,
}

/// Node-wide tuning. Every setting that is absent keeps its default.
#[derive(Debug, Clone, Copy, PartialEq, Eq, Default)]
pub struct NodeTuningConfig {
    /// Ingress de-jitter setpoint of inputs that have none of their own.
    pub ingress_dejitter_ms: Option<u32>,
    /// Ingress residence.
    pub ingress_residence_ms: Option<u32>,
    /// Whether the hardware session limits are probed.
    pub probe_session_limits: Option<bool>,
    /// Whether 4K capability is probed.
    pub probe_4k: Option<bool>,
    /// Whether media players take operator control.
    pub media_player_controller: Option<bool>,
    /// Whether media players keep PCR deadlines.
    pub media_player_pcr_deadlines: Option<bool>,
}

} // verus!
