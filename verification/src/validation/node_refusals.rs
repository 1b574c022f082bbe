//! What is said of the node, of tunnels, flows, encoders and bonds that are refused.

use vstd::prelude::*;
use vstd::utf8::*;

use super::{assembly, bonds, bounds, encode, fields, flows, media, node, tunnels};
use crate::auth::{AuthClient, AuthConfig};
use crate::binary::Binary64;
use crate::binary;
use crate::error;
use crate::kinds;
use crate::lookup;
use crate::manager::ManagerConfig;
use crate::models::{
    AppConfig, AssembledProgram, AudioEncodeConfig, BandwidthLimitConfig, BondCongestionConfig,
    BondFecAlgorithm, BondFecConfig, BondPathConfig, BondPathTransportConfig,
    ContentAnalysisConfig, FlowAssembly, FlowConfig, FlowGroupConfig, MonitorConfig,
    NmosRegistrationConfig, ServerConfig, SlotSource, TlsConfig, VideoEncodeConfig,
};
use crate::ratio;
use crate::text;
use crate::tunnel::{TunnelConfig, TunnelDirection, TunnelMode};

verus! {

/// What is said of the dashboard that is refused is so.
pub proof fn lemma_monitor_refusals(monitor: MonitorConfig, server: ServerConfig, said: Seq<char>)
    requires
        node::monitor_fault(monitor, server) == Some(said),
    ensures
        ({
            let addrs = kinds::listen_addrs_of(monitor.listen_addrs, monitor.listen_addr);
            ||| error::first_fault(addrs, node::monitor_addr_check(monitor.listen_port), 0)
                == Some(said)
            ||| monitor.listen_port == server.listen_port && node::share_address(addrs,
                kinds::listen_addrs_of(server.listen_addrs, server.listen_addr)) && said
                == "Monitor listen address must differ from the API server address"@
        }),
{
}

/// What is said of a certificate that is refused is so.
pub proof fn lemma_tls_refusals(tls: TlsConfig, said: Seq<char>)
    requires
        node::tls_fault(tls) == Some(said),
    ensures
        ({
            ||| tls.cert_path@.len() == 0 && said == "TLS cert_path cannot be empty"@
            ||| tls.key_path@.len() == 0 && said == "TLS key_path cannot be empty"@
        }),
{
}

/// What is said of a client that is refused is so.
pub proof fn lemma_auth_client_refusals(client: AuthClient, said: Seq<char>)
    requires
        node::auth_client_fault(client) == Some(said),
    ensures
        ({
            ||| client.client_id@.len() == 0 && said == "Auth client_id cannot be empty"@
            ||| client.client_secret@.len() == 0 && said == "Auth client_secret cannot be empty"@
            ||| !(client.role@ == "admin"@ || client.role@ == "monitor"@) && said
                == "Auth client '"@ + client.client_id@
                + "': role must be 'admin' or 'monitor', got '"@ + client.role@ + "'"@
        }),
{
}

/// What is said of authentication that is refused is so.
pub proof fn lemma_auth_refusals(auth: AuthConfig, said: Seq<char>)
    requires
        node::auth_fault(auth) == Some(said),
    ensures
        ({
            ||| auth.enabled && text::byte_len(auth.jwt_secret@) < 32 && said
                == "Auth jwt_secret must be at least 32 characters for security"@
            ||| auth.enabled && auth.clients.len() == 0 && said
                == "Auth is enabled but no clients are configured"@
            ||| auth.enabled && node::auth_clients_fault(auth.clients@) == Some(said)
        }),
{
}

/// What is said of the manager that is refused is so.
pub proof fn lemma_manager_refusals(mgr: ManagerConfig, said: Seq<char>)
    requires
        node::manager_fault(mgr) == Some(said),
    ensures
        ({
            ||| mgr.enabled && mgr.url@.len() == 0 && said
                == "Manager URL cannot be empty when manager is enabled"@
            ||| mgr.enabled && !text::has_prefix(mgr.url@, "wss://"@) && said
                == "Manager URL must start with wss:// (TLS required)"@
            ||| mgr.enabled && text::byte_len(mgr.url@) > 2048 && said
                == "Manager URL must be at most 2048 characters"@
            ||| mgr.enabled && mgr.registration_token is Some
                && text::byte_len(mgr.registration_token->0@) > 4096 && said
                == "Manager registration token must be at most 4096 characters"@
        }),
{
}

/// What is said of the node itself that is refused is so.
pub proof fn lemma_node_refusals(config: AppConfig, said: Seq<char>)
    requires
        node::node_fault(config) == Some(said),
    ensures
        ({
            ||| config.monitor is Some && node::monitor_fault(config.monitor->0, config.server)
                == Some(said)
            ||| config.server.tls is Some && node::tls_fault(config.server.tls->0) == Some(said)
            ||| config.server.auth is Some && node::auth_fault(config.server.auth->0) == Some(said)
            ||| config.device_name is Some && text::byte_len(config.device_name->0@) > 256 && said
                == "Device name must be at most 256 characters"@
            ||| config.manager is Some && node::manager_fault(config.manager->0) == Some(said)
            ||| config.logging is Some && bounds::logging_fault(config.logging->0) == Some(said)
            ||| config.resource_limits is Some && bounds::resources_fault(config.resource_limits->0)
                == Some(said)
            ||| config.nmos_registration is Some && bounds::nmos_fault(config.nmos_registration->0)
                == Some(said)
        }),
{
}

/// What is said of a threshold that is refused is so.
pub proof fn lemma_percent_refusals(value: Binary64, what: Seq<char>, said: Seq<char>)
    requires
        bounds::percent_fault(value, what) == Some(said),
    ensures
        ({
            ||| !(binary::le(0, value.bits) && binary::le(value.bits, binary::HUNDRED)) && said
                == "Resource limits: "@ + what + " must be 0-100, got "@ + value.text@
        }),
{
}

/// What is said of a registration that is refused is so.
pub proof fn lemma_nmos_refusals(nmos: NmosRegistrationConfig, said: Seq<char>)
    requires
        bounds::nmos_fault(nmos) == Some(said),
    ensures
        ({
            ||| nmos.enabled && nmos.api_version@ != "v1.3"@ && said
                == "NMOS registration: api_version must be 'v1.3', got '"@ + nmos.api_version@
                + "'"@
        }),
{
}

/// What is said of the ends of a tunnel that is refused is so.
pub proof fn lemma_tunnel_ends_refusals(tunnel: TunnelConfig, said: Seq<char>)
    requires
        tunnels::tunnel_ends_fault(tunnel) == Some(said),
    ensures
        ({
            ||| match tunnel.mode {
                TunnelMode::Relay => {
                    ||| tunnel.relay_addr is None && said == "Tunnel '"@ + tunnel.id@
                        + "': relay_addr is required for relay mode"@
                    ||| (tunnel.relay_addr->0@.len() == 0
                        || text::byte_len(tunnel.relay_addr->0@) > 256) && said == "Tunnel '"@
                        + tunnel.id@ + "': relay_addr must be 1-256 characters"@
                },
                TunnelMode::Direct => {
                    ||| match tunnel.direction {
                        TunnelDirection::Egress => {
                            ||| tunnel.peer_addr is None && said == "Tunnel '"@ + tunnel.id@
                                + "': peer_addr is required for direct egress"@
                        },
                        TunnelDirection::Ingress => {
                            ||| tunnel.direct_listen_addr is None && said == "Tunnel '"@
                                + tunnel.id@
                                + "': direct_listen_addr is required for direct ingress"@
                        },
                    }
                },
            }
        }),
{
}

/// What is said of a tunnel that is refused is so.
pub proof fn lemma_tunnel_refusals(tunnel: TunnelConfig, said: Seq<char>)
    requires
        tunnels::tunnel_fault(tunnel) == Some(said),
    ensures
        ({
            ||| fields::id_fault(tunnel.id@, "Tunnel"@) == Some(said)
            ||| !tunnels::is_uuid_text(encode_utf8(tunnel.id@)) && said == "Tunnel '"@ + tunnel.id@
                + "': id must be a valid UUID (e.g., '550e8400-e29b-41d4-a716-446655440000')"@
            ||| fields::name_fault(tunnel.name@, "Tunnel"@) == Some(said)
            ||| fields::socket_addr_fault(tunnel.local_addr@, "Tunnel local_addr"@) == Some(said)
            ||| tunnels::tunnel_ends_fault(tunnel) == Some(said)
            ||| tunnel.tunnel_encryption_key is Some
                && text::byte_len(tunnel.tunnel_encryption_key->0@) != 64 && said == "Tunnel '"@
                + tunnel.id@
                + "': tunnel_encryption_key must be exactly 64 hex characters (32 bytes), got "@
                + text::dec(text::byte_len(tunnel.tunnel_encryption_key->0@)) + " chars"@
            ||| tunnel.tunnel_encryption_key is Some
                && !tunnels::all_hex(tunnel.tunnel_encryption_key->0@) && said == "Tunnel '"@
                + tunnel.id@ + "': tunnel_encryption_key must contain only hex characters"@
            ||| tunnel.tunnel_encryption_key is None && tunnel.mode is Relay && said == "Tunnel '"@
                + tunnel.id@
                + "': tunnel_encryption_key is required for relay mode (end-to-end encryption)"@
            ||| tunnel.tunnel_bind_secret is Some
                && text::byte_len(tunnel.tunnel_bind_secret->0@) != 64 && said == "Tunnel '"@
                + tunnel.id@
                + "': tunnel_bind_secret must be exactly 64 hex characters (32 bytes), got "@
                + text::dec(text::byte_len(tunnel.tunnel_bind_secret->0@)) + " chars"@
            ||| tunnel.tunnel_bind_secret is Some
                && !tunnels::all_hex(tunnel.tunnel_bind_secret->0@) && said == "Tunnel '"@
                + tunnel.id@ + "': tunnel_bind_secret must contain only hex characters"@
            ||| tunnel.tunnel_psk is Some && text::byte_len(tunnel.tunnel_psk->0@) > 256 && said
                == "Tunnel '"@ + tunnel.id@ + "': tunnel_psk must be at most 256 characters"@
            ||| tunnel.peer_addr is Some && text::byte_len(tunnel.peer_addr->0@) > 256 && said
                == "Tunnel '"@ + tunnel.id@ + "': peer_addr must be at most 256 characters"@
            ||| tunnel.direct_listen_addr is Some
                && fields::socket_addr_fault(tunnel.direct_listen_addr->0@, "Tunnel '"@ + tunnel.id@
                + "' direct_listen_addr"@) == Some(said)
        }),
{
}

/// What is said of a bandwidth limit that is refused is so.
pub proof fn lemma_bandwidth_limit_refusals(
    bw: BandwidthLimitConfig,
    flow_id: Seq<char>,
    said: Seq<char>,
)
    requires
        flows::bandwidth_limit_fault(bw, flow_id) == Some(said),
    ensures
        ({
            ||| binary::le(bw.max_bitrate_mbps.bits, 0) && said == "Flow '"@ + flow_id
                + "': bandwidth_limit max_bitrate_mbps must be positive, got "@
                + bw.max_bitrate_mbps.text@
            ||| binary::lt(binary::TEN_THOUSAND, bw.max_bitrate_mbps.bits) && said == "Flow '"@
                + flow_id
                + "': bandwidth_limit max_bitrate_mbps must be at most 10000 (10 Gbps), got "@
                + bw.max_bitrate_mbps.text@
            ||| bw.grace_period_secs < 1 && said == "Flow '"@ + flow_id
                + "': bandwidth_limit grace_period_secs must be at least 1, got "@
                + text::dec(bw.grace_period_secs as nat)
            ||| bw.grace_period_secs > 60 && said == "Flow '"@ + flow_id
                + "': bandwidth_limit grace_period_secs must be at most 60, got "@
                + text::dec(bw.grace_period_secs as nat)
        }),
{
}

/// What is said of a flow that is refused is so.
pub proof fn lemma_flow_refusals(flow: FlowConfig, said: Seq<char>)
    requires
        flows::flow_fault(flow) == Some(said),
    ensures
        ({
            ||| flow.id@.len() == 0 && said == "Flow ID cannot be empty"@
            ||| text::byte_len(flow.id@) > 64 && said == "Flow ID must be at most 64 characters"@
            ||| flow.name@.len() == 0 && said == "Flow name cannot be empty"@
            ||| text::byte_len(flow.name@) > 256 && said
                == "Flow name must be at most 256 characters"@
            ||| fields::program_number_fault(flow.thumbnail_program_number, "Flow '"@ + flow.id@
                + "' thumbnail"@) == Some(said)
            ||| flow.flow_group_id is Some && flow.flow_group_id->0@.len() == 0 && said == "Flow '"@
                + flow.id@ + "': flow_group_id must not be an empty string"@
            ||| flow.flow_group_id is Some && text::byte_len(flow.flow_group_id->0@) > 64 && said
                == "Flow '"@ + flow.id@ + "': flow_group_id must be at most 64 characters"@
            ||| fields::clock_domain_fault(flow.clock_domain, "Flow '"@ + flow.id@ + "'"@)
                == Some(said)
            ||| flows::references_fault(flow.input_ids, flow.id@, "input_id"@) == Some(said)
            ||| flows::references_fault(flow.output_ids, flow.id@, "output_id"@) == Some(said)
            ||| flow.bandwidth_limit is Some
                && flows::bandwidth_limit_fault(flow.bandwidth_limit->0, flow.id@) == Some(said)
            ||| media::flow_media_fault(flow) == Some(said)
        }),
{
}

/// What is said of a flow group that is refused is so.
pub proof fn lemma_flow_group_refusals(
    groups: Seq<FlowGroupConfig>,
    i: int,
    flows: Seq<FlowConfig>,
    said: Seq<char>,
)
    requires
        flows::flow_group_fault(groups, i, flows) == Some(said),
    ensures
        ({
            let g = groups[i];
            ||| fields::id_fault(g.id@, "Flow group"@) == Some(said)
            ||| fields::name_fault(g.name@, "Flow group"@) == Some(said)
            ||| fields::clock_domain_fault(g.clock_domain, "Flow group '"@ + g.id@ + "'"@)
                == Some(said)
            ||| flows::group_defined(groups, i, g.id@) && said == "Duplicate flow group ID: "@
                + g.id@
            ||| g.flows@.len() == 0 && said == "Flow group '"@ + g.id@
                + "' must reference at least one flow"@
            ||| error::first_fault(g.flows@, flows::member_check(g, flows), 0) == Some(said)
        }),
{
}

/// What is said of content analysis that is refused is so.
pub proof fn lemma_analysis_refusals(
    analysis: ContentAnalysisConfig,
    flow_id: Seq<char>,
    said: Seq<char>,
)
    requires
        media::analysis_fault(analysis, flow_id) == Some(said),
    ensures
        ({
            ||| analysis.video_full_hz is Some
                && !(0 < analysis.video_full_hz->0.bits <= binary::THIRTY_SINGLE) && said
                == "Flow '"@ + flow_id
                + "': content_analysis video_full_hz must be greater than 0 and at most 30"@
        }),
{
}

/// What is said of what a flow carries that is refused is so.
pub proof fn lemma_flow_media_refusals(flow: FlowConfig, said: Seq<char>)
    requires
        media::flow_media_fault(flow) == Some(said),
    ensures
        ({
            ||| flow.thumbnail_interval_secs is Some
                && !(1 <= flow.thumbnail_interval_secs->0 <= 60) && said == "Flow '"@ + flow.id@
                + "': thumbnail_interval_secs must be 1-60, got "@
                + text::dec(flow.thumbnail_interval_secs->0 as nat)
            ||| flow.content_analysis is Some && media::analysis_fault(flow.content_analysis->0,
                flow.id@) == Some(said)
            ||| flow.assembly is Some && assembly::assembly_fault(flow.assembly->0, flow.input_ids@,
                flow.id@) == Some(said)
            ||| flow.master_clock is Some && bounds::master_clock_fault(flow.master_clock->0,
                "Flow '"@ + flow.id@ + "'"@) == Some(said)
            ||| flow.recording is Some && bounds::recording_fault(flow.recording->0, "Flow '"@
                + flow.id@ + "'"@) == Some(said)
        }),
{
}

/// What is said of a frame rate that is refused is so.
pub proof fn lemma_frame_rate_refusals(
    num: Option<u32>,
    den: Option<u32>,
    context: Seq<char>,
    said: Seq<char>,
)
    requires
        encode::frame_rate_fault(num, den, context) == Some(said),
    ensures
        ({
            ||| num is Some != den is Some && said == context
                + ": video_encode.fps_num and fps_den must be set together"@
            ||| num is Some && (num->0 == 0 || den->0 == 0) && said == context
                + ": video_encode.fps_num and fps_den must be non-zero (got "@
                + text::dec(num->0 as nat) + "/"@ + text::dec(den->0 as nat) + ")"@
            ||| num is Some && !(den->0 <= 2 * num->0 && num->0 <= 240 * den->0) && said == context
                + ": video_encode effective frame rate "@ + ratio::three_places(num->0 as nat,
                den->0 as nat) + " is out of range (0.5..=240)"@
        }),
{
}

/// What is said of a choice that is refused is so.
pub proof fn lemma_choice_refusals(
    value: Option<String>,
    allowed: Seq<&str>,
    what: Seq<char>,
    names: Seq<char>,
    context: Seq<char>,
    said: Seq<char>,
)
    requires
        encode::choice_fault(value, allowed, what, names, context) == Some(said),
    ensures
        ({
            ||| value is Some && !text::is_one_of(value->0@, allowed) && said == context
                + ": video_encode."@ + what + " '"@ + value->0@
                + "' is not recognised; expected one of "@ + names
        }),
{
}

/// What is said of a setting of an encoder that is refused is so.
pub proof fn lemma_range_refusals(
    value: Option<u8>,
    low: u8,
    high: u8,
    what: Seq<char>,
    context: Seq<char>,
    said: Seq<char>,
)
    requires
        encode::range_fault(value, low, high, what, context) == Some(said),
    ensures
        ({
            ||| value is Some && !(low <= value->0 <= high) && said == context + ": video_encode."@
                + what + " must be "@ + text::dec(low as nat) + "..="@ + text::dec(high as nat)
                + ", got "@ + text::dec(value->0 as nat)
        }),
{
}

/// What is said of a video encoding block that is refused is so.
pub proof fn lemma_video_encode_refusals(
    enc: VideoEncodeConfig,
    context: Seq<char>,
    said: Seq<char>,
)
    requires
        encode::video_encode_fault(enc, context) == Some(said),
    ensures
        ({
            ||| !text::is_one_of(enc.codec@, encode::video_codecs()) && said == context
                + ": video_encode.codec '"@ + enc.codec@
                + "' is not recognised; expected one of x264, x265, h264_nvenc, hevc_nvenc, h264_qsv, hevc_qsv, h264_vaapi, hevc_vaapi, h264_rkmpp, hevc_rkmpp, h264_auto, hevc_auto"@
            ||| enc.width is Some && !(64 <= enc.width->0 <= 7680) && said == context
                + ": video_encode.width must be 64..=7680, got "@ + text::dec(enc.width->0 as nat)
            ||| enc.height is Some && !(64 <= enc.height->0 <= 4320) && said == context
                + ": video_encode.height must be 64..=4320, got "@ + text::dec(enc.height->0 as nat)
            ||| encode::frame_rate_fault(enc.fps_num, enc.fps_den, context) == Some(said)
            ||| enc.bitrate_kbps is Some && !(100 <= enc.bitrate_kbps->0 <= 100_000) && said
                == context + ": video_encode.bitrate_kbps must be 100..=100000, got "@
                + text::dec(enc.bitrate_kbps->0 as nat)
            ||| enc.gop_size is Some && !(1 <= enc.gop_size->0 <= 600) && said == context
                + ": video_encode.gop_size must be 1..=600, got "@
                + text::dec(enc.gop_size->0 as nat)
            ||| enc.preset is Some && !(enc.preset->0@ == "ultrafast"@ || enc.preset->0@
                == "superfast"@ || enc.preset->0@ == "veryfast"@ || enc.preset->0@ == "faster"@
                || enc.preset->0@ == "fast"@ || enc.preset->0@ == "medium"@ || enc.preset->0@
                == "slow"@ || enc.preset->0@ == "slower"@ || enc.preset->0@ == "veryslow"@) && said
                == context + ": video_encode.preset '"@ + enc.preset->0@
                + "' is not recognised; expected one of ultrafast, superfast, veryfast, faster, fast, medium, slow, slower, veryslow"@
            ||| encode::choice_fault(enc.profile, encode::profiles(), "profile"@,
                encode::profile_names(), context) == Some(said)
            ||| encode::choice_fault(enc.chroma, encode::chromas(), "chroma"@,
                "yuv420p, yuv422p, yuv444p"@, context) == Some(said)
            ||| enc.bit_depth is Some && !(enc.bit_depth->0 == 8 || enc.bit_depth->0 == 10) && said
                == context + ": video_encode.bit_depth must be 8 or 10, got "@
                + text::dec(enc.bit_depth->0 as nat)
            ||| encode::profile_format_fault(enc, context) == Some(said)
            ||| text::opt_view(enc.chroma) == Some("yuv444p"@) && (enc.codec@ == "h264_nvenc"@
                || enc.codec@ == "hevc_nvenc"@) && said == context
                + ": video_encode.chroma 'yuv444p' is not supported by "@ + enc.codec@
            ||| enc.bit_depth == Some(10u8) && enc.codec@ == "h264_nvenc"@ && said == context
                + ": video_encode.bit_depth 10 is not supported by h264_nvenc"@
            ||| encode::choice_fault(enc.rate_control, encode::rate_controls(), "rate_control"@,
                "vbr, cbr, crf, abr"@, context) == Some(said)
            ||| encode::range_fault(enc.crf, 0, 51, "crf"@, context) == Some(said)
            ||| enc.max_bitrate_kbps is Some && !(100 <= enc.max_bitrate_kbps->0 <= 100_000) && said
                == context + ": video_encode.max_bitrate_kbps must be 100..=100000, got "@
                + text::dec(enc.max_bitrate_kbps->0 as nat)
            ||| encode::range_fault(enc.bframes, 0, 16, "bframes"@, context) == Some(said)
            ||| encode::range_fault(enc.refs, 1, 16, "refs"@, context) == Some(said)
            ||| encode::choice_fault(enc.tune, encode::tunes(), "tune"@, encode::tune_names(),
                context) == Some(said)
            ||| encode::choice_fault(enc.color_primaries, encode::primaries(), "color_primaries"@,
                "bt709, bt2020, smpte170m, smpte240m, bt470m, bt470bg"@, context) == Some(said)
            ||| encode::choice_fault(enc.color_transfer, encode::transfers(), "color_transfer"@,
                "bt709, smpte170m, smpte2084, arib-std-b67, bt2020-10, bt2020-12"@, context)
                == Some(said)
            ||| encode::choice_fault(enc.color_matrix, encode::matrices(), "color_matrix"@,
                "bt709, bt2020nc, bt2020c, smpte170m, smpte240m"@, context) == Some(said)
            ||| encode::choice_fault(enc.color_range, encode::color_ranges(), "color_range"@,
                "tv, pc"@, context) == Some(said)
            ||| !media::is_unset_or_assignable(enc.source_video_pid) && said == context
                + ": video_encode.source_video_pid must be 0x0010-0x1FFE"@
        }),
{
}

/// What is said of Opus audio that is refused is so.
pub proof fn lemma_opus_refusals(enc: AudioEncodeConfig, context: Seq<char>, said: Seq<char>)
    requires
        encode::opus_fault(enc, context) == Some(said),
    ensures
        ({
            let ms = enc.opus_frame_duration_ms->0;
            ||| enc.opus_vbr_mode is Some && !(enc.opus_vbr_mode->0@ == "vbr"@
                || enc.opus_vbr_mode->0@ == "cbr"@) && said == context
                + ": audio_encode.opus_vbr_mode must be 'vbr' or 'cbr', got '"@
                + enc.opus_vbr_mode->0@ + "'"@
            ||| enc.opus_frame_duration_ms is Some && !(ms == 5 || ms == 10 || ms == 20 || ms == 40
                || ms == 60) && said == context
                + ": audio_encode.opus_frame_duration_ms must be one of 5, 10, 20, 40, 60, got "@
                + text::dec(ms as nat)
        }),
{
}

/// What is said of an audio encoding block that is refused is so.
pub proof fn lemma_audio_encode_refusals(
    enc: AudioEncodeConfig,
    allowed: Seq<&str>,
    context: Seq<char>,
    said: Seq<char>,
)
    requires
        encode::audio_encode_fault(enc, allowed, context) == Some(said),
    ensures
        ({
            let rate = enc.sample_rate->0;
            let limit = encode::max_channels(enc.codec@);
            ||| !text::is_one_of(enc.codec@, allowed) && said == context + ": audio_encode.codec '"@
                + enc.codec@ + "' is not allowed for this output; allowed: "@
                + text::debug_list(allowed)
            ||| enc.bitrate_kbps is Some && !(16 <= enc.bitrate_kbps->0 <= 512) && said == context
                + ": audio_encode.bitrate_kbps must be 16..=512, got "@
                + text::dec(enc.bitrate_kbps->0 as nat)
            ||| enc.sample_rate is Some && !(rate == 8_000 || rate == 16_000 || rate == 22_050
                || rate == 24_000 || rate == 32_000 || rate == 44_100 || rate == 48_000) && said
                == context
                + ": audio_encode.sample_rate must be one of [8000, 16000, 22050, 24000, 32000, 44100, 48000], got "@
                + text::dec(rate as nat)
            ||| enc.channels is Some && (enc.channels->0 == 0 || enc.channels->0 > limit) && said
                == context + ": audio_encode.channels must be 1-"@ + text::dec(limit as nat)
                + " for "@ + enc.codec@ + ", got "@ + text::dec(enc.channels->0 as nat)
            ||| !media::is_unset_or_assignable(enc.source_audio_pid) && said == context
                + ": audio_encode.source_audio_pid must be 0x0010-0x1FFE"@
            ||| enc.codec@ == "opus"@ && encode::opus_fault(enc, context) == Some(said)
        }),
{
}

/// What is said of a key that is refused is so.
pub proof fn lemma_key_refusals(
    key: Option<String>,
    what: Seq<char>,
    context: Seq<char>,
    said: Seq<char>,
)
    requires
        bonds::key_fault(key, what, context) == Some(said),
    ensures
        ({
            ||| key is Some && !(text::byte_len(key->0@) == 64 && tunnels::all_hex(key->0@)) && said
                == context + ": "@ + what + " must be exactly 64 hex characters (32 bytes)"@
        }),
{
}

/// What is said of a leg of a bond that is refused is so.
pub proof fn lemma_carrier_refusals(
    transport: BondPathTransportConfig,
    sends: bool,
    context: Seq<char>,
    said: Seq<char>,
)
    requires
        bonds::carrier_fault(transport, sends, context) == Some(said),
    ensures
        ({
            ||| match transport {
                BondPathTransportConfig::Udp { bind, remote, interface, gateway, source } => {
                    ||| sends && remote is None && said == context + " requires remote"@
                    ||| !sends && bind is None && said == context + " requires bind"@
                    ||| gateway is Some && source is None && said == context
                        + ": gateway requires source"@
                    ||| gateway is Some && interface is Some && said == context
                        + ": gateway and interface are mutually exclusive"@
                },
                BondPathTransportConfig::Relay { relay_addrs, tunnel_bind_secret, tunnel_encryption_key, interface, source, gateway, .. } => {
                    ||| relay_addrs@.len() == 0 && said == context
                        + " requires at least one relay address"@
                    ||| bonds::key_fault(tunnel_bind_secret, "tunnel_bind_secret"@, context)
                        == Some(said)
                    ||| bonds::key_fault(tunnel_encryption_key, "tunnel_encryption_key"@, context)
                        == Some(said)
                    ||| gateway is Some && (source is None || interface is None) && said == context
                        + ": gateway requires source and interface"@
                },
                BondPathTransportConfig::Rist { role, local_bind, .. } => {
                    ||| role is Receiver && local_bind is None && said == context
                        + " requires local_bind"@
                },
                BondPathTransportConfig::Quic { .. } => false,
            }
        }),
{
}

/// What is said of a bond that is refused is so.
pub proof fn lemma_bond_refusals(
    key: Option<String>,
    fec: Option<BondFecConfig>,
    paths: Seq<BondPathConfig>,
    sends: bool,
    context: Seq<char>,
    said: Seq<char>,
)
    requires
        bonds::bond_fault(key, fec, paths, sends, context) == Some(said),
    ensures
        ({
            ||| bonds::relays_fault(paths, key is Some, context) == Some(said)
            ||| bonds::key_fault(key, "encryption_key"@, context) == Some(said)
            ||| fec is Some && fec->0.algorithm == Some(BondFecAlgorithm::ReedSolomon) && said
                == context + ": reed_solomon fec is per leg only"@
            ||| error::first_fault(paths, bonds::leg_check(paths, fec, sends, context), 0)
                == Some(said)
        }),
{
}

/// What is said of congestion control that is refused is so.
pub proof fn lemma_congestion_refusals(c: BondCongestionConfig, context: Seq<char>, said: Seq<char>)
    requires
        bonds::congestion_fault(c, context) == Some(said),
    ensures
        ({
            ||| c.probe_cap_mult is Some && !(binary::le(binary::ELEVEN_TENTHS,
                c.probe_cap_mult->0.bits) && binary::le(c.probe_cap_mult->0.bits, binary::TEN))
                && said == context + ": probe_cap_mult must be 1.1-10.0, got "@
                + c.probe_cap_mult->0.text@
            ||| c.rtt_min_window_ms is Some && bounds::bounds_fault(c.rtt_min_window_ms->0 as nat,
                1000, 120_000, "rtt_min_window_ms"@, context) == Some(said)
            ||| bounds::set_bounds_fault(c.jitter_demote_ms, 0, 5000, "jitter_demote_ms"@, context)
                == Some(said)
        }),
{
}

/// What is said of the source of an assembled stream that is refused is so.
pub proof fn lemma_slot_refusals(source: SlotSource, context: Seq<char>, said: Seq<char>)
    requires
        assembly::slot_fault(source, context) == Some(said),
    ensures
        ({
            ||| match source {
                SlotSource::Hitless { primary, backup, mode, stall_ms, reorder_window, path_differential_ms, } => {
                    ||| (!assembly::is_plain(*primary) || !assembly::is_plain(*backup)) && said
                        == context
                        + ": the legs of a hitless source must be pid or essence sources"@
                    ||| mode is PrimaryPreference && stall_ms is Some
                        && bounds::bounds_fault(stall_ms->0 as nat, 20, 5000, "stall_ms"@, context)
                        == Some(said)
                    ||| mode is SeqAware && reorder_window is Some
                        && !(64 <= reorder_window->0 <= 4096 && reorder_window->0 % 64 == 0) && said
                        == context + ": reorder_window must be a multiple of 64 in 64-4096"@
                    ||| mode is SeqAware && bounds::set_bounds_fault(path_differential_ms, 5, 2000,
                        "path_differential_ms"@, context) == Some(said)
                },
                SlotSource::Switch { legs, initial_input_id, splice_mode, splice_budget_ms } => {
                    ||| bounds::bounds_fault(legs@.len(), 1, 64, "number of switch legs"@, context)
                        == Some(said)
                    ||| !assembly::has_leg(legs@, legs@.len() as int, initial_input_id@) && said
                        == context + ": initial_input_id '"@ + initial_input_id@
                        + "' is not the input of a switch leg"@
                    ||| splice_mode is PesAligned && bounds::set_bounds_fault(splice_budget_ms, 20,
                        5000, "splice_budget_ms"@, context) == Some(said)
                },
                _ => false,
            }
        }),
{
}

/// What is said of the clock of an assembled program that is refused is so.
pub proof fn lemma_reference_refusals(
    program: AssembledProgram,
    assembly: FlowAssembly,
    input_ids: Seq<String>,
    context: Seq<char>,
    said: Seq<char>,
)
    requires
        assembly::reference_fault(program, assembly, input_ids, context) == Some(said),
    ensures
        ({
            let reference = assembly::reference_of(program, assembly);
            ||| !(assembly.kind is Passthrough) && reference is None && said == context
                + ": pcr_source is required"@
            ||| !(assembly.kind is Passthrough) && !lookup::listed(input_ids,
                input_ids.len() as int, reference->0.input_id@) && said == context
                + ": pcr_source input '"@ + reference->0.input_id@
                + "' is not an input of the flow"@
        }),
{
}

/// What is said of an assembly that is refused is so.
pub proof fn lemma_assembly_refusals(
    assembly: FlowAssembly,
    input_ids: Seq<String>,
    flow_id: Seq<char>,
    said: Seq<char>,
)
    requires
        assembly::assembly_fault(assembly, input_ids, flow_id) == Some(said),
    ensures
        ({
            ||| assembly.kind is Spts && assembly.programs@.len() != 1 && said == "Flow '"@
                + flow_id + "': an spts assembly must have exactly one program"@
            ||| assembly.kind is Mpts && assembly.programs@.len() == 0 && said == "Flow '"@
                + flow_id + "': an mpts assembly must have at least one program"@
            ||| assembly.kind is Passthrough && assembly.programs@.len() > 1 && said == "Flow '"@
                + flow_id + "': a passthrough assembly must have at most one program"@
            ||| error::first_fault(assembly.programs@, assembly::program_check(assembly, input_ids,
                flow_id), 0) == Some(said)
        }),
{
}

} // verus!
