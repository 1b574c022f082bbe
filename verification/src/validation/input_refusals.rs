//! What is said of inputs that are refused, and of the settings that inputs and outputs
//! share.

use std::collections::BTreeMap;
use vstd::prelude::*;

use super::{bounds, encode, fields, inputs, media, rist, sockets, srt, st2110};
use crate::addr;
use crate::binary::Binary64;
use crate::binary;
use crate::error;
use crate::models::{
    FecConfig, InputConfig, InputDefinition, InterfaceBinding, MediaPlayerInputConfig,
    MediaPlayerSource, RedBlueBindConfig, RistInputConfig, RtmpInputConfig, RtpInputConfig,
    RtpRedundancyConfig, RtspInputConfig, SrtInputConfig, SrtMode, St2110AudioInputConfig,
    St2110VideoInputConfig, St2110_23InputConfig, TestPatternInputConfig, TsPidOverridesMap,
    UdpInputConfig, WebrtcInputConfig, WhepInputConfig,
};
use crate::ratio;
use crate::srt_filter::{FilterParse, PacketFilter};
use crate::text;
use crate::validation::srt::SrtKnobs;
use crate::validation::st2110::St2110Profile;

verus! {

/// What is said of the addresses of an RTP input that is refused is so.
pub proof fn lemma_rtp_input_family_refusals(rtp: RtpInputConfig, said: Seq<char>)
    requires
        inputs::rtp_input_family_fault(rtp) == Some(said),
    ensures
        ({
            ||| rtp.interface_addr is Some && fields::socket_syntax_fault(rtp.bind_addr@)
                == Some(said)
            ||| rtp.interface_addr is Some && fields::ip_syntax_fault(rtp.interface_addr->0@)
                == Some(said)
            ||| rtp.interface_addr is Some && fields::interface_differs(rtp.bind_addr@,
                rtp.interface_addr->0@) && said == "RTP input: bind_addr '"@ + rtp.bind_addr@
                + "' and interface_addr '"@ + rtp.interface_addr->0@
                + "' must use the same address family (both IPv4 or both IPv6)"@
        }),
{
}

/// What is said of the second leg of an RTP input that is refused is so.
pub proof fn lemma_rtp_input_redundancy_refusals(
    red: RtpRedundancyConfig,
    bind_addr: Seq<char>,
    said: Seq<char>,
)
    requires
        inputs::rtp_input_redundancy_fault(red, bind_addr) == Some(said),
    ensures
        ({
            ||| fields::socket_addr_fault(red.bind_addr@, "RTP input redundancy bind_addr"@)
                == Some(said)
            ||| red.interface_addr is Some && fields::ip_addr_fault(red.interface_addr->0@,
                "RTP input redundancy interface_addr"@) == Some(said)
            ||| fields::families_differ(bind_addr, red.bind_addr@) && said
                == "RTP input redundancy: leg 1 ("@ + bind_addr + ") and leg 2 ("@ + red.bind_addr@
                + ") must use the same address family"@
            ||| red.interface_addr is Some && fields::interface_differs(red.bind_addr@,
                red.interface_addr->0@) && said
                == "RTP input redundancy: bind_addr and interface_addr must use the same address family"@
        }),
{
}

/// What is said of a UDP input that is refused is so.
pub proof fn lemma_udp_input_refusals(udp: UdpInputConfig, said: Seq<char>)
    requires
        inputs::udp_input_fault(udp) == Some(said),
    ensures
        ({
            ||| fields::socket_addr_fault(udp.bind_addr@, "UDP input bind_addr"@) == Some(said)
            ||| udp.interface_addr is Some && fields::ip_addr_fault(udp.interface_addr->0@,
                "UDP input interface_addr"@) == Some(said)
            ||| udp.interface_addr is Some && fields::interface_differs(udp.bind_addr@,
                udp.interface_addr->0@) && said == "UDP input: bind_addr '"@ + udp.bind_addr@
                + "' and interface_addr '"@ + udp.interface_addr->0@
                + "' must use the same address family"@
        }),
{
}

/// What is said of an SRT input that is refused is so.
pub proof fn lemma_srt_input_refusals(srt: SrtInputConfig, said: Seq<char>)
    requires
        inputs::srt_input_fault(srt) == Some(said),
    ensures
        ({
            ||| srt::local_addr_fault(srt.mode, srt.local_addr, "SRT input"@) == Some(said)
            ||| srt::srt_common_fault(srt::spec_input_knobs(&srt), "SRT input"@) == Some(said)
            ||| srt.redundancy is Some && srt::srt_redundancy_fault(srt.redundancy->0, "SRT input"@)
                == Some(said)
            ||| srt.transport_mode is Some && !(srt.transport_mode->0@ == "ts"@
                || srt.transport_mode->0@ == "audio_302m"@) && said
                == "SRT input: transport_mode must be 'ts' or 'audio_302m', got '"@
                + srt.transport_mode->0@ + "'"@
        }),
{
}

/// What is said of an RTMP input that is refused is so.
pub proof fn lemma_rtmp_input_refusals(rtmp: RtmpInputConfig, said: Seq<char>)
    requires
        inputs::rtmp_input_fault(rtmp) == Some(said),
    ensures
        ({
            ||| fields::socket_addr_fault(rtmp.listen_addr@, "RTMP input listen_addr"@)
                == Some(said)
            ||| rtmp.app@.len() == 0 && said == "RTMP input app name must not be empty"@
            ||| text::byte_len(rtmp.app@) > 64 && said
                == "RTMP input app name must be at most 64 characters"@
            ||| rtmp.stream_key is Some && text::byte_len(rtmp.stream_key->0@) > 256 && said
                == "RTMP input stream_key must be at most 256 characters"@
        }),
{
}

/// What is said of an RTSP input that is refused is so.
pub proof fn lemma_rtsp_input_refusals(rtsp: RtspInputConfig, said: Seq<char>)
    requires
        inputs::rtsp_input_fault(rtsp) == Some(said),
    ensures
        ({
            ||| !text::has_prefix(rtsp.rtsp_url@, "rtsp://"@) && !text::has_prefix(rtsp.rtsp_url@,
                "rtsps://"@) && said == "RTSP input: rtsp_url must start with rtsp:// or rtsps://"@
            ||| text::byte_len(rtsp.rtsp_url@) > 2048 && said
                == "RTSP input: rtsp_url must be at most 2048 characters"@
            ||| rtsp.username is Some && text::byte_len(rtsp.username->0@) > 256 && said
                == "RTSP input: username must be at most 256 characters"@
            ||| rtsp.password is Some && text::byte_len(rtsp.password->0@) > 256 && said
                == "RTSP input: password must be at most 256 characters"@
        }),
{
}

/// What is said of a WebRTC input that is refused is so.
pub proof fn lemma_webrtc_input_refusals(webrtc: WebrtcInputConfig, said: Seq<char>)
    requires
        inputs::webrtc_input_fault(webrtc) == Some(said),
    ensures
        ({
            ||| webrtc.bearer_token is Some && text::byte_len(webrtc.bearer_token->0@) > 4096
                && said == "WebRTC input: bearer_token must be at most 4096 characters"@
            ||| webrtc.public_ip is Some && addr::ip_of(webrtc.public_ip->0@) is None && said
                == "WebRTC input: invalid public_ip '"@ + webrtc.public_ip->0@ + "'"@
            ||| webrtc.stun_server is Some && text::byte_len(webrtc.stun_server->0@) > 2048 && said
                == "WebRTC input: stun_server must be at most 2048 characters"@
        }),
{
}

/// What is said of a WHEP input that is refused is so.
pub proof fn lemma_whep_input_refusals(whep: WhepInputConfig, said: Seq<char>)
    requires
        inputs::whep_input_fault(whep) == Some(said),
    ensures
        ({
            ||| !text::has_prefix(whep.whep_url@, "http://"@) && !text::has_prefix(whep.whep_url@,
                "https://"@) && said == "WHEP input: whep_url must start with http:// or https://"@
            ||| text::byte_len(whep.whep_url@) > 2048 && said
                == "WHEP input: whep_url must be at most 2048 characters"@
            ||| whep.bearer_token is Some && text::byte_len(whep.bearer_token->0@) > 4096 && said
                == "WHEP input: bearer_token must be at most 4096 characters"@
        }),
{
}

/// What is said of an input definition that is refused is so.
pub proof fn lemma_input_definition_refusals(def: InputDefinition, said: Seq<char>)
    requires
        inputs::input_definition_fault(def) == Some(said),
    ensures
        ({
            ||| def.id@.len() == 0 && said == "Input definition ID cannot be empty"@
            ||| text::byte_len(def.id@) > 64 && said
                == "Input definition ID must be at most 64 characters"@
            ||| def.name@.len() == 0 && said == "Input definition name cannot be empty"@
            ||| text::byte_len(def.name@) > 256 && said
                == "Input definition name must be at most 256 characters"@
            ||| def.group is Some && text::byte_len(def.group->0@) > 64 && said == "Input '"@
                + def.id@ + "': group tag must be at most 64 characters"@
            ||| inputs::input_fault(def.config) == Some(said)
        }),
{
}

/// What is said of a RIST input that is refused is so.
pub proof fn lemma_rist_input_refusals(rist: RistInputConfig, said: Seq<char>)
    requires
        rist::rist_input_fault(rist) == Some(said),
    ensures
        ({
            ||| rist::rist_addr_fault(rist.bind_addr@, "RIST input bind_addr"@) == Some(said)
            ||| rist::rist_knobs_fault(rist.buffer_ms, rist.max_nack_retries,
                text::opt_view(rist.cname), rist.rtcp_interval_ms, "RIST input"@) == Some(said)
            ||| rist.redundancy is Some && rist::rist_addr_fault((rist.redundancy->0).bind_addr@,
                "RIST input redundancy bind_addr"@) == Some(said)
            ||| rist.redundancy is Some && (rist.redundancy->0).bind_addr@ == rist.bind_addr@
                && said == "RIST input redundancy: leg 2 bind_addr must differ from leg 1"@
            ||| rist.redundancy is Some && fields::families_differ(rist.bind_addr@,
                rist.redundancy->0.bind_addr@) && said
                == "RIST input redundancy: leg 1 and leg 2 must use the same address family"@
        }),
{
}

/// What is said of the local address of an SRT leg that is refused is so.
pub proof fn lemma_local_addr_refusals(
    mode: SrtMode,
    local_addr: Option<String>,
    context: Seq<char>,
    said: Seq<char>,
)
    requires
        srt::local_addr_fault(mode, local_addr, context) == Some(said),
    ensures
        ({
            ||| mode !is Caller && local_addr is None && said == context
                + " local_addr is required for "@ + srt::mode_text(mode) + " mode"@
            ||| local_addr is Some && fields::socket_addr_fault(local_addr->0@, context
                + " local_addr"@) == Some(said)
        }),
{
}

/// What is said of a packet filter that is refused is so.
pub proof fn lemma_packet_filter_refusals(pf: PacketFilter, context: Seq<char>, said: Seq<char>)
    requires
        srt::packet_filter_fault(pf, context) == Some(said),
    ensures
        ({
            ||| text::byte_len(pf.spec_text@) > 512 && said == context
                + ": packet_filter must be at most 512 characters, got "@
                + text::dec(text::byte_len(pf.spec_text@))
            ||| match pf.parsed {
                FilterParse::Matrix(m) => {
                    ||| (m.cols == 0 || m.cols > 256) && said == context
                        + ": FEC cols must be 1-256, got "@ + text::dec(m.cols as nat)
                    ||| (m.rows == 0 || m.rows > 256) && said == context
                        + ": FEC rows must be 1-256, got "@ + text::dec(m.rows as nat)
                },
                FilterParse::Invalid(e) => {
                    ||| said == context + ": invalid packet_filter: "@ + e@
                },
            }
        }),
{
}

/// What is said of the settings of an SRT leg that is refused is so.
pub proof fn lemma_srt_common_refusals(k: SrtKnobs, context: Seq<char>, said: Seq<char>)
    requires
        srt::srt_common_fault(k, context) == Some(said),
    ensures
        ({
            ||| k.mode !is Listener && k.remote_addr is None && said == context
                + ": remote_addr is required for caller/rendezvous mode"@
            ||| k.mode !is Listener && fields::socket_addr_fault(k.remote_addr->0@, context
                + " remote_addr"@) == Some(said)
            ||| k.passphrase is Some && (text::byte_len(k.passphrase->0@) < 10
                || text::byte_len(k.passphrase->0@) > 79) && said == context
                + ": passphrase must be 10-79 characters, got "@
                + text::dec(text::byte_len(k.passphrase->0@))
            ||| k.aes_key_len is Some && k.aes_key_len->0 != 16 && k.aes_key_len->0 != 24
                && k.aes_key_len->0 != 32 && said == context
                + ": aes_key_len must be 16, 24, or 32, got "@ + text::dec(k.aes_key_len->0 as nat)
            ||| k.crypto_mode is Some && !(k.crypto_mode->0@ == "aes-ctr"@ || k.crypto_mode->0@
                == "aes-gcm"@) && said == context
                + ": crypto_mode must be \"aes-ctr\" or \"aes-gcm\", got \""@ + k.crypto_mode->0@
                + "\""@
            ||| k.crypto_mode is Some && k.crypto_mode->0@ == "aes-gcm"@ && k.aes_key_len
                == Some(24usize) && said == context
                + ": AES-GCM does not support AES-192 (aes_key_len 24); use 16 or 32"@
            ||| k.max_rexmit_bw is Some && k.max_rexmit_bw->0 < -1 && said == context
                + ": max_rexmit_bw must be -1 (unlimited), 0 (disable), or > 0 (bytes/sec), got "@
                + text::dec_int(k.max_rexmit_bw->0 as int)
            ||| k.stream_id is Some && text::byte_len(k.stream_id->0@) > 512 && said == context
                + ": stream_id must be at most 512 characters (per SRT spec), got "@
                + text::dec(text::byte_len(k.stream_id->0@))
            ||| k.packet_filter is Some && srt::packet_filter_fault(k.packet_filter->0, context)
                == Some(said)
            ||| k.max_bw is Some && k.max_bw->0 < 0 && said == context
                + ": max_bw must be >= 0 (0 = unlimited), got "@ + text::dec_int(k.max_bw->0 as int)
            ||| k.overhead_bw is Some && (k.overhead_bw->0 < 5 || k.overhead_bw->0 > 100) && said
                == context + ": overhead_bw must be 5-100 (percentage), got "@
                + text::dec_int(k.overhead_bw->0 as int)
            ||| k.flight_flag_size is Some && k.flight_flag_size->0 < 32 && said == context
                + ": flight_flag_size must be >= 32 packets, got "@
                + text::dec(k.flight_flag_size->0 as nat)
            ||| k.send_buffer_size is Some && k.send_buffer_size->0 < 32 && said == context
                + ": send_buffer_size must be >= 32 packets, got "@
                + text::dec(k.send_buffer_size->0 as nat)
            ||| k.recv_buffer_size is Some && k.recv_buffer_size->0 < 32 && said == context
                + ": recv_buffer_size must be >= 32 packets, got "@
                + text::dec(k.recv_buffer_size->0 as nat)
            ||| k.ip_tos is Some && !(0 <= k.ip_tos->0 <= 255) && said == context
                + ": ip_tos must be 0-255, got "@ + text::dec_int(k.ip_tos->0 as int)
            ||| k.retransmit_algo is Some && !(k.retransmit_algo->0@ == "default"@
                || k.retransmit_algo->0@ == "reduced"@) && said == context
                + ": retransmit_algo must be \"default\" or \"reduced\", got \""@
                + k.retransmit_algo->0@ + "\""@
            ||| k.send_drop_delay is Some && k.send_drop_delay->0 < -1 && said == context
                + ": send_drop_delay must be >= -1, got "@
                + text::dec_int(k.send_drop_delay->0 as int)
            ||| k.loss_max_ttl is Some && k.loss_max_ttl->0 < 0 && said == context
                + ": loss_max_ttl must be >= 0, got "@ + text::dec_int(k.loss_max_ttl->0 as int)
            ||| k.km_refresh_rate is Some && k.km_refresh_rate->0 == 0 && said == context
                + ": km_refresh_rate must be > 0"@
            ||| k.km_pre_announce is Some && k.km_pre_announce->0 == 0 && said == context
                + ": km_pre_announce must be > 0"@
            ||| k.payload_size is Some && (k.payload_size->0 < 188 || k.payload_size->0 > 1456)
                && said == context + ": payload_size must be 188-1456, got "@
                + text::dec(k.payload_size->0 as nat)
            ||| k.mss is Some && (k.mss->0 < 76 || k.mss->0 > 9000) && said == context
                + ": mss must be 76-9000, got "@ + text::dec(k.mss->0 as nat)
            ||| k.ip_ttl is Some && !(1 <= k.ip_ttl->0 <= 255) && said == context
                + ": ip_ttl must be 1-255, got "@ + text::dec_int(k.ip_ttl->0 as int)
        }),
{
}

/// What is said of the shape of ST 2110 audio that is refused is so.
pub proof fn lemma_st2110_audio_params_refusals(
    profile: St2110Profile,
    sample_rate: u32,
    bit_depth: u8,
    channels: u8,
    packet_time_us: u32,
    context: Seq<char>,
    said: Seq<char>,
)
    requires
        st2110::st2110_audio_params_fault(
            profile,
            sample_rate,
            bit_depth,
            channels,
            packet_time_us,
            context,
        ) == Some(said),
    ensures
        ({
            ||| sample_rate != 48_000 && sample_rate != 96_000 && said == context
                + ": sample_rate must be 48000 or 96000, got "@ + text::dec(sample_rate as nat)
            ||| profile is Pcm && bit_depth != 16 && bit_depth != 24 && said == context
                + ": ST 2110-30 bit_depth must be 16 or 24, got "@ + text::dec(bit_depth as nat)
            ||| profile is Aes3 && bit_depth != 24 && said == context
                + ": ST 2110-31 bit_depth must be 24 (AES3 sub-frame), got "@
                + text::dec(bit_depth as nat)
            ||| !(channels == 1 || channels == 2 || channels == 4 || channels == 8 || channels
                == 16) && said == context + ": channels must be 1, 2, 4, 8, or 16, got "@
                + text::dec(channels as nat)
            ||| !(packet_time_us == 125 || packet_time_us == 250 || packet_time_us == 333
                || packet_time_us == 500 || packet_time_us == 1_000 || packet_time_us == 4_000)
                && said == context
                + ": packet_time_us must be 125, 250, 333, 500, 1000, or 4000, got "@
                + text::dec(packet_time_us as nat)
        }),
{
}

/// What is said of a bitrate that is refused is so.
pub proof fn lemma_max_bitrate_refusals(
    max_bitrate_mbps: Option<Binary64>,
    context: Seq<char>,
    said: Seq<char>,
)
    requires
        st2110::max_bitrate_fault(max_bitrate_mbps, context) == Some(said),
    ensures
        ({
            ||| max_bitrate_mbps is Some && binary::le(max_bitrate_mbps->0.bits, 0) && said
                == context + " max_bitrate_mbps must be positive, got "@ + max_bitrate_mbps->0.text@
            ||| max_bitrate_mbps is Some && binary::lt(binary::TEN_THOUSAND,
                max_bitrate_mbps->0.bits) && said == context
                + " max_bitrate_mbps must be at most 10000 (10 Gbps), got "@
                + max_bitrate_mbps->0.text@
        }),
{
}

/// What is said of an ST 2110-20 input that is refused is so.
pub proof fn lemma_st2110_video_input_refusals(c: St2110VideoInputConfig, said: Seq<char>)
    requires
        st2110::st2110_video_input_fault(c) == Some(said),
    ensures
        ({
            ||| fields::socket_addr_fault(c.bind_addr@, "ST 2110-20 input bind_addr"@) == Some(said)
            ||| c.interface_addr is Some && fields::ip_addr_fault(c.interface_addr->0@,
                "ST 2110-20 input interface_addr"@) == Some(said)
            ||| fields::video_dims_fault(c.width, c.height, c.frame_rate_num, c.frame_rate_den,
                "ST 2110-20 input"@) == Some(said)
            ||| fields::payload_type_fault(c.payload_type, "ST 2110-20 input"@) == Some(said)
            ||| fields::clock_domain_fault(c.clock_domain, "ST 2110-20 input"@) == Some(said)
            ||| fields::sources_fault(c.allowed_sources, "ST 2110-20 input allowed_sources"@)
                == Some(said)
            ||| c.max_bitrate_mbps is Some && (binary::le(c.max_bitrate_mbps->0.bits, 0)
                || binary::lt(binary::HUNDRED_THOUSAND, c.max_bitrate_mbps->0.bits)) && said
                == "ST 2110-20 input: max_bitrate_mbps must be > 0 and <= 100000, got "@
                + c.max_bitrate_mbps->0.text@
            ||| c.redundancy is Some && fields::red_blue_fault(c.redundancy->0, c.bind_addr@,
                "ST 2110-20 input redundancy"@) == Some(said)
            ||| encode::video_encode_fault(c.video_encode, "ST 2110-20 input"@) == Some(said)
        }),
{
}

/// What is said of an ST 2110-23 input that is refused is so.
pub proof fn lemma_st2110_23_input_refusals(c: St2110_23InputConfig, said: Seq<char>)
    requires
        st2110::st2110_23_input_fault(c) == Some(said),
    ensures
        ({
            ||| (c.sub_streams.len() < 2 || c.sub_streams.len() > 16) && said
                == "ST 2110-23 input: sub_streams must have 2..=16 entries, got "@
                + text::dec(c.sub_streams@.len())
            ||| st2110::sub_stream_binds_fault(c.sub_streams, "ST 2110-23 input"@) == Some(said)
            ||| fields::video_dims_fault(c.width, c.height, c.frame_rate_num, c.frame_rate_den,
                "ST 2110-23 input"@) == Some(said)
            ||| fields::clock_domain_fault(c.clock_domain, "ST 2110-23 input"@) == Some(said)
            ||| encode::video_encode_fault(c.video_encode, "ST 2110-23 input"@) == Some(said)
        }),
{
}

/// What is said of a socket address that is refused is so.
pub proof fn lemma_socket_addr_refusals(addr: Seq<char>, context: Seq<char>, said: Seq<char>)
    requires
        fields::socket_addr_fault(addr, context) == Some(said),
    ensures
        ({
            ||| addr::socket_of(addr) is None && said == context + ": invalid socket address '"@
                + addr + "': invalid socket address syntax"@
        }),
{
}

/// What is said of an IP address that is refused is so.
pub proof fn lemma_ip_addr_refusals(addr: Seq<char>, context: Seq<char>, said: Seq<char>)
    requires
        fields::ip_addr_fault(addr, context) == Some(said),
    ensures
        ({
            ||| addr::ip_of(addr) is None && said == context + ": invalid IP address '"@ + addr
                + "': invalid IP address syntax"@
        }),
{
}

/// What is said of an identifier that is refused is so.
pub proof fn lemma_id_refusals(id: Seq<char>, context: Seq<char>, said: Seq<char>)
    requires
        fields::id_fault(id, context) == Some(said),
    ensures
        ({
            ||| id.len() == 0 && said == context + " ID cannot be empty"@
            ||| text::byte_len(id) > 64 && said == context + " ID must be at most 64 characters"@
        }),
{
}

/// What is said of a name that is refused is so.
pub proof fn lemma_name_refusals(name: Seq<char>, context: Seq<char>, said: Seq<char>)
    requires
        fields::name_fault(name, context) == Some(said),
    ensures
        ({
            ||| name.len() == 0 && said == context + " name cannot be empty"@
            ||| text::byte_len(name) > 256 && said == context
                + " name must be at most 256 characters"@
        }),
{
}

/// What is said of a program number that is refused is so.
pub proof fn lemma_program_number_refusals(prog: Option<u16>, context: Seq<char>, said: Seq<char>)
    requires
        fields::program_number_fault(prog, context) == Some(said),
    ensures
        ({
            ||| prog is Some && prog->0 == 0 && said == context
                + ": program_number must be > 0 (0 is reserved for the NIT)"@
        }),
{
}

/// What is said of a clock domain that is refused is so.
pub proof fn lemma_clock_domain_refusals(domain: Option<u8>, context: Seq<char>, said: Seq<char>)
    requires
        fields::clock_domain_fault(domain, context) == Some(said),
    ensures
        ({
            ||| domain is Some && domain->0 > 127 && said == context
                + ": clock_domain must be 0-127 (IEEE 1588), got "@ + text::dec(domain->0 as nat)
        }),
{
}

/// What is said of a payload type that is refused is so.
pub proof fn lemma_payload_type_refusals(pt: u8, context: Seq<char>, said: Seq<char>)
    requires
        fields::payload_type_fault(pt, context) == Some(said),
    ensures
        ({
            ||| !(96 <= pt <= 127) && said == context
                + ": payload_type must be in dynamic range 96-127, got "@ + text::dec(pt as nat)
        }),
{
}

/// What is said of error correction that is refused is so.
pub proof fn lemma_fec_refusals(fec: FecConfig, said: Seq<char>)
    requires
        fields::fec_fault(fec) == Some(said),
    ensures
        ({
            ||| (fec.columns < 1 || fec.columns > 20) && said == "FEC columns must be 1-20, got "@
                + text::dec(fec.columns as nat)
            ||| (fec.rows < 4 || fec.rows > 20) && said == "FEC rows must be 4-20, got "@
                + text::dec(fec.rows as nat)
        }),
{
}

/// What is said of a payload budget that is refused is so.
pub proof fn lemma_payload_budget_refusals(n: usize, ctx: Seq<char>, said: Seq<char>)
    requires
        fields::payload_budget_fault(n, ctx) == Some(said),
    ensures
        ({
            ||| !(512 <= n <= 8952) && said == ctx + ": payload_budget must be 512..=8952, got "@
                + text::dec(n as nat)
        }),
{
}

/// What is said of a picture that is refused is so.
pub proof fn lemma_video_dims_refusals(
    width: u32,
    height: u32,
    fps_num: u32,
    fps_den: u32,
    ctx: Seq<char>,
    said: Seq<char>,
)
    requires
        fields::video_dims_fault(width, height, fps_num, fps_den, ctx) == Some(said),
    ensures
        ({
            ||| (!(64 <= width <= 8192) || width % 2 != 0) && said == ctx
                + ": width must be 64..=8192 and even, got "@ + text::dec(width as nat)
            ||| (!(64 <= height <= 8192) || height % 2 != 0) && said == ctx
                + ": height must be 64..=8192 and even, got "@ + text::dec(height as nat)
            ||| fps_den == 0 && said == ctx + ": frame_rate_den must be > 0"@
            ||| !(fps_den <= fps_num <= 240 * fps_den) && said == ctx
                + ": frame_rate must be between 1 and 240 fps, got "@
                + ratio::three_places(fps_num as nat, fps_den as nat)
        }),
{
}

/// What is said of the shape of RTP audio that is refused is so.
pub proof fn lemma_rtp_audio_params_refusals(
    sample_rate: u32,
    bit_depth: u8,
    channels: u8,
    packet_time_us: u32,
    context: Seq<char>,
    said: Seq<char>,
)
    requires
        fields::rtp_audio_params_fault(
            sample_rate,
            bit_depth,
            channels,
            packet_time_us,
            context,
        ) == Some(said),
    ensures
        ({
            ||| !(sample_rate == 32_000 || sample_rate == 44_100 || sample_rate == 48_000
                || sample_rate == 88_200 || sample_rate == 96_000) && said == context
                + ": sample_rate must be one of 32000, 44100, 48000, 88200, 96000, got "@
                + text::dec(sample_rate as nat)
            ||| bit_depth != 16 && bit_depth != 24 && said == context
                + ": bit_depth must be 16 or 24, got "@ + text::dec(bit_depth as nat)
            ||| (channels == 0 || channels > 16) && said == context
                + ": channels must be 1..=16, got "@ + text::dec(channels as nat)
            ||| !(packet_time_us == 125 || packet_time_us == 250 || packet_time_us == 333
                || packet_time_us == 500 || packet_time_us == 1_000 || packet_time_us == 4_000
                || packet_time_us == 20_000) && said == context
                + ": packet_time_us must be one of 125, 250, 333, 500, 1000, 4000, 20000, got "@
                + text::dec(packet_time_us as nat)
        }),
{
}

/// What is said of a second leg that is refused is so.
pub proof fn lemma_red_blue_refusals(
    red: RedBlueBindConfig,
    primary_addr: Seq<char>,
    context: Seq<char>,
    said: Seq<char>,
)
    requires
        fields::red_blue_fault(red, primary_addr, context) == Some(said),
    ensures
        ({
            let leg1 = addr::socket_of(primary_addr);
            let leg2 = addr::socket_of(red.addr@);
            let ip1 = leg1->0.ip;
            let ip2 = leg2->0.ip;
            ||| fields::socket_addr_fault(red.addr@, context + " addr"@) == Some(said)
            ||| red.interface_addr is Some && fields::ip_addr_fault(red.interface_addr->0@, context
                + " interface_addr"@) == Some(said)
            ||| leg1 is None && said == context + ": primary addr '"@ + primary_addr
                + "' is not parseable: invalid socket address syntax"@
            ||| ip1.spec_is_ipv4() != ip2.spec_is_ipv4() && said == context + ": leg 1 ("@
                + primary_addr + ") and leg 2 ("@ + red.addr@
                + ") must use the same address family"@
            ||| red.interface_addr is Some
                && ip2.spec_is_ipv4() != addr::ip_of(red.interface_addr->0@)->0.spec_is_ipv4()
                && said == context
                + ": leg 2 addr and interface_addr must use the same address family"@
            ||| !ip1.spec_is_unspecified() && !ip2.spec_is_unspecified() && !ip1.spec_is_multicast()
                && !ip2.spec_is_multicast() && ip1 == ip2 && said == context
                + ": leg 1 and leg 2 must use distinct IPs for SMPTE 2022-7 (got "@
                + addr::ip_text(ip1) + " for both)"@
        }),
{
}

/// What is said of a source that is refused is so.
pub proof fn lemma_source_refusals(
    source: Option<String>,
    bind_addr: Seq<char>,
    context: Seq<char>,
    said: Seq<char>,
)
    requires
        sockets::source_fault(source, bind_addr, context) == Some(said),
    ensures
        ({
            ||| source is Some && fields::ip_addr_fault(source->0@, context + " source_addr"@)
                == Some(said)
            ||| source is Some && addr::ip_of(source->0@)->0.spec_is_multicast() && said == context
                + ": source_addr must be unicast"@
            ||| source is Some && fields::interface_differs(bind_addr, source->0@) && said
                == context + ": source_addr must be of the address family of bind_addr"@
        }),
{
}

/// What is said of a pin that is refused is so.
pub proof fn lemma_pin_refusals(
    binding: Option<InterfaceBinding>,
    context: Seq<char>,
    said: Seq<char>,
)
    requires
        sockets::pin_fault(binding, context) == Some(said),
    ensures
        ({
            ||| binding is Some && !sockets::is_interface_name(binding->0.name@) && said == context
                + ": interface_binding name '"@ + binding->0.name@ + "' is not an interface name"@
        }),
{
}

/// What is said of a test pattern that is refused is so.
pub proof fn lemma_test_pattern_refusals(c: TestPatternInputConfig, said: Seq<char>)
    requires
        bounds::test_pattern_fault(c) == Some(said),
    ensures
        ({
            ||| (c.width % 2 != 0 || c.height % 2 != 0) && said
                == "Test pattern input: width and height must be divisible by 2"@
            ||| bounds::bounds_fault(c.fps as nat, 1, 60, "fps"@, "Test pattern input"@)
                == Some(said)
            ||| !(binary::FIFTY_SINGLE <= c.tone_hz.bits <= binary::EIGHT_THOUSAND_SINGLE) && said
                == "Test pattern input: tone_hz must be 50-8000"@
            ||| c.av_sync_marker && !c.audio_enabled && said
                == "Test pattern input: av_sync_marker requires audio_enabled"@
            ||| c.audio_enabled && !(c.audio_channels == 1 || c.audio_channels == 2
                || c.audio_channels == 6 || c.audio_channels == 8) && said
                == "Test pattern input: audio_channels must be 1, 2, 6 or 8"@
            ||| bounds::bounds_fault(c.ts_packets_per_datagram as nat, 1, 348,
                "ts_packets_per_datagram"@, "Test pattern input"@) == Some(said)
        }),
{
}

/// What is said of a media player that is refused is so.
pub proof fn lemma_media_player_refusals(c: MediaPlayerInputConfig, said: Seq<char>)
    requires
        bounds::media_player_fault(c) == Some(said),
    ensures
        ({
            ||| c.sources@.len() == 0 && said == "Media player input: sources cannot be empty"@
            ||| error::first_fault(c.sources@, bounds::asset_check(), 0) == Some(said)
            ||| c.paced_bitrate_bps is Some && bounds::bounds_fault(c.paced_bitrate_bps->0 as nat,
                100_000, 200_000_000, "paced_bitrate_bps"@, "Media player input"@) == Some(said)
            ||| bounds::bounds_fault(c.ts_packets_per_datagram as nat, 1, 348,
                "ts_packets_per_datagram"@, "Media player input"@) == Some(said)
        }),
{
}

/// What is said of a source of a media player that is refused is so.
pub proof fn lemma_asset_refusals(source: MediaPlayerSource, said: Seq<char>)
    requires
        bounds::asset_fault(source) == Some(said),
    ensures
        ({
            ||| !bounds::is_file_name(bounds::asset_name(source)) && said
                == "Media player input source: '"@ + bounds::asset_name(source)
                + "' is not a file name"@
            ||| match source {
                MediaPlayerSource::Ts { program_number, .. } => {
                    ||| fields::program_number_fault(program_number, "Media player input source"@)
                        == Some(said)
                },
                _ => false,
            }
        }),
{
}

/// What is said of the limits of an input that is refused is so.
pub proof fn lemma_input_bounds_refusals(input: InputConfig, said: Seq<char>)
    requires
        bounds::input_bounds_fault(input) == Some(said),
    ensures
        ({
            ||| match input {
                InputConfig::Rtp(c) => {
                    ||| bounds::ingress_delay_fault(c.ingress_delay_ms, "RTP input"@) == Some(said)
                    ||| bounds::dejitter_fault(c.ingress_dejitter_ms, "RTP input"@) == Some(said)
                    ||| c.redundancy is Some
                        && bounds::set_bounds_fault(c.redundancy->0.path_differential_ms, 5, 2000,
                        "path_differential_ms"@, "RTP input redundancy"@) == Some(said)
                },
                InputConfig::Udp(c) => {
                    ||| bounds::ingress_delay_fault(c.ingress_delay_ms, "UDP input"@) == Some(said)
                    ||| bounds::dejitter_fault(c.ingress_dejitter_ms, "UDP input"@) == Some(said)
                },
                InputConfig::Srt(c) => {
                    ||| bounds::ingress_delay_fault(c.ingress_delay_ms, "SRT input"@) == Some(said)
                },
                InputConfig::Rtmp(c) => {
                    ||| bounds::ingress_delay_fault(c.ingress_delay_ms, "RTMP input"@) == Some(said)
                },
                InputConfig::Rtsp(c) => {
                    ||| bounds::ingress_delay_fault(c.ingress_delay_ms, "RTSP input"@) == Some(said)
                },
                InputConfig::TestPattern(c) => {
                    ||| bounds::test_pattern_fault(c) == Some(said)
                },
                InputConfig::MediaPlayer(c) => {
                    ||| bounds::media_player_fault(c) == Some(said)
                },
                InputConfig::Replay(c) => {
                    ||| c.recording_id@.len() == 0 && said
                        == "Replay input: recording_id cannot be empty"@
                },
                InputConfig::MxlVideo(c) => {
                    ||| fields::clock_domain_fault(c.clock_domain, "MXL input"@) == Some(said)
                },
                InputConfig::MxlAudio(c) => {
                    ||| bounds::mxl_channels_fault(c.channels, "MXL input"@) == Some(said)
                    ||| fields::clock_domain_fault(c.clock_domain, "MXL input"@) == Some(said)
                },
                InputConfig::MxlAnc(c) => {
                    ||| fields::clock_domain_fault(c.clock_domain, "MXL input"@) == Some(said)
                },
                InputConfig::Sdi(c) => {
                    ||| bounds::sdi_channels_fault(c.audio_channels, "SDI input"@) == Some(said)
                },
                _ => false,
            }
        }),
{
}

/// What is said of the channels of MXL audio that is refused is so.
pub proof fn lemma_mxl_channels_refusals(channels: u8, context: Seq<char>, said: Seq<char>)
    requires
        bounds::mxl_channels_fault(channels, context) == Some(said),
    ensures
        ({
            ||| !(channels == 1 || channels == 2 || channels == 4 || channels == 8 || channels
                == 16) && said == context + ": channels must be 1, 2, 4, 8 or 16, got "@
                + text::dec(channels as nat)
        }),
{
}

/// What is said of the channels of SDI audio that is refused is so.
pub proof fn lemma_sdi_channels_refusals(channels: u8, context: Seq<char>, said: Seq<char>)
    requires
        bounds::sdi_channels_fault(channels, context) == Some(said),
    ensures
        ({
            ||| !(channels == 0 || channels == 2 || channels == 8 || channels == 16) && said
                == context + ": audio_channels must be 0, 2, 8 or 16, got "@
                + text::dec(channels as nat)
        }),
{
}

/// What is said of a number that is refused is so.
pub proof fn lemma_bounds_refusals(
    value: nat,
    low: nat,
    high: nat,
    what: Seq<char>,
    context: Seq<char>,
    said: Seq<char>,
)
    requires
        bounds::bounds_fault(value, low, high, what, context) == Some(said),
    ensures
        ({
            ||| !(low <= value <= high) && said == context + ": "@ + what + " must be "@
                + text::dec(low) + "-"@ + text::dec(high) + ", got "@ + text::dec(value)
        }),
{
}

/// What is said of AES3 audio that is refused is so.
pub proof fn lemma_aes3_input_refusals(c: St2110AudioInputConfig, said: Seq<char>)
    requires
        media::aes3_input_fault(c) == Some(said),
    ensures
        ({
            ||| c.transcode is Some && said
                == "ST 2110-31 input: transcode is not supported on AES3 audio"@
            ||| c.audio_encode is Some && c.audio_encode->0.codec@ != "s302m"@ && said
                == "ST 2110-31 input: audio_encode.codec '"@ + c.audio_encode->0.codec@
                + "' is not supported on AES3 audio"@
        }),
{
}

/// What is said of a map of packet identifiers that is refused is so.
pub proof fn lemma_pid_map_refusals(
    map: Option<BTreeMap<u16, u16>>,
    context: Seq<char>,
    said: Seq<char>,
)
    requires
        media::pid_map_fault(map, context) == Some(said),
    ensures
        ({
            ||| map is Some && !media::maps_assignable(map->0@) && said == context
                + ": pid_map PIDs must be 0x0010-0x1FFE"@
        }),
{
}

/// What is said of overrides that is refused is so.
pub proof fn lemma_overrides_refusals(
    overrides: Option<TsPidOverridesMap>,
    synthetic: bool,
    single: bool,
    context: Seq<char>,
    said: Seq<char>,
)
    requires
        media::overrides_fault(overrides, synthetic, single, context) == Some(said),
    ensures
        ({
            ||| overrides is Some && !media::all_assign(overrides->0@) && said == context
                + ": pid_overrides PIDs must be 0x0010-0x1FFE"@
            ||| overrides is Some && synthetic && !media::is_for_program_one(overrides->0@) && said
                == context + ": pid_overrides must hold exactly one entry, for program 1"@
            ||| overrides is Some && single && overrides->0@.len() > 1 && said == context
                + ": pid_overrides for more than one program cannot be combined with audio_encode or video_encode"@
        }),
{
}

} // verus!
