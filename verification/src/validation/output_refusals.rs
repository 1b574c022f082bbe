//! What is said of outputs that are refused.

use vstd::prelude::*;

use super::{bonds, bounds, encode, fields, media, outputs, rist, srt, st2110};
use crate::addr;
use crate::binary;
use crate::error;
use crate::models::{
    CmafOutputConfig, EgressPacingMode, HlsOutputConfig, OutputConfig, OutputDelay,
    RistOutputConfig, RtmpOutputConfig, RtpAudioOutputConfig, RtpOutputConfig,
    RtpOutputRedundancyConfig, SrtMode, SrtOutputConfig, St2110AncillaryOutputConfig,
    St2110AudioOutputConfig, St2110VideoOutputConfig, St2110_23OutputConfig, UdpOutputConfig,
    WebrtcOutputConfig, WebrtcOutputMode,
};
use crate::text;
use crate::validation::st2110::St2110Profile;

verus! {

/// What is said of the addresses of an RTP output that is refused is so.
pub proof fn lemma_rtp_output_family_refusals(rtp: RtpOutputConfig, said: Seq<char>)
    requires
        outputs::rtp_output_family_fault(rtp) == Some(said),
    ensures
        ({
            ||| fields::socket_syntax_fault(rtp.dest_addr@) == Some(said)
            ||| rtp.bind_addr is Some && fields::socket_syntax_fault(rtp.bind_addr->0@)
                == Some(said)
            ||| rtp.bind_addr is Some && fields::families_differ(rtp.dest_addr@, rtp.bind_addr->0@)
                && said == "RTP output '"@ + rtp.id@ + "': dest_addr '"@ + rtp.dest_addr@
                + "' and bind_addr '"@ + rtp.bind_addr->0@ + "' must use the same address family"@
            ||| rtp.interface_addr is Some && fields::ip_syntax_fault(rtp.interface_addr->0@)
                == Some(said)
            ||| rtp.interface_addr is Some && fields::interface_differs(rtp.dest_addr@,
                rtp.interface_addr->0@) && said == "RTP output '"@ + rtp.id@ + "': dest_addr '"@
                + rtp.dest_addr@ + "' and interface_addr '"@ + rtp.interface_addr->0@
                + "' must use the same address family"@
        }),
{
}

/// What is said of the second leg of an RTP output that is refused is so.
pub proof fn lemma_rtp_output_redundancy_refusals(
    red: RtpOutputRedundancyConfig,
    id: Seq<char>,
    dest_addr: Seq<char>,
    said: Seq<char>,
)
    requires
        outputs::rtp_output_redundancy_fault(red, id, dest_addr) == Some(said),
    ensures
        ({
            ||| fields::socket_addr_fault(red.dest_addr@, "RTP output redundancy dest_addr"@)
                == Some(said)
            ||| red.bind_addr is Some && fields::socket_addr_fault(red.bind_addr->0@,
                "RTP output redundancy bind_addr"@) == Some(said)
            ||| red.interface_addr is Some && fields::ip_addr_fault(red.interface_addr->0@,
                "RTP output redundancy interface_addr"@) == Some(said)
            ||| red.dscp is Some && red.dscp->0 > 63 && said == "RTP output '"@ + id
                + "' redundancy: DSCP must be 0-63, got "@ + text::dec(red.dscp->0 as nat)
            ||| fields::families_differ(dest_addr, red.dest_addr@) && said == "RTP output '"@ + id
                + "' redundancy: leg 1 ("@ + dest_addr + ") and leg 2 ("@ + red.dest_addr@
                + ") must use the same address family"@
        }),
{
}

/// What is said of an RTP output that is refused is so.
pub proof fn lemma_rtp_output_refusals(rtp: RtpOutputConfig, said: Seq<char>)
    requires
        outputs::rtp_output_fault(rtp) == Some(said),
    ensures
        ({
            ||| fields::id_fault(rtp.id@, "RTP output"@) == Some(said)
            ||| fields::name_fault(rtp.name@, "RTP output"@) == Some(said)
            ||| fields::program_number_fault(rtp.program_number, "RTP output '"@ + rtp.id@ + "'"@)
                == Some(said)
            ||| fields::socket_addr_fault(rtp.dest_addr@, "RTP output dest_addr"@) == Some(said)
            ||| rtp.bind_addr is Some && fields::socket_addr_fault(rtp.bind_addr->0@,
                "RTP output bind_addr"@) == Some(said)
            ||| rtp.interface_addr is Some && fields::ip_addr_fault(rtp.interface_addr->0@,
                "RTP output interface_addr"@) == Some(said)
            ||| rtp.fec_encode is Some && fields::fec_fault(rtp.fec_encode->0) == Some(said)
            ||| outputs::rtp_output_family_fault(rtp) == Some(said)
            ||| rtp.dscp > 63 && said == "RTP output '"@ + rtp.id@ + "': DSCP must be 0-63, got "@
                + text::dec(rtp.dscp as nat)
            ||| rtp.redundancy is Some && outputs::rtp_output_redundancy_fault(rtp.redundancy->0,
                rtp.id@, rtp.dest_addr@) == Some(said)
            ||| rtp.audio_encode is Some && rtp.redundancy is Some && said == "RTP output '"@
                + rtp.id@ + "': audio_encode is not yet supported with SMPTE 2022-7 redundancy"@
            ||| rtp.audio_encode is Some && rtp.fec_encode is Some && said == "RTP output '"@
                + rtp.id@ + "': audio_encode is not yet supported with SMPTE 2022-1 FEC encode"@
            ||| rtp.audio_encode is Some && encode::audio_encode_fault(rtp.audio_encode->0,
                seq!["aac_lc", "he_aac_v1", "he_aac_v2", "mp2", "ac3"], "RTP output '"@ + rtp.id@
                + "'"@) == Some(said)
            ||| rtp.video_encode is Some && rtp.redundancy is Some && said == "RTP output '"@
                + rtp.id@ + "': video_encode is not yet supported with SMPTE 2022-7 redundancy"@
            ||| rtp.video_encode is Some && rtp.fec_encode is Some && said == "RTP output '"@
                + rtp.id@ + "': video_encode is not yet supported with SMPTE 2022-1 FEC encode"@
            ||| rtp.video_encode is Some && encode::video_encode_fault(rtp.video_encode->0,
                "RTP output '"@ + rtp.id@ + "'"@) == Some(said)
        }),
{
}

/// What is said of a UDP output that is refused is so.
pub proof fn lemma_udp_output_refusals(udp: UdpOutputConfig, said: Seq<char>)
    requires
        outputs::udp_output_fault(udp) == Some(said),
    ensures
        ({
            ||| fields::id_fault(udp.id@, "UDP output"@) == Some(said)
            ||| fields::name_fault(udp.name@, "UDP output"@) == Some(said)
            ||| fields::program_number_fault(udp.program_number, "UDP output '"@ + udp.id@ + "'"@)
                == Some(said)
            ||| fields::socket_addr_fault(udp.dest_addr@, "UDP output dest_addr"@) == Some(said)
            ||| udp.bind_addr is Some && fields::socket_addr_fault(udp.bind_addr->0@,
                "UDP output bind_addr"@) == Some(said)
            ||| udp.interface_addr is Some && fields::ip_addr_fault(udp.interface_addr->0@,
                "UDP output interface_addr"@) == Some(said)
            ||| udp.dscp > 63 && said == "UDP output '"@ + udp.id@ + "': DSCP must be 0-63, got "@
                + text::dec(udp.dscp as nat)
            ||| udp.transport_mode is Some && !(udp.transport_mode->0@ == "ts"@
                || udp.transport_mode->0@ == "audio_302m"@) && said == "UDP output '"@ + udp.id@
                + "': transport_mode must be 'ts' or 'audio_302m', got '"@ + udp.transport_mode->0@
                + "'"@
            ||| udp.transport_mode is Some && udp.transport_mode->0@ == "audio_302m"@
                && udp.program_number is Some && said == "UDP output '"@ + udp.id@
                + "': transport_mode 'audio_302m' is incompatible with program_number"@
            ||| udp.transport_mode is Some && udp.transport_mode->0@ == "audio_302m"@
                && udp.pid_map is Some && said == "UDP output '"@ + udp.id@
                + "': transport_mode 'audio_302m' is incompatible with pid_map"@
            ||| udp.transport_mode is Some && udp.transport_mode->0@ == "audio_302m"@
                && udp.delay is Some && said == "UDP output '"@ + udp.id@
                + "': transport_mode 'audio_302m' is incompatible with delay"@
            ||| udp.audio_encode is Some && udp.transport_mode is Some && udp.transport_mode->0@
                == "audio_302m"@ && said == "UDP output '"@ + udp.id@
                + "': audio_encode is incompatible with transport_mode 'audio_302m'"@
            ||| udp.audio_encode is Some && encode::audio_encode_fault(udp.audio_encode->0,
                seq!["aac_lc", "he_aac_v1", "he_aac_v2", "mp2", "ac3"], "UDP output '"@ + udp.id@
                + "'"@) == Some(said)
            ||| udp.video_encode is Some && udp.transport_mode is Some && udp.transport_mode->0@
                == "audio_302m"@ && said == "UDP output '"@ + udp.id@
                + "': video_encode is incompatible with transport_mode 'audio_302m'"@
            ||| udp.video_encode is Some && encode::video_encode_fault(udp.video_encode->0,
                "UDP output '"@ + udp.id@ + "'"@) == Some(said)
        }),
{
}

/// What is said of the transport mode of an SRT output that is refused is so.
pub proof fn lemma_srt_output_transport_refusals(
    srt: SrtOutputConfig,
    tm: Seq<char>,
    said: Seq<char>,
)
    requires
        outputs::srt_output_transport_fault(srt, tm) == Some(said),
    ensures
        ({
            ||| !(tm == "ts"@ || tm == "audio_302m"@) && said == "SRT output '"@ + srt.id@
                + "': transport_mode must be 'ts' or 'audio_302m', got '"@ + tm + "'"@
            ||| tm == "audio_302m"@ && srt.packet_filter is Some && said == "SRT output '"@
                + srt.id@
                + "': transport_mode 'audio_302m' is incompatible with packet_filter (FEC)"@
            ||| tm == "audio_302m"@ && srt.program_number is Some && said == "SRT output '"@
                + srt.id@ + "': transport_mode 'audio_302m' is incompatible with program_number"@
            ||| tm == "audio_302m"@ && srt.redundancy is Some && said == "SRT output '"@ + srt.id@
                + "': transport_mode 'audio_302m' is incompatible with SMPTE 2022-7 redundancy"@
            ||| tm == "audio_302m"@ && srt.pid_map is Some && said == "SRT output '"@ + srt.id@
                + "': transport_mode 'audio_302m' is incompatible with pid_map"@
            ||| tm == "audio_302m"@ && srt.delay is Some && said == "SRT output '"@ + srt.id@
                + "': transport_mode 'audio_302m' is incompatible with delay"@
        }),
{
}

/// What is said of an SRT output that is refused is so.
pub proof fn lemma_srt_output_refusals(srt: SrtOutputConfig, said: Seq<char>)
    requires
        outputs::srt_output_fault(srt) == Some(said),
    ensures
        ({
            ||| fields::id_fault(srt.id@, "SRT output"@) == Some(said)
            ||| fields::name_fault(srt.name@, "SRT output"@) == Some(said)
            ||| fields::program_number_fault(srt.program_number, "SRT output '"@ + srt.id@ + "'"@)
                == Some(said)
            ||| srt::local_addr_fault(srt.mode, srt.local_addr, "SRT output"@) == Some(said)
            ||| srt::srt_common_fault(srt::spec_output_knobs(&srt), "SRT output"@) == Some(said)
            ||| srt.redundancy is Some && srt::srt_redundancy_fault(srt.redundancy->0,
                "SRT output"@) == Some(said)
            ||| srt.transport_mode is Some && outputs::srt_output_transport_fault(srt,
                srt.transport_mode->0@) == Some(said)
            ||| srt.audio_encode is Some && srt.transport_mode is Some && srt.transport_mode->0@
                == "audio_302m"@ && said == "SRT output '"@ + srt.id@
                + "': audio_encode is incompatible with transport_mode 'audio_302m'"@
            ||| srt.audio_encode is Some && srt.redundancy is Some && said == "SRT output '"@
                + srt.id@ + "': audio_encode is not yet supported with SMPTE 2022-7 redundancy"@
            ||| srt.audio_encode is Some && srt.packet_filter is Some && said == "SRT output '"@
                + srt.id@ + "': audio_encode is not yet supported with SRT FEC (packet_filter)"@
            ||| srt.audio_encode is Some && encode::audio_encode_fault(srt.audio_encode->0,
                seq!["aac_lc", "he_aac_v1", "he_aac_v2", "mp2", "ac3"], "SRT output '"@ + srt.id@
                + "'"@) == Some(said)
            ||| srt.video_encode is Some && srt.transport_mode is Some && srt.transport_mode->0@
                == "audio_302m"@ && said == "SRT output '"@ + srt.id@
                + "': video_encode is incompatible with transport_mode 'audio_302m'"@
            ||| srt.video_encode is Some && srt.redundancy is Some && said == "SRT output '"@
                + srt.id@ + "': video_encode is not yet supported with SMPTE 2022-7 redundancy"@
            ||| srt.video_encode is Some && srt.packet_filter is Some && said == "SRT output '"@
                + srt.id@ + "': video_encode is not yet supported with SRT FEC (packet_filter)"@
            ||| srt.video_encode is Some && encode::video_encode_fault(srt.video_encode->0,
                "SRT output '"@ + srt.id@ + "'"@) == Some(said)
        }),
{
}

/// What is said of an RTMP output that is refused is so.
pub proof fn lemma_rtmp_output_refusals(rtmp: RtmpOutputConfig, said: Seq<char>)
    requires
        outputs::rtmp_output_fault(rtmp) == Some(said),
    ensures
        ({
            ||| fields::id_fault(rtmp.id@, "RTMP output"@) == Some(said)
            ||| fields::name_fault(rtmp.name@, "RTMP output"@) == Some(said)
            ||| fields::program_number_fault(rtmp.program_number, "RTMP output '"@ + rtmp.id@
                + "'"@) == Some(said)
            ||| !text::has_prefix(rtmp.dest_url@, "rtmp://"@) && !text::has_prefix(rtmp.dest_url@,
                "rtmps://"@) && said == "RTMP output '"@ + rtmp.id@
                + "': dest_url must start with rtmp:// or rtmps://"@
            ||| text::byte_len(rtmp.dest_url@) > 2048 && said == "RTMP output '"@ + rtmp.id@
                + "': dest_url must be at most 2048 characters"@
            ||| rtmp.stream_key@.len() == 0 && said == "RTMP output '"@ + rtmp.id@
                + "': stream_key cannot be empty"@
            ||| text::byte_len(rtmp.stream_key@) > 256 && said == "RTMP output '"@ + rtmp.id@
                + "': stream_key must be at most 256 characters"@
            ||| rtmp.reconnect_delay_secs == 0 && said == "RTMP output '"@ + rtmp.id@
                + "': reconnect_delay_secs must be > 0"@
            ||| rtmp.audio_encode is Some && encode::audio_encode_fault(rtmp.audio_encode->0,
                seq!["aac_lc", "he_aac_v1", "he_aac_v2"], "RTMP output '"@ + rtmp.id@ + "'"@)
                == Some(said)
        }),
{
}

/// What is said of an HLS output that is refused is so.
pub proof fn lemma_hls_output_refusals(hls: HlsOutputConfig, said: Seq<char>)
    requires
        outputs::hls_output_fault(hls) == Some(said),
    ensures
        ({
            ||| fields::id_fault(hls.id@, "HLS output"@) == Some(said)
            ||| fields::name_fault(hls.name@, "HLS output"@) == Some(said)
            ||| fields::program_number_fault(hls.program_number, "HLS output '"@ + hls.id@ + "'"@)
                == Some(said)
            ||| !text::has_prefix(hls.ingest_url@, "http://"@) && !text::has_prefix(hls.ingest_url@,
                "https://"@) && said == "HLS output '"@ + hls.id@
                + "': ingest_url must start with http:// or https://"@
            ||| text::byte_len(hls.ingest_url@) > 2048 && said == "HLS output '"@ + hls.id@
                + "': ingest_url must be at most 2048 characters"@
            ||| hls.auth_token is Some && text::byte_len(hls.auth_token->0@) > 4096 && said
                == "HLS output '"@ + hls.id@ + "': auth_token must be at most 4096 characters"@
            ||| (binary::lt(hls.segment_duration_secs.bits, binary::HALF) || binary::lt(binary::TEN,
                hls.segment_duration_secs.bits)) && said == "HLS output '"@ + hls.id@
                + "': segment_duration_secs must be 0.5-10.0, got "@
                + hls.segment_duration_secs.text@
            ||| (hls.max_segments == 0 || hls.max_segments > 30) && said == "HLS output '"@
                + hls.id@ + "': max_segments must be 1-30, got "@
                + text::dec(hls.max_segments as nat)
            ||| hls.audio_encode is Some && encode::audio_encode_fault(hls.audio_encode->0,
                seq!["aac_lc", "he_aac_v1", "he_aac_v2", "mp2", "ac3"], "HLS output '"@ + hls.id@
                + "'"@) == Some(said)
        }),
{
}

/// What is said of the manifests of a CMAF output that is refused is so.
pub proof fn lemma_manifests_refusals(manifests: Seq<String>, id: Seq<char>, said: Seq<char>)
    requires
        outputs::manifests_fault(manifests, id) == Some(said),
    ensures
        ({
            ||| manifests.len() == 0 && said == "CMAF output '"@ + id
                + "': manifests cannot be empty"@
            ||| error::first_fault(manifests, outputs::manifest_check(id), 0) == Some(said)
        }),
{
}

/// What is said of what a CMAF output asks for that is refused is so.
pub proof fn lemma_cmaf_unsupported_refusals(cmaf: CmafOutputConfig, said: Seq<char>)
    requires
        outputs::cmaf_unsupported_fault(cmaf) == Some(said),
    ensures
        ({
            let p = "CMAF output '"@ + cmaf.id@;
            ||| cmaf.encryption is Some && said == p + "': encryption is not supported yet"@
            ||| cmaf.audio_encode is Some && said == p + "': audio_encode is not supported yet"@
            ||| cmaf.transcode is Some && said == p + "': transcode requires audio_encode"@
            ||| cmaf.video_encode is Some && said == p + "': video_encode is not supported yet"@
        }),
{
}

/// What is said of a CMAF output that is refused is so.
pub proof fn lemma_cmaf_output_refusals(cmaf: CmafOutputConfig, said: Seq<char>)
    requires
        outputs::cmaf_output_fault(cmaf) == Some(said),
    ensures
        ({
            let p = "CMAF output '"@ + cmaf.id@;
            ||| fields::id_fault(cmaf.id@, "CMAF output"@) == Some(said)
            ||| fields::name_fault(cmaf.name@, "CMAF output"@) == Some(said)
            ||| fields::program_number_fault(cmaf.program_number, p + "'"@) == Some(said)
            ||| !text::has_prefix(cmaf.ingest_url@, "http://"@)
                && !text::has_prefix(cmaf.ingest_url@, "https://"@) && said == p
                + "': ingest_url must start with http:// or https://"@
            ||| cmaf.low_latency && !(100 <= cmaf.chunk_duration_ms <= 2000) && said == p
                + "': chunk_duration_ms must be 100-2000, got "@
                + text::dec(cmaf.chunk_duration_ms as nat)
            ||| !(binary::le(binary::ONE, cmaf.segment_duration_secs.bits)
                && binary::le(cmaf.segment_duration_secs.bits, binary::TEN)) && said == p
                + "': segment_duration_secs must be 1.0-10.0, got "@
                + cmaf.segment_duration_secs.text@
            ||| (cmaf.max_segments == 0 || cmaf.max_segments > 30) && said == p
                + "': max_segments must be 1-30, got "@ + text::dec(cmaf.max_segments as nat)
            ||| outputs::manifests_fault(cmaf.manifests@, cmaf.id@) == Some(said)
            ||| outputs::cmaf_unsupported_fault(cmaf) == Some(said)
        }),
{
}

/// What is said of the mode of a WebRTC output that is refused is so.
pub proof fn lemma_webrtc_mode_refusals(webrtc: WebrtcOutputConfig, said: Seq<char>)
    requires
        outputs::webrtc_mode_fault(webrtc) == Some(said),
    ensures
        ({
            let url = webrtc.whip_url->0@;
            let max = webrtc.max_viewers->0;
            ||| match webrtc.mode {
                WebrtcOutputMode::WhipClient => {
                    ||| webrtc.whip_url is None && said == "WebRTC output '"@ + webrtc.id@
                        + "': whip_url is required for whip_client mode"@
                    ||| !text::has_prefix(url, "http://"@) && !text::has_prefix(url, "https://"@)
                        && said == "WebRTC output '"@ + webrtc.id@
                        + "': whip_url must start with http:// or https://"@
                    ||| text::byte_len(url) > 2048 && said == "WebRTC output '"@ + webrtc.id@
                        + "': whip_url must be at most 2048 characters"@
                },
                WebrtcOutputMode::WhepServer => {
                    ||| webrtc.max_viewers is Some && (max == 0 || max > 100) && said
                        == "WebRTC output '"@ + webrtc.id@ + "': max_viewers must be 1-100, got "@
                        + text::dec(max as nat)
                },
            }
        }),
{
}

/// What is said of a WebRTC output that is refused is so.
pub proof fn lemma_webrtc_output_refusals(webrtc: WebrtcOutputConfig, said: Seq<char>)
    requires
        outputs::webrtc_output_fault(webrtc) == Some(said),
    ensures
        ({
            ||| fields::id_fault(webrtc.id@, "WebRTC output"@) == Some(said)
            ||| fields::name_fault(webrtc.name@, "WebRTC output"@) == Some(said)
            ||| fields::program_number_fault(webrtc.program_number, "WebRTC output '"@ + webrtc.id@
                + "'"@) == Some(said)
            ||| outputs::webrtc_mode_fault(webrtc) == Some(said)
            ||| webrtc.bearer_token is Some && text::byte_len(webrtc.bearer_token->0@) > 4096
                && said == "WebRTC output '"@ + webrtc.id@
                + "': bearer_token must be at most 4096 characters"@
            ||| webrtc.public_ip is Some && addr::ip_of(webrtc.public_ip->0@) is None && said
                == "WebRTC output '"@ + webrtc.id@ + "': invalid public_ip '"@
                + webrtc.public_ip->0@ + "'"@
            ||| webrtc.audio_encode is Some && webrtc.video_only && said == "WebRTC output '"@
                + webrtc.id@
                + "': audio_encode requires video_only=false (audio MID must be negotiated in SDP)"@
            ||| webrtc.audio_encode is Some && encode::audio_encode_fault(webrtc.audio_encode->0,
                seq!["opus"], "WebRTC output '"@ + webrtc.id@ + "'"@) == Some(said)
        }),
{
}

/// What is said of a RIST address that is refused is so.
pub proof fn lemma_rist_addr_refusals(addr: Seq<char>, context: Seq<char>, said: Seq<char>)
    requires
        rist::rist_addr_fault(addr, context) == Some(said),
    ensures
        ({
            ||| fields::socket_addr_fault(addr, context) == Some(said)
            ||| addr::socket_of(addr)->0.port % 2 != 0 && said == context
                + ": RIST port must be even (RTCP binds on port+1), got "@
                + text::dec(addr::socket_of(addr)->0.port as nat)
        }),
{
}

/// What is said of the settings of a RIST leg that is refused is so.
pub proof fn lemma_rist_knobs_refusals(
    buffer_ms: Option<u32>,
    max_nack_retries: Option<u32>,
    cname: Option<Seq<char>>,
    rtcp_interval_ms: Option<u32>,
    context: Seq<char>,
    said: Seq<char>,
)
    requires
        rist::rist_knobs_fault(
            buffer_ms,
            max_nack_retries,
            cname,
            rtcp_interval_ms,
            context,
        ) == Some(said),
    ensures
        ({
            ||| buffer_ms is Some && !(50 <= buffer_ms->0 <= 30_000) && said == context
                + ": buffer_ms must be 50-30000, got "@ + text::dec(buffer_ms->0 as nat)
            ||| max_nack_retries is Some && max_nack_retries->0 > 50 && said == context
                + ": max_nack_retries must be ≤ 50, got "@ + text::dec(max_nack_retries->0 as nat)
            ||| cname is Some && text::byte_len(cname->0) > 256 && said == context
                + ": cname must be at most 256 characters"@
            ||| rtcp_interval_ms is Some && (rtcp_interval_ms->0 == 0 || rtcp_interval_ms->0 > 1000)
                && said == context
                + ": rtcp_interval_ms must be 1-1000 (TR-06-1 prefers ≤100), got "@
                + text::dec(rtcp_interval_ms->0 as nat)
        }),
{
}

/// What is said of a RIST output that is refused is so.
pub proof fn lemma_rist_output_refusals(rist: RistOutputConfig, said: Seq<char>)
    requires
        rist::rist_output_fault(rist) == Some(said),
    ensures
        ({
            ||| fields::id_fault(rist.id@, "RIST output"@) == Some(said)
            ||| fields::name_fault(rist.name@, "RIST output"@) == Some(said)
            ||| fields::output_group_fault(text::opt_view(rist.group), rist.id@) == Some(said)
            ||| fields::program_number_fault(rist.program_number, "RIST output '"@ + rist.id@
                + "'"@) == Some(said)
            ||| rist::rist_addr_fault(rist.remote_addr@, "RIST output '"@ + rist.id@
                + "' remote_addr"@) == Some(said)
            ||| rist.local_addr is Some && rist::rist_addr_fault(rist.local_addr->0@,
                "RIST output '"@ + rist.id@ + "' local_addr"@) == Some(said)
            ||| rist::rist_knobs_fault(rist.buffer_ms, None, text::opt_view(rist.cname),
                rist.rtcp_interval_ms, "RIST output '"@ + rist.id@ + "'"@) == Some(said)
            ||| rist.retransmit_buffer_capacity is Some && (rist.retransmit_buffer_capacity->0 < 64
                || rist.retransmit_buffer_capacity->0 > 65_536) && said == "RIST output '"@
                + rist.id@ + "': retransmit_buffer_capacity must be 64-65536, got "@
                + text::dec(rist.retransmit_buffer_capacity->0 as nat)
            ||| rist.redundancy is Some && rist::rist_addr_fault((rist.redundancy->0).remote_addr@,
                "RIST output '"@ + rist.id@ + "' redundancy remote_addr"@) == Some(said)
            ||| rist.redundancy is Some && (rist.redundancy->0).remote_addr@ == rist.remote_addr@
                && said == "RIST output '"@ + rist.id@
                + "': redundancy leg 2 remote_addr must differ from leg 1"@
            ||| rist.redundancy is Some && (rist.redundancy->0).local_addr is Some
                && rist::rist_addr_fault((rist.redundancy->0).local_addr->0@, "RIST output '"@
                + rist.id@ + "' redundancy local_addr"@) == Some(said)
            ||| rist.redundancy is Some && fields::families_differ(rist.remote_addr@,
                rist.redundancy->0.remote_addr@) && said == "RIST output '"@ + rist.id@
                + "': redundancy leg 1 and leg 2 must use the same address family"@
            ||| rist.audio_encode is Some && rist.redundancy is Some && said == "RIST output '"@
                + rist.id@ + "': audio_encode is not yet supported with SMPTE 2022-7 redundancy"@
            ||| rist.audio_encode is Some && encode::audio_encode_fault(rist.audio_encode->0,
                seq!["aac_lc", "he_aac_v1", "he_aac_v2", "mp2", "ac3"], "RIST output '"@ + rist.id@
                + "'"@) == Some(said)
            ||| rist.video_encode is Some && rist.redundancy is Some && said == "RIST output '"@
                + rist.id@ + "': video_encode is not yet supported with SMPTE 2022-7 redundancy"@
            ||| rist.video_encode is Some && encode::video_encode_fault(rist.video_encode->0,
                "RIST output '"@ + rist.id@ + "'"@) == Some(said)
        }),
{
}

/// What is said of an ST 2110 audio output that is refused is so.
pub proof fn lemma_st2110_audio_output_refusals(
    c: St2110AudioOutputConfig,
    profile: St2110Profile,
    upstream_audio: Option<(u32, u8, u8)>,
    said: Seq<char>,
)
    requires
        st2110::st2110_audio_output_fault(c, profile, upstream_audio) == Some(said),
    ensures
        ({
            let label = profile.label_text();
            ||| fields::id_fault(c.id@, label + " output"@) == Some(said)
            ||| fields::name_fault(c.name@, label + " output"@) == Some(said)
            ||| fields::socket_addr_fault(c.dest_addr@, label + " output dest_addr"@) == Some(said)
            ||| c.bind_addr is Some && fields::socket_addr_fault(c.bind_addr->0@, label
                + " output bind_addr"@) == Some(said)
            ||| c.interface_addr is Some && fields::ip_addr_fault(c.interface_addr->0@, label
                + " output interface_addr"@) == Some(said)
            ||| st2110::st2110_audio_params_fault(profile, c.sample_rate, c.bit_depth, c.channels,
                c.packet_time_us, label + " output '"@ + c.id@ + "'"@) == Some(said)
            ||| fields::payload_type_fault(c.payload_type, label + " output '"@ + c.id@ + "'"@)
                == Some(said)
            ||| fields::clock_domain_fault(c.clock_domain, label + " output '"@ + c.id@ + "'"@)
                == Some(said)
            ||| c.dscp > 63 && said == label + " output '"@ + c.id@ + "': DSCP must be 0-63, got "@
                + text::dec(c.dscp as nat)
            ||| c.redundancy is Some && fields::red_blue_fault(c.redundancy->0, c.dest_addr@, label
                + " output '"@ + c.id@ + "' redundancy"@) == Some(said)
            ||| c.transcode is Some && encode::transcode_fault(c.transcode->0,
                st2110::upstream_or(upstream_audio, c.sample_rate, c.bit_depth, c.channels).0,
                st2110::upstream_or(upstream_audio, c.sample_rate, c.bit_depth, c.channels).1,
                st2110::upstream_or(upstream_audio, c.sample_rate, c.bit_depth, c.channels).2, label
                + " output '"@ + c.id@ + "' transcode"@) == Some(said)
        }),
{
}

/// What is said of an ST 2110-40 output that is refused is so.
pub proof fn lemma_st2110_ancillary_output_refusals(c: St2110AncillaryOutputConfig, said: Seq<char>)
    requires
        st2110::st2110_ancillary_output_fault(c) == Some(said),
    ensures
        ({
            ||| fields::id_fault(c.id@, "ST 2110-40 output"@) == Some(said)
            ||| fields::name_fault(c.name@, "ST 2110-40 output"@) == Some(said)
            ||| fields::socket_addr_fault(c.dest_addr@, "ST 2110-40 output dest_addr"@)
                == Some(said)
            ||| c.bind_addr is Some && fields::socket_addr_fault(c.bind_addr->0@,
                "ST 2110-40 output bind_addr"@) == Some(said)
            ||| c.interface_addr is Some && fields::ip_addr_fault(c.interface_addr->0@,
                "ST 2110-40 output interface_addr"@) == Some(said)
            ||| fields::payload_type_fault(c.payload_type, "ST 2110-40 output '"@ + c.id@ + "'"@)
                == Some(said)
            ||| fields::clock_domain_fault(c.clock_domain, "ST 2110-40 output '"@ + c.id@ + "'"@)
                == Some(said)
            ||| c.dscp > 63 && said == "ST 2110-40 output '"@ + c.id@
                + "': DSCP must be 0-63, got "@ + text::dec(c.dscp as nat)
            ||| c.redundancy is Some && fields::red_blue_fault(c.redundancy->0, c.dest_addr@,
                "ST 2110-40 output '"@ + c.id@ + "' redundancy"@) == Some(said)
        }),
{
}

/// What is said of an ST 2110-20 output that is refused is so.
pub proof fn lemma_st2110_video_output_refusals(c: St2110VideoOutputConfig, said: Seq<char>)
    requires
        st2110::st2110_video_output_fault(c) == Some(said),
    ensures
        ({
            ||| fields::id_fault(c.id@, "ST 2110-20 output"@) == Some(said)
            ||| fields::name_fault(c.name@, "ST 2110-20 output"@) == Some(said)
            ||| fields::socket_addr_fault(c.dest_addr@, "ST 2110-20 output '"@ + c.id@
                + "' dest_addr"@) == Some(said)
            ||| c.bind_addr is Some && fields::socket_addr_fault(c.bind_addr->0@,
                "ST 2110-20 output '"@ + c.id@ + "' bind_addr"@) == Some(said)
            ||| c.interface_addr is Some && fields::ip_addr_fault(c.interface_addr->0@,
                "ST 2110-20 output '"@ + c.id@ + "' interface_addr"@) == Some(said)
            ||| fields::video_dims_fault(c.width, c.height, c.frame_rate_num, c.frame_rate_den,
                "ST 2110-20 output '"@ + c.id@ + "'"@) == Some(said)
            ||| fields::payload_type_fault(c.payload_type, "ST 2110-20 output '"@ + c.id@ + "'"@)
                == Some(said)
            ||| fields::clock_domain_fault(c.clock_domain, "ST 2110-20 output '"@ + c.id@ + "'"@)
                == Some(said)
            ||| c.dscp > 63 && said == "ST 2110-20 output '"@ + c.id@
                + "': DSCP must be 0-63, got "@ + text::dec(c.dscp as nat)
            ||| c.redundancy is Some && fields::red_blue_fault(c.redundancy->0, c.dest_addr@,
                "ST 2110-20 output '"@ + c.id@ + "' redundancy"@) == Some(said)
            ||| fields::payload_budget_fault(c.payload_budget, "ST 2110-20 output '"@ + c.id@
                + "'"@) == Some(said)
        }),
{
}

/// What is said of an ST 2110-23 output that is refused is so.
pub proof fn lemma_st2110_23_output_refusals(c: St2110_23OutputConfig, said: Seq<char>)
    requires
        st2110::st2110_23_output_fault(c) == Some(said),
    ensures
        ({
            ||| fields::id_fault(c.id@, "ST 2110-23 output"@) == Some(said)
            ||| fields::name_fault(c.name@, "ST 2110-23 output"@) == Some(said)
            ||| (c.sub_streams.len() < 2 || c.sub_streams.len() > 16) && said
                == "ST 2110-23 output '"@ + c.id@ + "': sub_streams must have 2..=16 entries, got "@
                + text::dec(c.sub_streams@.len())
            ||| st2110::sub_stream_dests_fault(c.sub_streams, "ST 2110-23 output '"@ + c.id@ + "'"@)
                == Some(said)
            ||| fields::video_dims_fault(c.width, c.height, c.frame_rate_num, c.frame_rate_den,
                "ST 2110-23 output '"@ + c.id@ + "'"@) == Some(said)
            ||| fields::clock_domain_fault(c.clock_domain, "ST 2110-23 output '"@ + c.id@ + "'"@)
                == Some(said)
            ||| c.dscp > 63 && said == "ST 2110-23 output '"@ + c.id@
                + "': DSCP must be 0-63, got "@ + text::dec(c.dscp as nat)
            ||| fields::payload_budget_fault(c.payload_budget, "ST 2110-23 output '"@ + c.id@
                + "'"@) == Some(said)
        }),
{
}

/// What is said of an RTP audio output that is refused is so.
pub proof fn lemma_rtp_audio_output_refusals(
    c: RtpAudioOutputConfig,
    upstream_audio: Option<(u32, u8, u8)>,
    said: Seq<char>,
)
    requires
        st2110::rtp_audio_output_fault(c, upstream_audio) == Some(said),
    ensures
        ({
            ||| fields::id_fault(c.id@, "rtp_audio output"@) == Some(said)
            ||| fields::name_fault(c.name@, "rtp_audio output"@) == Some(said)
            ||| fields::socket_addr_fault(c.dest_addr@, "rtp_audio output '"@ + c.id@
                + "' dest_addr"@) == Some(said)
            ||| c.bind_addr is Some && fields::socket_addr_fault(c.bind_addr->0@,
                "rtp_audio output '"@ + c.id@ + "' bind_addr"@) == Some(said)
            ||| c.interface_addr is Some && fields::ip_addr_fault(c.interface_addr->0@,
                "rtp_audio output '"@ + c.id@ + "' interface_addr"@) == Some(said)
            ||| fields::rtp_audio_params_fault(c.sample_rate, c.bit_depth, c.channels,
                c.packet_time_us, "rtp_audio output '"@ + c.id@ + "'"@) == Some(said)
            ||| fields::payload_type_fault(c.payload_type, "rtp_audio output '"@ + c.id@ + "'"@)
                == Some(said)
            ||| c.dscp > 63 && said == "rtp_audio output '"@ + c.id@ + "': DSCP must be 0-63, got "@
                + text::dec(c.dscp as nat)
            ||| c.redundancy is Some && fields::red_blue_fault(c.redundancy->0, c.dest_addr@,
                "rtp_audio output '"@ + c.id@ + "' redundancy"@) == Some(said)
            ||| c.transcode is Some && encode::transcode_fault(c.transcode->0,
                st2110::upstream_or(upstream_audio, c.sample_rate, c.bit_depth, c.channels).0,
                st2110::upstream_or(upstream_audio, c.sample_rate, c.bit_depth, c.channels).1,
                st2110::upstream_or(upstream_audio, c.sample_rate, c.bit_depth, c.channels).2,
                "rtp_audio output '"@ + c.id@ + "' transcode"@) == Some(said)
            ||| c.transport_mode is Some && !(c.transport_mode->0@ == "rtp"@ || c.transport_mode->0@
                == "audio_302m"@) && said == "rtp_audio output '"@ + c.id@
                + "': transport_mode must be 'rtp' or 'audio_302m', got '"@ + c.transport_mode->0@
                + "'"@
        }),
{
}

/// What is said of the delay of an output that is refused is so.
pub proof fn lemma_delay_refusals(delay: Option<OutputDelay>, context: Seq<char>, said: Seq<char>)
    requires
        bounds::delay_fault(delay, context) == Some(said),
    ensures
        ({
            ||| match delay {
                Some(OutputDelay::Fixed { ms }) => {
                    ||| bounds::bounds_fault(ms as nat, 0, 10_000, "delay ms"@, context)
                        == Some(said)
                },
                Some(OutputDelay::TargetMs { ms }) => {
                    ||| bounds::bounds_fault(ms as nat, 1, 10_000, "delay ms"@, context)
                        == Some(said)
                },
                Some(OutputDelay::TargetFrames { frames, .. }) => {
                    ||| !(binary::le(binary::HUNDREDTH, frames.bits) && binary::le(frames.bits,
                        binary::THREE_HUNDRED)) && said == context
                        + ": delay frames must be 0.01-300.0, got "@ + frames.text@
                },
                None => false,
            }
        }),
{
}

/// What is said of the limits of an output that is refused is so.
pub proof fn lemma_output_bounds_refusals(output: OutputConfig, said: Seq<char>)
    requires
        bounds::output_bounds_fault(output) == Some(said),
    ensures
        ({
            let context = "Output '"@ + output.spec_id() + "'"@;
            ||| match output {
                OutputConfig::Rtp(c) => {
                    ||| bounds::delay_fault(c.delay, context) == Some(said)
                },
                OutputConfig::Udp(c) => {
                    ||| bounds::delay_fault(c.delay, context) == Some(said)
                },
                OutputConfig::Srt(c) => {
                    ||| bounds::delay_fault(c.delay, context) == Some(said)
                },
                OutputConfig::Rist(c) => {
                    ||| bounds::delay_fault(c.delay, context) == Some(said)
                },
                OutputConfig::Bonded(c) => {
                    ||| bounds::naming_fault(c.id@, c.name@, "Bonded output"@) == Some(said)
                },
                OutputConfig::Display(c) => {
                    ||| bounds::naming_fault(c.id@, c.name@, "Display output"@) == Some(said)
                    ||| bounds::display_audio_fault(c, context) == Some(said)
                },
                OutputConfig::Sdi(c) => {
                    ||| bounds::naming_fault(c.id@, c.name@, "SDI output"@) == Some(said)
                    ||| c.mode@.len() == 0 && said == context + ": mode cannot be empty"@
                    ||| bounds::sdi_channels_fault(c.audio_channels, context) == Some(said)
                },
                OutputConfig::MxlVideo(c) => {
                    ||| bounds::naming_fault(c.id@, c.name@, "MXL output"@) == Some(said)
                    ||| fields::clock_domain_fault(c.clock_domain, context) == Some(said)
                },
                OutputConfig::MxlAudio(c) => {
                    ||| bounds::naming_fault(c.id@, c.name@, "MXL output"@) == Some(said)
                    ||| bounds::mxl_channels_fault(c.channels, context) == Some(said)
                    ||| fields::clock_domain_fault(c.clock_domain, context) == Some(said)
                },
                OutputConfig::MxlAnc(c) => {
                    ||| bounds::naming_fault(c.id@, c.name@, "MXL output"@) == Some(said)
                    ||| fields::clock_domain_fault(c.clock_domain, context) == Some(said)
                },
                _ => false,
            }
        }),
{
}

/// What is said of the buffer of an output that is refused is so.
pub proof fn lemma_egress_buffer_refusals(
    buffer_ms: Option<u32>,
    pacing: Option<EgressPacingMode>,
    context: Seq<char>,
    said: Seq<char>,
)
    requires
        media::egress_buffer_fault(buffer_ms, pacing, context) == Some(said),
    ensures
        ({
            ||| buffer_ms is Some && pacing != Some(EgressPacingMode::Servo) && said == context
                + ": egress_buffer_ms requires egress_pacing 'servo'"@
            ||| buffer_ms is Some && !(20 <= buffer_ms->0 <= 2000) && said == context
                + ": egress_buffer_ms must be 20-2000, got "@ + text::dec(buffer_ms->0 as nat)
        }),
{
}

/// What is said of the padding of an output that is refused is so.
pub proof fn lemma_padding_refusals(
    pad_kbps: Option<u32>,
    declared: nat,
    context: Seq<char>,
    said: Seq<char>,
)
    requires
        media::padding_fault(pad_kbps, declared, context) == Some(said),
    ensures
        ({
            ||| pad_kbps is Some && !(1000 <= pad_kbps->0 <= 1_000_000) && said == context
                + ": cbr_pad_to_kbps must be 1000-1000000, got "@ + text::dec(pad_kbps->0 as nat)
            ||| pad_kbps is Some && 100 * pad_kbps->0 < 105 * declared && said == context
                + ": cbr_pad_to_kbps must be at least 5% above the encoded bitrate ("@
                + text::dec(declared) + " kbps), got "@ + text::dec(pad_kbps->0 as nat)
        }),
{
}

/// What is said of the sockets of an SRT leg that is refused is so.
pub proof fn lemma_srt_sockets_refusals(
    mode: SrtMode,
    local_addr: Option<String>,
    remote_addr: Option<String>,
    pinned_strictly: bool,
    context: Seq<char>,
    said: Seq<char>,
)
    requires
        media::srt_sockets_fault(
            mode,
            local_addr,
            remote_addr,
            pinned_strictly,
            context,
        ) == Some(said),
    ensures
        ({
            ||| mode is Caller && local_addr is Some && remote_addr is Some && local_addr->0@
                == remote_addr->0@ && said == context
                + ": local_addr must differ from remote_addr in caller mode"@
            ||| pinned_strictly && said == context
                + ": strict interface_binding is not supported on SRT"@
        }),
{
}

/// What is said of what an output carries that is refused is so.
pub proof fn lemma_output_media_refusals(output: OutputConfig, said: Seq<char>)
    requires
        media::output_media_fault(output) == Some(said),
    ensures
        ({
            let context = "Output '"@ + output.spec_id() + "'"@;
            ||| media::output_stream_fault(output, context) == Some(said)
            ||| match output {
                OutputConfig::Rtp(c) => {
                    ||| media::egress_buffer_fault(c.egress_buffer_ms, c.egress_pacing, context)
                        == Some(said)
                    ||| media::padding_fault(c.cbr_pad_to_kbps, media::declared_kbps(c.audio_encode,
                        c.video_encode), context) == Some(said)
                },
                OutputConfig::Udp(c) => {
                    ||| media::egress_buffer_fault(c.egress_buffer_ms, c.egress_pacing, context)
                        == Some(said)
                    ||| media::padding_fault(c.cbr_pad_to_kbps, media::declared_kbps(c.audio_encode,
                        c.video_encode), context) == Some(said)
                },
                OutputConfig::Srt(c) => {
                    ||| media::srt_sockets_fault(c.mode, c.local_addr, c.remote_addr,
                        media::is_strict(c.interface_binding) || media::has_strict_leg(c.redundancy)
                        || media::has_strict_member(c.bonding), context) == Some(said)
                    ||| media::padding_fault(c.cbr_pad_to_kbps, media::declared_kbps(c.audio_encode,
                        c.video_encode), context) == Some(said)
                },
                OutputConfig::Bonded(c) => {
                    ||| bonds::bonded_output_fault(c, context) == Some(said)
                },
                OutputConfig::Display(c) => {
                    ||| !media::is_connector(c.device@) && said == context + ": device '"@
                        + c.device@ + "' is not a display connector name"@
                },
                OutputConfig::Sdi(c) => {
                    ||| !(-1000 <= c.audio_offset_ms <= 1000) && said == context
                        + ": audio_offset_ms must be -1000..=1000, got "@
                        + text::dec_int(c.audio_offset_ms as int)
                },
                _ => false,
            }
        }),
{
}

/// What is said of the group of an output that is refused is so.
pub proof fn lemma_output_group_refusals(
    group: Option<Seq<char>>,
    output_id: Seq<char>,
    said: Seq<char>,
)
    requires
        fields::output_group_fault(group, output_id) == Some(said),
    ensures
        ({
            ||| group is Some && text::byte_len(group->0) > 64 && said == "Output '"@ + output_id
                + "': group tag must be at most 64 characters"@
        }),
{
}

} // verus!
