//! Which outputs are accepted, protocol by protocol.

use vstd::prelude::*;

use super::{bonds, bounds, encode, fields, media, outputs, rist, sockets, srt, st2110};
use crate::addr;
use crate::binary;
use crate::error;
use crate::models::{
    CmafOutputConfig, EgressPacingMode, HlsOutputConfig, OutputConfig, OutputDelay,
    RistOutputConfig, RtmpOutputConfig, RtpAudioOutputConfig, RtpOutputConfig, SrtOutputConfig,
    St2110AncillaryOutputConfig, St2110AudioOutputConfig, St2110VideoOutputConfig,
    St2110_23OutputConfig, St2110_23SubStreamDest, UdpOutputConfig, WebrtcOutputConfig,
    WebrtcOutputMode,
};
use crate::text;
use crate::validation::st2110::St2110Profile;

verus! {

/// An RTP output is accepted exactly when it is named, its addresses are addresses of one
/// family, its numbers are within their limits, and it encodes nothing anew next to a
/// second leg or forward error correction.
pub proof fn lemma_rtp_output_accepts(rtp: RtpOutputConfig)
    ensures
        outputs::rtp_output_fault(rtp) is None <==> {
            &&& rtp.id@.len() > 0
            &&& text::byte_len(rtp.id@) <= 64
            &&& rtp.name@.len() > 0
            &&& text::byte_len(rtp.name@) <= 256
            &&& rtp.program_number != Some(0u16)
            &&& addr::socket_of(rtp.dest_addr@) is Some
            &&& rtp.bind_addr is Some ==> addr::socket_of(rtp.bind_addr->0@) is Some
            &&& rtp.interface_addr is Some ==> addr::ip_of(rtp.interface_addr->0@) is Some
            &&& rtp.fec_encode is Some ==> 1 <= rtp.fec_encode->0.columns <= 20
            &&& rtp.fec_encode is Some ==> 4 <= rtp.fec_encode->0.rows <= 20
            &&& rtp.bind_addr is Some ==> (addr::socket_of(rtp.dest_addr@) is Some
                && addr::socket_of(rtp.bind_addr->0@) is Some
                ==> (addr::socket_of(rtp.dest_addr@)->0.ip is V4
                <==> addr::socket_of(rtp.bind_addr->0@)->0.ip is V4))
            &&& rtp.interface_addr is Some ==> (addr::socket_of(rtp.dest_addr@) is Some
                && addr::ip_of(rtp.interface_addr->0@) is Some
                ==> (addr::socket_of(rtp.dest_addr@)->0.ip is V4
                <==> addr::ip_of(rtp.interface_addr->0@)->0 is V4))
            &&& rtp.dscp <= 63
            &&& rtp.redundancy is Some ==> addr::socket_of(rtp.redundancy->0.dest_addr@) is Some
            &&& rtp.redundancy is Some && rtp.redundancy->0.bind_addr is Some
                ==> addr::socket_of(rtp.redundancy->0.bind_addr->0@) is Some
            &&& rtp.redundancy is Some && rtp.redundancy->0.interface_addr is Some
                ==> addr::ip_of(rtp.redundancy->0.interface_addr->0@) is Some
            &&& rtp.redundancy is Some && rtp.redundancy->0.dscp is Some
                ==> rtp.redundancy->0.dscp->0 <= 63
            &&& rtp.redundancy is Some ==> (addr::socket_of(rtp.dest_addr@) is Some
                && addr::socket_of(rtp.redundancy->0.dest_addr@) is Some
                ==> (addr::socket_of(rtp.dest_addr@)->0.ip is V4
                <==> addr::socket_of(rtp.redundancy->0.dest_addr@)->0.ip is V4))
            &&& rtp.audio_encode is Some ==> rtp.redundancy is None
            &&& rtp.audio_encode is Some ==> rtp.fec_encode is None
            &&& rtp.audio_encode is Some
                ==> encode::audio_encode_fault(
                    rtp.audio_encode->0,
                    seq!["aac_lc", "he_aac_v1", "he_aac_v2", "mp2", "ac3"],
                    "RTP output '"@ + rtp.id@ + "'"@,
                ) is None
            &&& rtp.video_encode is Some ==> rtp.redundancy is None
            &&& rtp.video_encode is Some ==> rtp.fec_encode is None
            &&& rtp.video_encode is Some
                ==> encode::video_encode_fault(
                    rtp.video_encode->0,
                    "RTP output '"@ + rtp.id@ + "'"@,
                ) is None
        },
{
}

/// A UDP output is accepted exactly when it is named, its addresses are addresses, and
/// audio in SMPTE 302M comes without a program, a map, a delay or an encoder.
pub proof fn lemma_udp_output_accepts(udp: UdpOutputConfig)
    ensures
        outputs::udp_output_fault(udp) is None <==> {
            &&& udp.id@.len() > 0
            &&& text::byte_len(udp.id@) <= 64
            &&& udp.name@.len() > 0
            &&& text::byte_len(udp.name@) <= 256
            &&& udp.program_number != Some(0u16)
            &&& addr::socket_of(udp.dest_addr@) is Some
            &&& udp.bind_addr is Some ==> addr::socket_of(udp.bind_addr->0@) is Some
            &&& udp.interface_addr is Some ==> addr::ip_of(udp.interface_addr->0@) is Some
            &&& udp.dscp <= 63
            &&& udp.transport_mode is Some ==> (udp.transport_mode->0@ == "ts"@
                || udp.transport_mode->0@ == "audio_302m"@)
            &&& udp.transport_mode is Some && udp.transport_mode->0@ == "audio_302m"@
                ==> udp.program_number is None
            &&& udp.transport_mode is Some && udp.transport_mode->0@ == "audio_302m"@
                ==> udp.pid_map is None
            &&& udp.transport_mode is Some && udp.transport_mode->0@ == "audio_302m"@
                ==> udp.delay is None
            &&& udp.audio_encode is Some && udp.transport_mode is Some
                ==> udp.transport_mode->0@ != "audio_302m"@
            &&& udp.audio_encode is Some
                ==> encode::audio_encode_fault(
                    udp.audio_encode->0,
                    seq!["aac_lc", "he_aac_v1", "he_aac_v2", "mp2", "ac3"],
                    "UDP output '"@ + udp.id@ + "'"@,
                ) is None
            &&& udp.video_encode is Some && udp.transport_mode is Some
                ==> udp.transport_mode->0@ != "audio_302m"@
            &&& udp.video_encode is Some
                ==> encode::video_encode_fault(
                    udp.video_encode->0,
                    "UDP output '"@ + udp.id@ + "'"@,
                ) is None
        },
{
}

/// An SRT output is accepted exactly when it is named, has the addresses that its mode
/// needs, and each of its settings is within its limits, whatever the others are.
pub proof fn lemma_srt_output_accepts(srt: SrtOutputConfig)
    ensures
        outputs::srt_output_fault(srt) is None <==> {
            &&& srt.id@.len() > 0
            &&& text::byte_len(srt.id@) <= 64
            &&& srt.name@.len() > 0
            &&& text::byte_len(srt.name@) <= 256
            &&& srt.program_number != Some(0u16)
            &&& srt.mode !is Caller ==> srt.local_addr is Some
            &&& srt.local_addr is Some ==> addr::socket_of(srt.local_addr->0@) is Some
            &&& srt.mode !is Listener ==> srt.remote_addr is Some
            &&& srt.mode !is Listener ==> addr::socket_of(srt.remote_addr->0@) is Some
            &&& srt.passphrase is Some ==> 10 <= text::byte_len(srt.passphrase->0@) <= 79
            &&& srt.aes_key_len is Some ==> (srt.aes_key_len->0 == 16 || srt.aes_key_len->0 == 24
                || srt.aes_key_len->0 == 32)
            &&& srt.crypto_mode is Some ==> (srt.crypto_mode->0@ == "aes-ctr"@
                || srt.crypto_mode->0@ == "aes-gcm"@)
            &&& srt.crypto_mode is Some && srt.crypto_mode->0@ == "aes-gcm"@
                ==> srt.aes_key_len != Some(24usize)
            &&& srt.max_rexmit_bw is Some ==> srt.max_rexmit_bw->0 >= -1
            &&& srt.stream_id is Some ==> text::byte_len(srt.stream_id->0@) <= 512
            &&& srt.packet_filter is Some ==> text::byte_len(srt.packet_filter->0.spec_text@) <= 512
            &&& srt.packet_filter is Some ==> srt.packet_filter->0.parsed is Matrix
            &&& srt.packet_filter is Some ==> 1 <= srt.packet_filter->0.parsed->Matrix_0.cols <= 256
            &&& srt.packet_filter is Some ==> 1 <= srt.packet_filter->0.parsed->Matrix_0.rows <= 256
            &&& srt.max_bw is Some ==> srt.max_bw->0 >= 0
            &&& srt.overhead_bw is Some ==> 5 <= srt.overhead_bw->0 <= 100
            &&& srt.flight_flag_size is Some ==> srt.flight_flag_size->0 >= 32
            &&& srt.send_buffer_size is Some ==> srt.send_buffer_size->0 >= 32
            &&& srt.recv_buffer_size is Some ==> srt.recv_buffer_size->0 >= 32
            &&& srt.ip_tos is Some ==> 0 <= srt.ip_tos->0 <= 255
            &&& srt.retransmit_algo is Some ==> (srt.retransmit_algo->0@ == "default"@
                || srt.retransmit_algo->0@ == "reduced"@)
            &&& srt.send_drop_delay is Some ==> srt.send_drop_delay->0 >= -1
            &&& srt.loss_max_ttl is Some ==> srt.loss_max_ttl->0 >= 0
            &&& srt.km_refresh_rate is Some ==> srt.km_refresh_rate->0 != 0
            &&& srt.km_pre_announce is Some ==> srt.km_pre_announce->0 != 0
            &&& srt.payload_size is Some ==> 188 <= srt.payload_size->0 <= 1456
            &&& srt.mss is Some ==> 76 <= srt.mss->0 <= 9000
            &&& srt.ip_ttl is Some ==> 1 <= srt.ip_ttl->0 <= 255
            &&& srt.redundancy is Some
                ==> srt::srt_redundancy_fault(srt.redundancy->0, "SRT output"@) is None
            &&& srt.transport_mode is Some ==> (srt.transport_mode->0@ == "ts"@
                || srt.transport_mode->0@ == "audio_302m"@)
            &&& srt.transport_mode is Some && srt.transport_mode->0@ == "audio_302m"@
                ==> srt.packet_filter is None
            &&& srt.transport_mode is Some && srt.transport_mode->0@ == "audio_302m"@
                ==> srt.program_number is None
            &&& srt.transport_mode is Some && srt.transport_mode->0@ == "audio_302m"@
                ==> srt.redundancy is None
            &&& srt.transport_mode is Some && srt.transport_mode->0@ == "audio_302m"@
                ==> srt.pid_map is None
            &&& srt.transport_mode is Some && srt.transport_mode->0@ == "audio_302m"@
                ==> srt.delay is None
            &&& srt.audio_encode is Some && srt.transport_mode is Some
                ==> srt.transport_mode->0@ != "audio_302m"@
            &&& srt.audio_encode is Some ==> srt.redundancy is None
            &&& srt.audio_encode is Some ==> srt.packet_filter is None
            &&& srt.audio_encode is Some
                ==> encode::audio_encode_fault(
                    srt.audio_encode->0,
                    seq!["aac_lc", "he_aac_v1", "he_aac_v2", "mp2", "ac3"],
                    "SRT output '"@ + srt.id@ + "'"@,
                ) is None
            &&& srt.video_encode is Some && srt.transport_mode is Some
                ==> srt.transport_mode->0@ != "audio_302m"@
            &&& srt.video_encode is Some ==> srt.redundancy is None
            &&& srt.video_encode is Some ==> srt.packet_filter is None
            &&& srt.video_encode is Some
                ==> encode::video_encode_fault(
                    srt.video_encode->0,
                    "SRT output '"@ + srt.id@ + "'"@,
                ) is None
        },
{
}

/// An SRT output that passes all its rules has somewhere to send to unless it listens,
/// has a local address unless it calls, has a passphrase of 10 to 79 bytes if any, and
/// keeps each other setting within its limits.
pub proof fn lemma_accepted_srt_output(srt: SrtOutputConfig, upstream_audio: Option<(u32, u8, u8)>)
    requires
        outputs::output_fault(OutputConfig::Srt(srt), upstream_audio) is None,
    ensures
        srt.mode is Caller ==> srt.remote_addr is Some && addr::socket_of(srt.remote_addr->0@)
            is Some,
        srt.mode is Rendezvous ==> srt.remote_addr is Some && addr::socket_of(srt.remote_addr->0@)
            is Some,
        srt.id@.len() > 0,
        text::byte_len(srt.id@) <= 64,
        srt.name@.len() > 0,
        text::byte_len(srt.name@) <= 256,
        srt.program_number != Some(0u16),
        srt.mode !is Caller ==> srt.local_addr is Some,
        srt.local_addr is Some ==> addr::socket_of(srt.local_addr->0@) is Some,
        srt.mode !is Listener ==> srt.remote_addr is Some,
        srt.mode !is Listener ==> addr::socket_of(srt.remote_addr->0@) is Some,
        srt.passphrase is Some ==> 10 <= text::byte_len(srt.passphrase->0@) <= 79,
        srt.aes_key_len is Some ==> (srt.aes_key_len->0 == 16 || srt.aes_key_len->0 == 24
            || srt.aes_key_len->0 == 32),
        srt.crypto_mode is Some ==> (srt.crypto_mode->0@ == "aes-ctr"@
            || srt.crypto_mode->0@ == "aes-gcm"@),
        srt.crypto_mode is Some && srt.crypto_mode->0@ == "aes-gcm"@
            ==> srt.aes_key_len != Some(24usize),
        srt.max_rexmit_bw is Some ==> srt.max_rexmit_bw->0 >= -1,
        srt.stream_id is Some ==> text::byte_len(srt.stream_id->0@) <= 512,
        srt.packet_filter is Some ==> text::byte_len(srt.packet_filter->0.spec_text@) <= 512,
        srt.packet_filter is Some ==> srt.packet_filter->0.parsed is Matrix,
        srt.packet_filter is Some ==> 1 <= srt.packet_filter->0.parsed->Matrix_0.cols <= 256,
        srt.packet_filter is Some ==> 1 <= srt.packet_filter->0.parsed->Matrix_0.rows <= 256,
        srt.max_bw is Some ==> srt.max_bw->0 >= 0,
        srt.overhead_bw is Some ==> 5 <= srt.overhead_bw->0 <= 100,
        srt.flight_flag_size is Some ==> srt.flight_flag_size->0 >= 32,
        srt.send_buffer_size is Some ==> srt.send_buffer_size->0 >= 32,
        srt.recv_buffer_size is Some ==> srt.recv_buffer_size->0 >= 32,
        srt.ip_tos is Some ==> 0 <= srt.ip_tos->0 <= 255,
        srt.retransmit_algo is Some ==> (srt.retransmit_algo->0@ == "default"@
            || srt.retransmit_algo->0@ == "reduced"@),
        srt.send_drop_delay is Some ==> srt.send_drop_delay->0 >= -1,
        srt.loss_max_ttl is Some ==> srt.loss_max_ttl->0 >= 0,
        srt.km_refresh_rate is Some ==> srt.km_refresh_rate->0 != 0,
        srt.km_pre_announce is Some ==> srt.km_pre_announce->0 != 0,
        srt.payload_size is Some ==> 188 <= srt.payload_size->0 <= 1456,
        srt.mss is Some ==> 76 <= srt.mss->0 <= 9000,
        srt.ip_ttl is Some ==> 1 <= srt.ip_ttl->0 <= 255,
        srt.redundancy is Some
            ==> srt::srt_redundancy_fault(srt.redundancy->0, "SRT output"@) is None,
        srt.transport_mode is Some ==> (srt.transport_mode->0@ == "ts"@
            || srt.transport_mode->0@ == "audio_302m"@),
        srt.transport_mode is Some && srt.transport_mode->0@ == "audio_302m"@
            ==> srt.packet_filter is None,
        srt.transport_mode is Some && srt.transport_mode->0@ == "audio_302m"@
            ==> srt.program_number is None,
        srt.transport_mode is Some && srt.transport_mode->0@ == "audio_302m"@
            ==> srt.redundancy is None,
        srt.transport_mode is Some && srt.transport_mode->0@ == "audio_302m"@
            ==> srt.pid_map is None,
        srt.transport_mode is Some && srt.transport_mode->0@ == "audio_302m"@
            ==> srt.delay is None,
        srt.audio_encode is Some && srt.transport_mode is Some
            ==> srt.transport_mode->0@ != "audio_302m"@,
        srt.audio_encode is Some ==> srt.redundancy is None,
        srt.audio_encode is Some ==> srt.packet_filter is None,
        srt.audio_encode is Some
            ==> encode::audio_encode_fault(
                srt.audio_encode->0,
                seq!["aac_lc", "he_aac_v1", "he_aac_v2", "mp2", "ac3"],
                "SRT output '"@ + srt.id@ + "'"@,
            ) is None,
        srt.video_encode is Some && srt.transport_mode is Some
            ==> srt.transport_mode->0@ != "audio_302m"@,
        srt.video_encode is Some ==> srt.redundancy is None,
        srt.video_encode is Some ==> srt.packet_filter is None,
        srt.video_encode is Some
            ==> encode::video_encode_fault(
                srt.video_encode->0,
                "SRT output '"@ + srt.id@ + "'"@,
            ) is None,
{
    lemma_srt_output_accepts(srt);
}

/// A RIST output is accepted exactly when it is named, its addresses have even ports and
/// its legs differ in address but not in family, its numbers are within their limits, and
/// it encodes nothing anew next to a second leg.
pub proof fn lemma_rist_output_accepts(rist: RistOutputConfig)
    ensures
        rist::rist_output_fault(rist) is None <==> {
            &&& rist.id@.len() > 0
            &&& text::byte_len(rist.id@) <= 64
            &&& rist.name@.len() > 0
            &&& text::byte_len(rist.name@) <= 256
            &&& rist.group is Some ==> text::byte_len(rist.group->0@) <= 64
            &&& rist.program_number != Some(0u16)
            &&& addr::socket_of(rist.remote_addr@) is Some
            &&& addr::socket_of(rist.remote_addr@)->0.port % 2 == 0
            &&& rist.local_addr is Some ==> addr::socket_of(rist.local_addr->0@) is Some
            &&& rist.local_addr is Some ==> addr::socket_of(rist.local_addr->0@)->0.port % 2 == 0
            &&& rist.buffer_ms is Some ==> 50 <= rist.buffer_ms->0 <= 30_000
            &&& rist.cname is Some ==> text::byte_len(rist.cname->0@) <= 256
            &&& rist.rtcp_interval_ms is Some ==> 1 <= rist.rtcp_interval_ms->0 <= 1000
            &&& rist.retransmit_buffer_capacity is Some
                ==> 64 <= rist.retransmit_buffer_capacity->0 <= 65_536
            &&& rist.redundancy is Some ==> addr::socket_of(rist.redundancy->0.remote_addr@) is Some
            &&& rist.redundancy is Some
                ==> addr::socket_of(rist.redundancy->0.remote_addr@)->0.port % 2 == 0
            &&& rist.redundancy is Some ==> rist.redundancy->0.remote_addr@ != rist.remote_addr@
            &&& rist.redundancy is Some ==> (rist.redundancy->0.local_addr is Some
                ==> addr::socket_of(rist.redundancy->0.local_addr->0@) is Some)
            &&& rist.redundancy is Some ==> (rist.redundancy->0.local_addr is Some
                ==> addr::socket_of(rist.redundancy->0.local_addr->0@)->0.port % 2 == 0)
            &&& rist.redundancy is Some ==> (addr::socket_of(rist.remote_addr@) is Some
                && addr::socket_of(rist.redundancy->0.remote_addr@) is Some
                ==> (addr::socket_of(rist.remote_addr@)->0.ip is V4
                <==> addr::socket_of(rist.redundancy->0.remote_addr@)->0.ip is V4))
            &&& rist.audio_encode is Some ==> rist.redundancy is None
            &&& rist.audio_encode is Some
                ==> encode::audio_encode_fault(
                    rist.audio_encode->0,
                    seq!["aac_lc", "he_aac_v1", "he_aac_v2", "mp2", "ac3"],
                    "RIST output '"@ + rist.id@ + "'"@,
                ) is None
            &&& rist.video_encode is Some ==> rist.redundancy is None
            &&& rist.video_encode is Some
                ==> encode::video_encode_fault(
                    rist.video_encode->0,
                    "RIST output '"@ + rist.id@ + "'"@,
                ) is None
        },
{
}

/// An RTMP output is accepted exactly when it is named, its URL is one of RTMP, its stream
/// key is there, and it waits before it reconnects.
pub proof fn lemma_rtmp_output_accepts(rtmp: RtmpOutputConfig)
    ensures
        outputs::rtmp_output_fault(rtmp) is None <==> {
            &&& rtmp.id@.len() > 0
            &&& text::byte_len(rtmp.id@) <= 64
            &&& rtmp.name@.len() > 0
            &&& text::byte_len(rtmp.name@) <= 256
            &&& rtmp.program_number != Some(0u16)
            &&& text::has_prefix(rtmp.dest_url@, "rtmp://"@)
                || text::has_prefix(rtmp.dest_url@, "rtmps://"@)
            &&& text::byte_len(rtmp.dest_url@) <= 2048
            &&& rtmp.stream_key@.len() > 0
            &&& text::byte_len(rtmp.stream_key@) <= 256
            &&& rtmp.reconnect_delay_secs != 0
            &&& rtmp.audio_encode is Some
                ==> encode::audio_encode_fault(
                    rtmp.audio_encode->0,
                    seq!["aac_lc", "he_aac_v1", "he_aac_v2"],
                    "RTMP output '"@ + rtmp.id@ + "'"@,
                ) is None
        },
{
}

/// An HLS output is accepted exactly when it is named, its URL is one of HTTP, and its
/// segments are 1 to 30 of half a second to ten seconds.
pub proof fn lemma_hls_output_accepts(hls: HlsOutputConfig)
    ensures
        outputs::hls_output_fault(hls) is None <==> {
            &&& hls.id@.len() > 0
            &&& text::byte_len(hls.id@) <= 64
            &&& hls.name@.len() > 0
            &&& text::byte_len(hls.name@) <= 256
            &&& hls.program_number != Some(0u16)
            &&& text::has_prefix(hls.ingest_url@, "http://"@)
                || text::has_prefix(hls.ingest_url@, "https://"@)
            &&& text::byte_len(hls.ingest_url@) <= 2048
            &&& hls.auth_token is Some ==> text::byte_len(hls.auth_token->0@) <= 4096
            &&& !binary::lt(hls.segment_duration_secs.bits, binary::HALF)
            &&& !binary::lt(binary::TEN, hls.segment_duration_secs.bits)
            &&& hls.max_segments != 0
            &&& hls.max_segments <= 30
            &&& hls.audio_encode is Some
                ==> encode::audio_encode_fault(
                    hls.audio_encode->0,
                    seq!["aac_lc", "he_aac_v1", "he_aac_v2", "mp2", "ac3"],
                    "HLS output '"@ + hls.id@ + "'"@,
                ) is None
        },
{
}

/// The manifests of a CMAF output are accepted exactly when there is one and each is HLS.
pub proof fn lemma_manifests_accepts(manifests: Seq<String>, id: Seq<char>)
    ensures
        outputs::manifests_fault(manifests, id) is None <==> {
            &&& manifests.len() > 0
            &&& forall|i: int|
                #![trigger manifests[i]]
                0 <= i < manifests.len() ==> {
                    manifests[i]@ == "hls"@
                }
        },
{
    let test = outputs::manifest_check(id);
    error::lemma_first_fault_none(manifests, test, 0);
    assert forall|i: int|
        #![trigger manifests[i]]
        0 <= i < manifests.len() implies (test(i, manifests[i]) is None <==> {
                    manifests[i]@ == "hls"@
        }) by {
    }
}

/// A CMAF output is accepted exactly when it is named, its URL is one of HTTP, its segments
/// are 1 to 30 of one to ten seconds, its chunks of a tenth of a second to two seconds
/// where latency is low, its manifests are accepted, and it asks for nothing that is not
/// supported.
pub proof fn lemma_cmaf_output_accepts(cmaf: CmafOutputConfig)
    ensures
        outputs::cmaf_output_fault(cmaf) is None <==> {
            &&& cmaf.id@.len() > 0
            &&& text::byte_len(cmaf.id@) <= 64
            &&& cmaf.name@.len() > 0
            &&& text::byte_len(cmaf.name@) <= 256
            &&& cmaf.program_number != Some(0u16)
            &&& text::has_prefix(cmaf.ingest_url@, "http://"@)
                || text::has_prefix(cmaf.ingest_url@, "https://"@)
            &&& cmaf.low_latency ==> 100 <= cmaf.chunk_duration_ms <= 2000
            &&& binary::le(binary::ONE, cmaf.segment_duration_secs.bits)
            &&& binary::le(cmaf.segment_duration_secs.bits, binary::TEN)
            &&& cmaf.max_segments != 0
            &&& cmaf.max_segments <= 30
            &&& outputs::manifests_fault(cmaf.manifests@, cmaf.id@) is None
            &&& cmaf.encryption is None
            &&& cmaf.audio_encode is None
            &&& cmaf.transcode is None
            &&& cmaf.video_encode is None
        },
{
}

/// A WebRTC output is accepted exactly when it is named, a client has a URL of HTTP, a
/// server has 1 to 100 viewers, and audio is encoded only where it is negotiated.
pub proof fn lemma_webrtc_output_accepts(webrtc: WebrtcOutputConfig)
    ensures
        outputs::webrtc_output_fault(webrtc) is None <==> {
            &&& webrtc.id@.len() > 0
            &&& text::byte_len(webrtc.id@) <= 64
            &&& webrtc.name@.len() > 0
            &&& text::byte_len(webrtc.name@) <= 256
            &&& webrtc.program_number != Some(0u16)
            &&& match webrtc.mode {
                WebrtcOutputMode::WhipClient => {
                    &&& webrtc.whip_url is Some
                    &&& text::has_prefix(webrtc.whip_url->0@, "http://"@)
                        || text::has_prefix(webrtc.whip_url->0@, "https://"@)
                    &&& text::byte_len(webrtc.whip_url->0@) <= 2048
                },
                WebrtcOutputMode::WhepServer => webrtc.max_viewers is Some
                    ==> 1 <= webrtc.max_viewers->0 <= 100,
            }
            &&& webrtc.bearer_token is Some ==> text::byte_len(webrtc.bearer_token->0@) <= 4096
            &&& webrtc.public_ip is Some ==> addr::ip_of(webrtc.public_ip->0@) is Some
            &&& webrtc.audio_encode is Some ==> !webrtc.video_only
            &&& webrtc.audio_encode is Some
                ==> encode::audio_encode_fault(
                    webrtc.audio_encode->0,
                    seq!["opus"],
                    "WebRTC output '"@ + webrtc.id@ + "'"@,
                ) is None
        },
{
}

/// An ST 2110 audio output is accepted exactly when it is named, its addresses are
/// addresses, its audio has one of the allowed shapes, and its second leg and its transcode
/// block are accepted.
pub proof fn lemma_st2110_audio_output_accepts(
    c: St2110AudioOutputConfig,
    profile: St2110Profile,
    upstream_audio: Option<(u32, u8, u8)>,
)
    ensures
        st2110::st2110_audio_output_fault(c, profile, upstream_audio) is None <==> {
            let label = profile.label_text();
            &&& c.id@.len() > 0
            &&& text::byte_len(c.id@) <= 64
            &&& c.name@.len() > 0
            &&& text::byte_len(c.name@) <= 256
            &&& addr::socket_of(c.dest_addr@) is Some
            &&& c.bind_addr is Some ==> addr::socket_of(c.bind_addr->0@) is Some
            &&& c.interface_addr is Some ==> addr::ip_of(c.interface_addr->0@) is Some
            &&& c.sample_rate == 48_000 || c.sample_rate == 96_000
            &&& profile is Pcm ==> (c.bit_depth == 16 || c.bit_depth == 24)
            &&& profile is Aes3 ==> c.bit_depth == 24
            &&& c.channels == 1 || c.channels == 2 || c.channels == 4 || c.channels == 8
                || c.channels == 16
            &&& c.packet_time_us == 125 || c.packet_time_us == 250 || c.packet_time_us == 333
                || c.packet_time_us == 500 || c.packet_time_us == 1_000 || c.packet_time_us == 4_000
            &&& 96 <= c.payload_type <= 127
            &&& c.clock_domain is Some ==> c.clock_domain->0 <= 127
            &&& c.dscp <= 63
            &&& c.redundancy is Some
                ==> fields::red_blue_fault(
                    c.redundancy->0,
                    c.dest_addr@,
                    label + " output '"@ + c.id@ + "' redundancy"@,
                ) is None
            &&& c.transcode is Some
                ==> encode::transcode_fault(
                    c.transcode->0,
                    st2110::upstream_or(upstream_audio, c.sample_rate, c.bit_depth, c.channels).0,
                    st2110::upstream_or(upstream_audio, c.sample_rate, c.bit_depth, c.channels).1,
                    st2110::upstream_or(upstream_audio, c.sample_rate, c.bit_depth, c.channels).2,
                    label + " output '"@ + c.id@ + "' transcode"@,
                ) is None
        },
{
}

/// An ST 2110-40 output is accepted exactly when it is named, its addresses are addresses,
/// and its numbers are within their limits.
pub proof fn lemma_st2110_ancillary_output_accepts(c: St2110AncillaryOutputConfig)
    ensures
        st2110::st2110_ancillary_output_fault(c) is None <==> {
            &&& c.id@.len() > 0
            &&& text::byte_len(c.id@) <= 64
            &&& c.name@.len() > 0
            &&& text::byte_len(c.name@) <= 256
            &&& addr::socket_of(c.dest_addr@) is Some
            &&& c.bind_addr is Some ==> addr::socket_of(c.bind_addr->0@) is Some
            &&& c.interface_addr is Some ==> addr::ip_of(c.interface_addr->0@) is Some
            &&& 96 <= c.payload_type <= 127
            &&& c.clock_domain is Some ==> c.clock_domain->0 <= 127
            &&& c.dscp <= 63
            &&& c.redundancy is Some
                ==> fields::red_blue_fault(
                    c.redundancy->0,
                    c.dest_addr@,
                    "ST 2110-40 output '"@ + c.id@ + "' redundancy"@,
                ) is None
        },
{
}

/// An ST 2110-20 output is accepted exactly when it is named, its addresses are addresses,
/// its picture is of an even size within the limits, and its numbers are within theirs.
pub proof fn lemma_st2110_video_output_accepts(c: St2110VideoOutputConfig)
    ensures
        st2110::st2110_video_output_fault(c) is None <==> {
            &&& c.id@.len() > 0
            &&& text::byte_len(c.id@) <= 64
            &&& c.name@.len() > 0
            &&& text::byte_len(c.name@) <= 256
            &&& addr::socket_of(c.dest_addr@) is Some
            &&& c.bind_addr is Some ==> addr::socket_of(c.bind_addr->0@) is Some
            &&& c.interface_addr is Some ==> addr::ip_of(c.interface_addr->0@) is Some
            &&& 64 <= c.width <= 8192
            &&& c.width % 2 == 0
            &&& 64 <= c.height <= 8192
            &&& c.height % 2 == 0
            &&& c.frame_rate_den > 0
            &&& c.frame_rate_den <= c.frame_rate_num <= 240 * c.frame_rate_den
            &&& 96 <= c.payload_type <= 127
            &&& c.clock_domain is Some ==> c.clock_domain->0 <= 127
            &&& c.dscp <= 63
            &&& c.redundancy is Some
                ==> fields::red_blue_fault(
                    c.redundancy->0,
                    c.dest_addr@,
                    "ST 2110-20 output '"@ + c.id@ + "' redundancy"@,
                ) is None
            &&& 512 <= c.payload_budget <= 8952
        },
{
}

/// A sub-stream of an ST 2110-23 output is accepted exactly when its addresses are
/// addresses, its payload type is dynamic and its second leg is accepted.
pub proof fn lemma_sub_stream_dest_accepts(s: St2110_23SubStreamDest, label: Seq<char>)
    ensures
        st2110::sub_stream_dest_fault(s, label) is None <==> {
            &&& addr::socket_of(s.dest_addr@) is Some
            &&& s.bind_addr is Some ==> addr::socket_of(s.bind_addr->0@) is Some
            &&& s.interface_addr is Some ==> addr::ip_of(s.interface_addr->0@) is Some
            &&& 96 <= s.payload_type <= 127
            &&& s.redundancy is Some
                ==> fields::red_blue_fault(
                    s.redundancy->0,
                    s.dest_addr@,
                    label + " redundancy"@,
                ) is None
        },
{
}

/// The sub-streams of an ST 2110-23 output are accepted exactly when each is.
pub proof fn lemma_sub_stream_dests_accepts(subs: Vec<St2110_23SubStreamDest>, label: Seq<char>)
    ensures
        st2110::sub_stream_dests_fault(subs, label) is None <==> {
            &&& forall|i: int|
                #![trigger subs@[i]]
                0 <= i < subs@.len() ==> {
                    st2110::sub_stream_dest_fault(
                        subs@[i],
                        label + " sub_streams["@ + text::dec(i as nat) + "]"@,
                    ) is None
                }
        },
{
    let test = st2110::sub_stream_dest_check(label);
    error::lemma_first_fault_none(subs@, test, 0);
    assert forall|i: int|
        #![trigger subs@[i]]
        0 <= i < subs@.len() implies (test(i, subs@[i]) is None <==> {
                    st2110::sub_stream_dest_fault(
                        subs@[i],
                        label + " sub_streams["@ + text::dec(i as nat) + "]"@,
                    ) is None
        }) by {
    }
}

/// An ST 2110-23 output is accepted exactly when it is named, has 2 to 16 sub-streams that
/// are accepted, its picture is of an even size within the limits, and its numbers are
/// within theirs.
pub proof fn lemma_st2110_23_output_accepts(c: St2110_23OutputConfig)
    ensures
        st2110::st2110_23_output_fault(c) is None <==> {
            &&& c.id@.len() > 0
            &&& text::byte_len(c.id@) <= 64
            &&& c.name@.len() > 0
            &&& text::byte_len(c.name@) <= 256
            &&& c.sub_streams@.len() >= 2
            &&& c.sub_streams@.len() <= 16
            &&& st2110::sub_stream_dests_fault(
                c.sub_streams,
                "ST 2110-23 output '"@ + c.id@ + "'"@,
            ) is None
            &&& 64 <= c.width <= 8192
            &&& c.width % 2 == 0
            &&& 64 <= c.height <= 8192
            &&& c.height % 2 == 0
            &&& c.frame_rate_den > 0
            &&& c.frame_rate_den <= c.frame_rate_num <= 240 * c.frame_rate_den
            &&& c.clock_domain is Some ==> c.clock_domain->0 <= 127
            &&& c.dscp <= 63
            &&& 512 <= c.payload_budget <= 8952
        },
{
}

/// An RTP audio output is accepted exactly when it is named, its addresses are addresses,
/// its audio has one of the allowed shapes, and its second leg and its transcode block are
/// accepted.
pub proof fn lemma_rtp_audio_output_accepts(
    c: RtpAudioOutputConfig,
    upstream_audio: Option<(u32, u8, u8)>,
)
    ensures
        st2110::rtp_audio_output_fault(c, upstream_audio) is None <==> {
            &&& c.id@.len() > 0
            &&& text::byte_len(c.id@) <= 64
            &&& c.name@.len() > 0
            &&& text::byte_len(c.name@) <= 256
            &&& addr::socket_of(c.dest_addr@) is Some
            &&& c.bind_addr is Some ==> addr::socket_of(c.bind_addr->0@) is Some
            &&& c.interface_addr is Some ==> addr::ip_of(c.interface_addr->0@) is Some
            &&& c.sample_rate == 32_000 || c.sample_rate == 44_100 || c.sample_rate == 48_000
                || c.sample_rate == 88_200 || c.sample_rate == 96_000
            &&& c.bit_depth == 16 || c.bit_depth == 24
            &&& 1 <= c.channels <= 16
            &&& c.packet_time_us == 125 || c.packet_time_us == 250 || c.packet_time_us == 333
                || c.packet_time_us == 500 || c.packet_time_us == 1_000
                || c.packet_time_us == 4_000 || c.packet_time_us == 20_000
            &&& 96 <= c.payload_type <= 127
            &&& c.dscp <= 63
            &&& c.redundancy is Some
                ==> fields::red_blue_fault(
                    c.redundancy->0,
                    c.dest_addr@,
                    "rtp_audio output '"@ + c.id@ + "' redundancy"@,
                ) is None
            &&& c.transcode is Some
                ==> encode::transcode_fault(
                    c.transcode->0,
                    st2110::upstream_or(upstream_audio, c.sample_rate, c.bit_depth, c.channels).0,
                    st2110::upstream_or(upstream_audio, c.sample_rate, c.bit_depth, c.channels).1,
                    st2110::upstream_or(upstream_audio, c.sample_rate, c.bit_depth, c.channels).2,
                    "rtp_audio output '"@ + c.id@ + "' transcode"@,
                ) is None
            &&& c.transport_mode is Some ==> (c.transport_mode->0@ == "rtp"@
                || c.transport_mode->0@ == "audio_302m"@)
        },
{
}

/// Every output is held to the rules of its own protocol, ST 2110 audio to those of its
/// profile; the others have none of their own here.
pub proof fn lemma_output_protocol_accepts(
    output: OutputConfig,
    upstream_audio: Option<(u32, u8, u8)>,
)
    ensures
        outputs::output_protocol_fault(output, upstream_audio) is None <==> {
            &&& match output {
                OutputConfig::Rtp(c) => outputs::rtp_output_fault(c) is None,
                OutputConfig::Udp(c) => outputs::udp_output_fault(c) is None,
                OutputConfig::Srt(c) => outputs::srt_output_fault(c) is None,
                OutputConfig::Rist(c) => rist::rist_output_fault(c) is None,
                OutputConfig::Rtmp(c) => outputs::rtmp_output_fault(c) is None,
                OutputConfig::Hls(c) => outputs::hls_output_fault(c) is None,
                OutputConfig::Cmaf(c) => outputs::cmaf_output_fault(c) is None,
                OutputConfig::Webrtc(c) => outputs::webrtc_output_fault(c) is None,
                OutputConfig::St2110_30(c) => st2110::st2110_audio_output_fault(
                    c,
                    St2110Profile::Pcm,
                    upstream_audio,
                ) is None,
                OutputConfig::St2110_31(c) => st2110::st2110_audio_output_fault(
                    c,
                    St2110Profile::Aes3,
                    upstream_audio,
                ) is None,
                OutputConfig::St2110_40(c) => st2110::st2110_ancillary_output_fault(c) is None,
                OutputConfig::St2110_20(c) => st2110::st2110_video_output_fault(c) is None,
                OutputConfig::St2110_23(c) => st2110::st2110_23_output_fault(c) is None,
                OutputConfig::RtpAudio(c) => st2110::rtp_audio_output_fault(
                    c,
                    upstream_audio,
                ) is None,
                OutputConfig::Bonded(_)
                | OutputConfig::Display(_)
                | OutputConfig::Sdi(_)
                | OutputConfig::MxlVideo(_)
                | OutputConfig::MxlAudio(_)
                | OutputConfig::MxlAnc(_) => true,
            }
        },
{
}

/// An output is accepted exactly when its group tag is short enough and it passes the rules
/// of its protocol, of its media, of its numbers and of its sockets.
pub proof fn lemma_output_accepts(output: OutputConfig, upstream_audio: Option<(u32, u8, u8)>)
    ensures
        outputs::output_fault(output, upstream_audio) is None <==> {
            &&& output.spec_group() is Some ==> text::byte_len(output.spec_group()->0) <= 64
            &&& outputs::output_protocol_fault(output, upstream_audio) is None
            &&& media::output_media_fault(output) is None
            &&& bounds::output_bounds_fault(output) is None
            &&& sockets::output_sockets_fault(output) is None
        },
{
}

/// The delay of an output is at most ten seconds or 300 frames; the outputs to other
/// software and hardware are named, and their channels, domains and offsets are within
/// their limits.
pub proof fn lemma_output_bounds_accepts(output: OutputConfig)
    ensures
        bounds::output_bounds_fault(output) is None <==> {
            &&& match output {
                OutputConfig::Rtp(c) => {
                    &&& match c.delay {
                        Some(OutputDelay::Fixed { ms }) => 0 <= ms <= 10_000,
                        Some(OutputDelay::TargetMs { ms }) => 1 <= ms <= 10_000,
                        Some(OutputDelay::TargetFrames { frames, .. }) => {
                            &&& binary::le(binary::HUNDREDTH, frames.bits)
                            &&& binary::le(frames.bits, binary::THREE_HUNDRED)
                        },
                        None => true,
                    }
                },
                OutputConfig::Udp(c) => {
                    &&& match c.delay {
                        Some(OutputDelay::Fixed { ms }) => 0 <= ms <= 10_000,
                        Some(OutputDelay::TargetMs { ms }) => 1 <= ms <= 10_000,
                        Some(OutputDelay::TargetFrames { frames, .. }) => {
                            &&& binary::le(binary::HUNDREDTH, frames.bits)
                            &&& binary::le(frames.bits, binary::THREE_HUNDRED)
                        },
                        None => true,
                    }
                },
                OutputConfig::Srt(c) => {
                    &&& match c.delay {
                        Some(OutputDelay::Fixed { ms }) => 0 <= ms <= 10_000,
                        Some(OutputDelay::TargetMs { ms }) => 1 <= ms <= 10_000,
                        Some(OutputDelay::TargetFrames { frames, .. }) => {
                            &&& binary::le(binary::HUNDREDTH, frames.bits)
                            &&& binary::le(frames.bits, binary::THREE_HUNDRED)
                        },
                        None => true,
                    }
                },
                OutputConfig::Rist(c) => {
                    &&& match c.delay {
                        Some(OutputDelay::Fixed { ms }) => 0 <= ms <= 10_000,
                        Some(OutputDelay::TargetMs { ms }) => 1 <= ms <= 10_000,
                        Some(OutputDelay::TargetFrames { frames, .. }) => {
                            &&& binary::le(binary::HUNDREDTH, frames.bits)
                            &&& binary::le(frames.bits, binary::THREE_HUNDRED)
                        },
                        None => true,
                    }
                },
                OutputConfig::Bonded(c) => {
                    &&& c.id@.len() > 0
                    &&& text::byte_len(c.id@) <= 64
                    &&& c.name@.len() > 0
                    &&& text::byte_len(c.name@) <= 256
                },
                OutputConfig::Display(c) => {
                    &&& c.id@.len() > 0
                    &&& text::byte_len(c.id@) <= 64
                    &&& c.name@.len() > 0
                    &&& text::byte_len(c.name@) <= 256
                    &&& c.audio_track_index is Some ==> c.audio_track_index->0 <= 15
                    &&& c.audio_channel_pair@[0] < 8
                    &&& c.audio_channel_pair@[1] < 8
                    &&& c.audio_channel_pair@[0] != c.audio_channel_pair@[1]
                },
                OutputConfig::Sdi(c) => {
                    &&& c.id@.len() > 0
                    &&& text::byte_len(c.id@) <= 64
                    &&& c.name@.len() > 0
                    &&& text::byte_len(c.name@) <= 256
                    &&& c.mode@.len() > 0
                    &&& c.audio_channels == 0 || c.audio_channels == 2 || c.audio_channels == 8
                        || c.audio_channels == 16
                },
                OutputConfig::MxlVideo(c) => {
                    &&& c.id@.len() > 0
                    &&& text::byte_len(c.id@) <= 64
                    &&& c.name@.len() > 0
                    &&& text::byte_len(c.name@) <= 256
                    &&& c.clock_domain is Some ==> c.clock_domain->0 <= 127
                },
                OutputConfig::MxlAudio(c) => {
                    &&& c.id@.len() > 0
                    &&& text::byte_len(c.id@) <= 64
                    &&& c.name@.len() > 0
                    &&& text::byte_len(c.name@) <= 256
                    &&& c.channels == 1 || c.channels == 2 || c.channels == 4 || c.channels == 8
                        || c.channels == 16
                    &&& c.clock_domain is Some ==> c.clock_domain->0 <= 127
                },
                OutputConfig::MxlAnc(c) => {
                    &&& c.id@.len() > 0
                    &&& text::byte_len(c.id@) <= 64
                    &&& c.name@.len() > 0
                    &&& text::byte_len(c.name@) <= 256
                    &&& c.clock_domain is Some ==> c.clock_domain->0 <= 127
                },
                _ => true,
            }
        },
{
}

/// Whatever an output is pinned to is an interface name, for each leg, each sub-stream and
/// each member of a bonding group.
pub proof fn lemma_output_sockets_accepts(output: OutputConfig)
    ensures
        sockets::output_sockets_fault(output) is None <==> {
            let context = "Output '"@ + output.spec_id() + "'"@;
            &&& match output {
                OutputConfig::Rtp(c) => {
                    &&& c.interface_binding is Some
                        ==> sockets::is_interface_name(c.interface_binding->0.name@)
                    &&& c.redundancy is Some && c.redundancy->0.interface_binding is Some
                        ==> sockets::is_interface_name(c.redundancy->0.interface_binding->0.name@)
                },
                OutputConfig::Udp(c) => c.interface_binding is Some
                    ==> sockets::is_interface_name(c.interface_binding->0.name@),
                OutputConfig::Srt(c) => {
                    &&& c.interface_binding is Some
                        ==> sockets::is_interface_name(c.interface_binding->0.name@)
                    &&& c.redundancy is Some && c.redundancy->0.interface_binding is Some
                        ==> sockets::is_interface_name(c.redundancy->0.interface_binding->0.name@)
                    &&& sockets::bonding_fault(c.mode, c.bonding, c.redundancy, context) is None
                },
                OutputConfig::Rist(c) => {
                    &&& c.interface_binding is Some
                        ==> sockets::is_interface_name(c.interface_binding->0.name@)
                    &&& c.redundancy is Some && c.redundancy->0.interface_binding is Some
                        ==> sockets::is_interface_name(c.redundancy->0.interface_binding->0.name@)
                },
                OutputConfig::St2110_30(c) => {
                    &&& c.interface_binding is Some
                        ==> sockets::is_interface_name(c.interface_binding->0.name@)
                    &&& c.redundancy is Some && c.redundancy->0.interface_binding is Some
                        ==> sockets::is_interface_name(c.redundancy->0.interface_binding->0.name@)
                },
                OutputConfig::St2110_31(c) => {
                    &&& c.interface_binding is Some
                        ==> sockets::is_interface_name(c.interface_binding->0.name@)
                    &&& c.redundancy is Some && c.redundancy->0.interface_binding is Some
                        ==> sockets::is_interface_name(c.redundancy->0.interface_binding->0.name@)
                },
                OutputConfig::St2110_40(c) => {
                    &&& c.interface_binding is Some
                        ==> sockets::is_interface_name(c.interface_binding->0.name@)
                    &&& c.redundancy is Some && c.redundancy->0.interface_binding is Some
                        ==> sockets::is_interface_name(c.redundancy->0.interface_binding->0.name@)
                },
                OutputConfig::St2110_20(c) => {
                    &&& c.interface_binding is Some
                        ==> sockets::is_interface_name(c.interface_binding->0.name@)
                    &&& c.redundancy is Some && c.redundancy->0.interface_binding is Some
                        ==> sockets::is_interface_name(c.redundancy->0.interface_binding->0.name@)
                },
                OutputConfig::St2110_23(c) => {
                    &&& c.interface_binding is Some
                        ==> sockets::is_interface_name(c.interface_binding->0.name@)
                    &&& forall|i: int|
                        0 <= i < c.sub_streams@.len() && (
                        #[trigger] c.sub_streams@[i]).redundancy is Some
                            && c.sub_streams@[i].redundancy->0.interface_binding is Some
                            ==> sockets::is_interface_name(
                            c.sub_streams@[i].redundancy->0.interface_binding->0.name@,
                        )
                },
                OutputConfig::RtpAudio(c) => {
                    &&& c.interface_binding is Some
                        ==> sockets::is_interface_name(c.interface_binding->0.name@)
                    &&& c.redundancy is Some && c.redundancy->0.interface_binding is Some
                        ==> sockets::is_interface_name(c.redundancy->0.interface_binding->0.name@)
                },
                _ => true,
            }
        },
{
    if output is St2110_23 {
        let subs = output->St2110_23_0.sub_streams;
        lemma_sent_legs_accepts(subs, "Output '"@ + output.spec_id() + "'"@);
    }
}

/// The second legs of sub-streams are pinned to interface names.
proof fn lemma_sent_legs_accepts(subs: Vec<St2110_23SubStreamDest>, context: Seq<char>)
    ensures
        error::first_fault(subs@, sockets::sent_sub_stream_check(context), 0) is None <==> forall|
            i: int,
        |
            0 <= i < subs@.len() && (#[trigger] subs@[i]).redundancy is Some
                && subs@[i].redundancy->0.interface_binding is Some ==> sockets::is_interface_name(
                subs@[i].redundancy->0.interface_binding->0.name@,
            ),
{
    let test = sockets::sent_sub_stream_check(context);
    error::lemma_first_fault_none(subs@, test, 0);
    assert forall|i: int|
        #![trigger subs@[i]]
        0 <= i < subs@.len() implies (test(i, subs@[i]) is None <==> (subs@[i].redundancy is Some
        && subs@[i].redundancy->0.interface_binding is Some ==> sockets::is_interface_name(
        subs@[i].redundancy->0.interface_binding->0.name@,
    ))) by {}
}

/// A transcode block is checked against the audio that reaches the output, where that is
/// known, and else against the output's own.
pub proof fn lemma_audio_that_is_transcoded(
    upstream: (u32, u8, u8),
    sample_rate: u32,
    bit_depth: u8,
    channels: u8,
)
    ensures
        st2110::upstream_or(Some(upstream), sample_rate, bit_depth, channels) == upstream,
        st2110::upstream_or(None, sample_rate, bit_depth, channels) == (
            sample_rate,
            bit_depth,
            channels,
        ),
        St2110Profile::Pcm.label_text() == "ST 2110-30"@,
        St2110Profile::Aes3.label_text() == "ST 2110-31"@,
{
}

} // verus!
