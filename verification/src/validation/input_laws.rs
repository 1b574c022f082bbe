//! Which inputs are accepted, protocol by protocol.

use vstd::prelude::*;

use super::{bounds, encode, fields, inputs, media, rist, sockets, srt, st2110};
use crate::addr;
use crate::binary;
use crate::error;
use crate::models::{
    InputConfig, InputDefinition, MediaPlayerInputConfig, MediaPlayerSource, RedBlueBindConfig,
    RistInputConfig, RtmpInputConfig, RtpAudioInputConfig, RtpInputConfig, RtspInputConfig,
    SrtBondingConfig, SrtInputConfig, SrtMode, SrtRedundancyConfig, St2110AncillaryInputConfig,
    St2110AudioInputConfig, St2110VideoInputConfig, St2110_23InputConfig, St2110_23SubStreamBind,
    UdpInputConfig, WebrtcInputConfig, WhepInputConfig,
};
use crate::text;
use crate::validation::st2110::St2110Profile;

verus! {

/// An RTP input is accepted exactly when its addresses are addresses of one family, its
/// error correction is of an allowed size, its filters and its bitrate are accepted, and
/// its second leg is of the family of the first.
pub proof fn lemma_rtp_input_accepts(rtp: RtpInputConfig)
    ensures
        inputs::rtp_input_fault(rtp) is None <==> {
            &&& addr::socket_of(rtp.bind_addr@) is Some
            &&& rtp.interface_addr is Some ==> addr::ip_of(rtp.interface_addr->0@) is Some
            &&& rtp.fec_decode is Some ==> 1 <= rtp.fec_decode->0.columns <= 20
            &&& rtp.fec_decode is Some ==> 4 <= rtp.fec_decode->0.rows <= 20
            &&& rtp.interface_addr is Some ==> addr::socket_of(rtp.bind_addr@) is Some
            &&& rtp.interface_addr is Some ==> (addr::socket_of(rtp.bind_addr@) is Some
                && addr::ip_of(rtp.interface_addr->0@) is Some
                ==> (addr::socket_of(rtp.bind_addr@)->0.ip is V4
                <==> addr::ip_of(rtp.interface_addr->0@)->0 is V4))
            &&& fields::sources_fault(rtp.allowed_sources, "RTP input allowed_sources"@) is None
            &&& inputs::allowed_pts_fault(rtp.allowed_payload_types) is None
            &&& rtp.max_bitrate_mbps is Some ==> !binary::le(rtp.max_bitrate_mbps->0.bits, 0)
            &&& rtp.max_bitrate_mbps is Some
                ==> !binary::lt(binary::TEN_THOUSAND, rtp.max_bitrate_mbps->0.bits)
            &&& rtp.redundancy is Some ==> addr::socket_of(rtp.redundancy->0.bind_addr@) is Some
            &&& rtp.redundancy is Some && rtp.redundancy->0.interface_addr is Some
                ==> addr::ip_of(rtp.redundancy->0.interface_addr->0@) is Some
            &&& rtp.redundancy is Some ==> (addr::socket_of(rtp.bind_addr@) is Some
                && addr::socket_of(rtp.redundancy->0.bind_addr@) is Some
                ==> (addr::socket_of(rtp.bind_addr@)->0.ip is V4
                <==> addr::socket_of(rtp.redundancy->0.bind_addr@)->0.ip is V4))
            &&& rtp.redundancy is Some ==> (rtp.redundancy->0.interface_addr is Some
                ==> (addr::socket_of(rtp.redundancy->0.bind_addr@) is Some
                && addr::ip_of(rtp.redundancy->0.interface_addr->0@) is Some
                ==> (addr::socket_of(rtp.redundancy->0.bind_addr@)->0.ip is V4
                <==> addr::ip_of(rtp.redundancy->0.interface_addr->0@)->0 is V4)))
        },
{
}

/// Payload types are accepted exactly when each is at most 127.
pub proof fn lemma_allowed_pts_accepts(pts: Vec<u8>)
    ensures
        inputs::allowed_pts_fault(Some(pts)) is None <==> {
            &&& forall|i: int|
                #![trigger pts@[i]]
                0 <= i < pts@.len() ==> {
                    pts@[i] <= 127
                }
        },
{
    let test = inputs::allowed_pt_check();
    error::lemma_first_fault_none(pts@, test, 0);
    assert forall|i: int|
        #![trigger pts@[i]]
        0 <= i < pts@.len() implies (test(i, pts@[i]) is None <==> {
                    pts@[i] <= 127
        }) by {
    }
}

/// Allowed sources are accepted exactly when each is an IP address.
pub proof fn lemma_sources_accepts(sources: Vec<String>, context: Seq<char>)
    ensures
        fields::sources_fault(Some(sources), context) is None <==> {
            &&& forall|i: int|
                #![trigger sources@[i]]
                0 <= i < sources@.len() ==> {
                    addr::ip_of(sources@[i]@) is Some
                }
        },
{
    let test = fields::source_check(context);
    error::lemma_first_fault_none(sources@, test, 0);
    assert forall|i: int|
        #![trigger sources@[i]]
        0 <= i < sources@.len() implies (test(i, sources@[i]) is None <==> {
                    addr::ip_of(sources@[i]@) is Some
        }) by {
    }
}

/// A UDP input is accepted exactly when its addresses are addresses of one family.
pub proof fn lemma_udp_input_accepts(udp: UdpInputConfig)
    ensures
        inputs::udp_input_fault(udp) is None <==> {
            &&& addr::socket_of(udp.bind_addr@) is Some
            &&& udp.interface_addr is Some ==> addr::ip_of(udp.interface_addr->0@) is Some
            &&& udp.interface_addr is Some ==> (addr::socket_of(udp.bind_addr@) is Some
                && addr::ip_of(udp.interface_addr->0@) is Some
                ==> (addr::socket_of(udp.bind_addr@)->0.ip is V4
                <==> addr::ip_of(udp.interface_addr->0@)->0 is V4))
        },
{
}

/// An SRT input is accepted exactly when it has the addresses that its mode needs and each
/// of its settings is within its limits.
pub proof fn lemma_srt_input_accepts(srt: SrtInputConfig)
    ensures
        inputs::srt_input_fault(srt) is None <==> {
            &&& srt.mode !is Caller ==> srt.local_addr is Some
            &&& srt.local_addr is Some ==> addr::socket_of(srt.local_addr->0@) is Some
            &&& srt.mode !is Listener ==> srt.remote_addr is Some
            &&& srt.mode !is Listener ==> addr::socket_of(srt.remote_addr->0@) is Some
            &&& srt.passphrase is Some ==> 10 <= text::byte_len(srt.passphrase->0@) <= 79
            &&& srt.aes_key_len is Some ==> (srt.aes_key_len->0 == 16 || srt.aes_key_len->0 == 24
                || srt.aes_key_len->0 == 32)
            &&& srt.crypto_mode is Some ==> (srt.crypto_mode->0@ == "aes-ctr"@
                || srt.crypto_mode->0@ == "aes-gcm"@)
            &&& srt.crypto_mode is Some && srt.crypto_mode->0@ == "aes-gcm"@
                ==> srt.aes_key_len != Some(24usize)
            &&& srt.max_rexmit_bw is Some ==> srt.max_rexmit_bw->0 >= -1
            &&& srt.stream_id is Some ==> text::byte_len(srt.stream_id->0@) <= 512
            &&& srt.packet_filter is Some ==> text::byte_len(srt.packet_filter->0.spec_text@) <= 512
            &&& srt.packet_filter is Some ==> srt.packet_filter->0.parsed is Matrix
            &&& srt.packet_filter is Some ==> 1 <= srt.packet_filter->0.parsed->Matrix_0.cols <= 256
            &&& srt.packet_filter is Some ==> 1 <= srt.packet_filter->0.parsed->Matrix_0.rows <= 256
            &&& srt.max_bw is Some ==> srt.max_bw->0 >= 0
            &&& srt.overhead_bw is Some ==> 5 <= srt.overhead_bw->0 <= 100
            &&& srt.flight_flag_size is Some ==> srt.flight_flag_size->0 >= 32
            &&& srt.send_buffer_size is Some ==> srt.send_buffer_size->0 >= 32
            &&& srt.recv_buffer_size is Some ==> srt.recv_buffer_size->0 >= 32
            &&& srt.ip_tos is Some ==> 0 <= srt.ip_tos->0 <= 255
            &&& srt.retransmit_algo is Some ==> (srt.retransmit_algo->0@ == "default"@
                || srt.retransmit_algo->0@ == "reduced"@)
            &&& srt.send_drop_delay is Some ==> srt.send_drop_delay->0 >= -1
            &&& srt.loss_max_ttl is Some ==> srt.loss_max_ttl->0 >= 0
            &&& srt.km_refresh_rate is Some ==> srt.km_refresh_rate->0 != 0
            &&& srt.km_pre_announce is Some ==> srt.km_pre_announce->0 != 0
            &&& srt.payload_size is Some ==> 188 <= srt.payload_size->0 <= 1456
            &&& srt.mss is Some ==> 76 <= srt.mss->0 <= 9000
            &&& srt.ip_ttl is Some ==> 1 <= srt.ip_ttl->0 <= 255
            &&& srt.redundancy is Some
                ==> srt::srt_redundancy_fault(srt.redundancy->0, "SRT input"@) is None
            &&& srt.transport_mode is Some ==> (srt.transport_mode->0@ == "ts"@
                || srt.transport_mode->0@ == "audio_302m"@)
        },
{
}

/// The second leg of an SRT input or output is accepted exactly when it has the addresses
/// that its own mode needs and each of its own settings is within its limits.
pub proof fn lemma_srt_redundancy_accepts(red: SrtRedundancyConfig, context: Seq<char>)
    ensures
        srt::srt_redundancy_fault(red, context) is None <==> {
            &&& red.mode !is Caller ==> red.local_addr is Some
            &&& red.local_addr is Some ==> addr::socket_of(red.local_addr->0@) is Some
            &&& red.mode !is Listener ==> red.remote_addr is Some
            &&& red.mode !is Listener ==> addr::socket_of(red.remote_addr->0@) is Some
            &&& red.passphrase is Some ==> 10 <= text::byte_len(red.passphrase->0@) <= 79
            &&& red.aes_key_len is Some ==> (red.aes_key_len->0 == 16 || red.aes_key_len->0 == 24
                || red.aes_key_len->0 == 32)
            &&& red.crypto_mode is Some ==> (red.crypto_mode->0@ == "aes-ctr"@
                || red.crypto_mode->0@ == "aes-gcm"@)
            &&& red.crypto_mode is Some && red.crypto_mode->0@ == "aes-gcm"@
                ==> red.aes_key_len != Some(24usize)
            &&& red.max_rexmit_bw is Some ==> red.max_rexmit_bw->0 >= -1
            &&& red.stream_id is Some ==> text::byte_len(red.stream_id->0@) <= 512
            &&& red.packet_filter is Some ==> text::byte_len(red.packet_filter->0.spec_text@) <= 512
            &&& red.packet_filter is Some ==> red.packet_filter->0.parsed is Matrix
            &&& red.packet_filter is Some ==> 1 <= red.packet_filter->0.parsed->Matrix_0.cols <= 256
            &&& red.packet_filter is Some ==> 1 <= red.packet_filter->0.parsed->Matrix_0.rows <= 256
            &&& red.max_bw is Some ==> red.max_bw->0 >= 0
            &&& red.overhead_bw is Some ==> 5 <= red.overhead_bw->0 <= 100
            &&& red.flight_flag_size is Some ==> red.flight_flag_size->0 >= 32
            &&& red.send_buffer_size is Some ==> red.send_buffer_size->0 >= 32
            &&& red.recv_buffer_size is Some ==> red.recv_buffer_size->0 >= 32
            &&& red.ip_tos is Some ==> 0 <= red.ip_tos->0 <= 255
            &&& red.retransmit_algo is Some ==> (red.retransmit_algo->0@ == "default"@
                || red.retransmit_algo->0@ == "reduced"@)
            &&& red.send_drop_delay is Some ==> red.send_drop_delay->0 >= -1
            &&& red.loss_max_ttl is Some ==> red.loss_max_ttl->0 >= 0
            &&& red.km_refresh_rate is Some ==> red.km_refresh_rate->0 != 0
            &&& red.km_pre_announce is Some ==> red.km_pre_announce->0 != 0
            &&& red.payload_size is Some ==> 188 <= red.payload_size->0 <= 1456
            &&& red.mss is Some ==> 76 <= red.mss->0 <= 9000
            &&& red.ip_ttl is Some ==> 1 <= red.ip_ttl->0 <= 255
        },
{
}

/// A RIST input is accepted exactly when its ports are even, its legs differ in address but
/// not in family, and its numbers are within their limits.
pub proof fn lemma_rist_input_accepts(rist: RistInputConfig)
    ensures
        rist::rist_input_fault(rist) is None <==> {
            &&& addr::socket_of(rist.bind_addr@) is Some
            &&& addr::socket_of(rist.bind_addr@)->0.port % 2 == 0
            &&& rist.buffer_ms is Some ==> 50 <= rist.buffer_ms->0 <= 30_000
            &&& rist.max_nack_retries is Some ==> rist.max_nack_retries->0 <= 50
            &&& rist.cname is Some ==> text::byte_len(rist.cname->0@) <= 256
            &&& rist.rtcp_interval_ms is Some ==> 1 <= rist.rtcp_interval_ms->0 <= 1000
            &&& rist.redundancy is Some ==> addr::socket_of(rist.redundancy->0.bind_addr@) is Some
            &&& rist.redundancy is Some
                ==> addr::socket_of(rist.redundancy->0.bind_addr@)->0.port % 2 == 0
            &&& rist.redundancy is Some ==> rist.redundancy->0.bind_addr@ != rist.bind_addr@
            &&& rist.redundancy is Some ==> (addr::socket_of(rist.bind_addr@) is Some
                && addr::socket_of(rist.redundancy->0.bind_addr@) is Some
                ==> (addr::socket_of(rist.bind_addr@)->0.ip is V4
                <==> addr::socket_of(rist.redundancy->0.bind_addr@)->0.ip is V4))
        },
{
}

/// An RTMP input is accepted exactly when it listens on an address and its names are short
/// enough, that of the application not empty.
pub proof fn lemma_rtmp_input_accepts(rtmp: RtmpInputConfig)
    ensures
        inputs::rtmp_input_fault(rtmp) is None <==> {
            &&& addr::socket_of(rtmp.listen_addr@) is Some
            &&& rtmp.app@.len() > 0
            &&& text::byte_len(rtmp.app@) <= 64
            &&& rtmp.stream_key is Some ==> text::byte_len(rtmp.stream_key->0@) <= 256
        },
{
}

/// An RTSP input is accepted exactly when its URL is one of RTSP and its texts are short
/// enough.
pub proof fn lemma_rtsp_input_accepts(rtsp: RtspInputConfig)
    ensures
        inputs::rtsp_input_fault(rtsp) is None <==> {
            &&& text::has_prefix(rtsp.rtsp_url@, "rtsp://"@)
                || text::has_prefix(rtsp.rtsp_url@, "rtsps://"@)
            &&& text::byte_len(rtsp.rtsp_url@) <= 2048
            &&& rtsp.username is Some ==> text::byte_len(rtsp.username->0@) <= 256
            &&& rtsp.password is Some ==> text::byte_len(rtsp.password->0@) <= 256
        },
{
}

/// A WebRTC input is accepted exactly when its public address is an address and its texts
/// are short enough.
pub proof fn lemma_webrtc_input_accepts(webrtc: WebrtcInputConfig)
    ensures
        inputs::webrtc_input_fault(webrtc) is None <==> {
            &&& webrtc.bearer_token is Some ==> text::byte_len(webrtc.bearer_token->0@) <= 4096
            &&& webrtc.public_ip is Some ==> addr::ip_of(webrtc.public_ip->0@) is Some
            &&& webrtc.stun_server is Some ==> text::byte_len(webrtc.stun_server->0@) <= 2048
        },
{
}

/// A WHEP input is accepted exactly when its URL is one of HTTP and its texts are short
/// enough.
pub proof fn lemma_whep_input_accepts(whep: WhepInputConfig)
    ensures
        inputs::whep_input_fault(whep) is None <==> {
            &&& text::has_prefix(whep.whep_url@, "http://"@)
                || text::has_prefix(whep.whep_url@, "https://"@)
            &&& text::byte_len(whep.whep_url@) <= 2048
            &&& whep.bearer_token is Some ==> text::byte_len(whep.bearer_token->0@) <= 4096
        },
{
}

/// An ST 2110 audio input is accepted exactly when its addresses are addresses, its audio
/// has one of the allowed shapes, and its filters and its second leg are accepted.
pub proof fn lemma_st2110_audio_input_accepts(c: St2110AudioInputConfig, profile: St2110Profile)
    ensures
        st2110::st2110_audio_input_fault(c, profile) is None <==> {
            let label = profile.label_text();
            &&& addr::socket_of(c.bind_addr@) is Some
            &&& c.interface_addr is Some ==> addr::ip_of(c.interface_addr->0@) is Some
            &&& c.sample_rate == 48_000 || c.sample_rate == 96_000
            &&& profile is Pcm ==> (c.bit_depth == 16 || c.bit_depth == 24)
            &&& profile is Aes3 ==> c.bit_depth == 24
            &&& c.channels == 1 || c.channels == 2 || c.channels == 4 || c.channels == 8
                || c.channels == 16
            &&& c.packet_time_us == 125 || c.packet_time_us == 250 || c.packet_time_us == 333
                || c.packet_time_us == 500 || c.packet_time_us == 1_000 || c.packet_time_us == 4_000
            &&& 96 <= c.payload_type <= 127
            &&& c.clock_domain is Some ==> c.clock_domain->0 <= 127
            &&& fields::sources_fault(c.allowed_sources, label + " input allowed_sources"@) is None
            &&& c.max_bitrate_mbps is Some ==> !binary::le(c.max_bitrate_mbps->0.bits, 0)
            &&& c.max_bitrate_mbps is Some
                ==> !binary::lt(binary::TEN_THOUSAND, c.max_bitrate_mbps->0.bits)
            &&& c.redundancy is Some
                ==> fields::red_blue_fault(
                    c.redundancy->0,
                    c.bind_addr@,
                    label + " input redundancy"@,
                ) is None
        },
{
}

/// An ST 2110-40 input is accepted exactly when its addresses are addresses, its numbers
/// are within their limits, and its filters and its second leg are accepted.
pub proof fn lemma_st2110_ancillary_input_accepts(c: St2110AncillaryInputConfig)
    ensures
        st2110::st2110_ancillary_input_fault(c) is None <==> {
            &&& addr::socket_of(c.bind_addr@) is Some
            &&& c.interface_addr is Some ==> addr::ip_of(c.interface_addr->0@) is Some
            &&& 96 <= c.payload_type <= 127
            &&& c.clock_domain is Some ==> c.clock_domain->0 <= 127
            &&& fields::sources_fault(
                c.allowed_sources,
                "ST 2110-40 input allowed_sources"@,
            ) is None
            &&& c.redundancy is Some
                ==> fields::red_blue_fault(
                    c.redundancy->0,
                    c.bind_addr@,
                    "ST 2110-40 input redundancy"@,
                ) is None
        },
{
}

/// An ST 2110-20 input is accepted exactly when its addresses are addresses, its picture is
/// of an even size within the limits, its numbers are within theirs, and its second leg and
/// its encoder are accepted.
pub proof fn lemma_st2110_video_input_accepts(c: St2110VideoInputConfig)
    ensures
        st2110::st2110_video_input_fault(c) is None <==> {
            &&& addr::socket_of(c.bind_addr@) is Some
            &&& c.interface_addr is Some ==> addr::ip_of(c.interface_addr->0@) is Some
            &&& 64 <= c.width <= 8192
            &&& c.width % 2 == 0
            &&& 64 <= c.height <= 8192
            &&& c.height % 2 == 0
            &&& c.frame_rate_den > 0
            &&& c.frame_rate_den <= c.frame_rate_num <= 240 * c.frame_rate_den
            &&& 96 <= c.payload_type <= 127
            &&& c.clock_domain is Some ==> c.clock_domain->0 <= 127
            &&& fields::sources_fault(
                c.allowed_sources,
                "ST 2110-20 input allowed_sources"@,
            ) is None
            &&& c.max_bitrate_mbps is Some ==> (!binary::le(c.max_bitrate_mbps->0.bits, 0)
                && !binary::lt(binary::HUNDRED_THOUSAND, c.max_bitrate_mbps->0.bits))
            &&& c.redundancy is Some
                ==> fields::red_blue_fault(
                    c.redundancy->0,
                    c.bind_addr@,
                    "ST 2110-20 input redundancy"@,
                ) is None
            &&& encode::video_encode_fault(c.video_encode, "ST 2110-20 input"@) is None
        },
{
}

/// A sub-stream of an ST 2110-23 input is accepted exactly when its addresses are
/// addresses, its payload type is dynamic and its second leg is accepted.
pub proof fn lemma_sub_stream_bind_accepts(s: St2110_23SubStreamBind, label: Seq<char>)
    ensures
        st2110::sub_stream_bind_fault(s, label) is None <==> {
            &&& addr::socket_of(s.bind_addr@) is Some
            &&& s.interface_addr is Some ==> addr::ip_of(s.interface_addr->0@) is Some
            &&& 96 <= s.payload_type <= 127
            &&& s.redundancy is Some
                ==> fields::red_blue_fault(
                    s.redundancy->0,
                    s.bind_addr@,
                    label + " redundancy"@,
                ) is None
        },
{
}

/// The sub-streams of an ST 2110-23 input are accepted exactly when each is.
pub proof fn lemma_sub_stream_binds_accepts(subs: Vec<St2110_23SubStreamBind>, label: Seq<char>)
    ensures
        st2110::sub_stream_binds_fault(subs, label) is None <==> {
            &&& forall|i: int|
                #![trigger subs@[i]]
                0 <= i < subs@.len() ==> {
                    st2110::sub_stream_bind_fault(
                        subs@[i],
                        label + " sub_streams["@ + text::dec(i as nat) + "]"@,
                    ) is None
                }
        },
{
    let test = st2110::sub_stream_bind_check(label);
    error::lemma_first_fault_none(subs@, test, 0);
    assert forall|i: int|
        #![trigger subs@[i]]
        0 <= i < subs@.len() implies (test(i, subs@[i]) is None <==> {
                    st2110::sub_stream_bind_fault(
                        subs@[i],
                        label + " sub_streams["@ + text::dec(i as nat) + "]"@,
                    ) is None
        }) by {
    }
}

/// An ST 2110-23 input is accepted exactly when it has 2 to 16 sub-streams that are
/// accepted, its picture is of an even size within the limits, and its encoder is accepted.
pub proof fn lemma_st2110_23_input_accepts(c: St2110_23InputConfig)
    ensures
        st2110::st2110_23_input_fault(c) is None <==> {
            &&& c.sub_streams@.len() >= 2
            &&& c.sub_streams@.len() <= 16
            &&& st2110::sub_stream_binds_fault(c.sub_streams, "ST 2110-23 input"@) is None
            &&& 64 <= c.width <= 8192
            &&& c.width % 2 == 0
            &&& 64 <= c.height <= 8192
            &&& c.height % 2 == 0
            &&& c.frame_rate_den > 0
            &&& c.frame_rate_den <= c.frame_rate_num <= 240 * c.frame_rate_den
            &&& c.clock_domain is Some ==> c.clock_domain->0 <= 127
            &&& encode::video_encode_fault(c.video_encode, "ST 2110-23 input"@) is None
        },
{
}

/// An RTP audio input is accepted exactly when its addresses are addresses, its audio has
/// one of the allowed shapes, and its filters and its second leg are accepted.
pub proof fn lemma_rtp_audio_input_accepts(c: RtpAudioInputConfig)
    ensures
        st2110::rtp_audio_input_fault(c) is None <==> {
            &&& addr::socket_of(c.bind_addr@) is Some
            &&& c.interface_addr is Some ==> addr::ip_of(c.interface_addr->0@) is Some
            &&& c.sample_rate == 32_000 || c.sample_rate == 44_100 || c.sample_rate == 48_000
                || c.sample_rate == 88_200 || c.sample_rate == 96_000
            &&& c.bit_depth == 16 || c.bit_depth == 24
            &&& 1 <= c.channels <= 16
            &&& c.packet_time_us == 125 || c.packet_time_us == 250 || c.packet_time_us == 333
                || c.packet_time_us == 500 || c.packet_time_us == 1_000
                || c.packet_time_us == 4_000 || c.packet_time_us == 20_000
            &&& 96 <= c.payload_type <= 127
            &&& fields::sources_fault(c.allowed_sources, "rtp_audio input allowed_sources"@) is None
            &&& c.redundancy is Some
                ==> fields::red_blue_fault(
                    c.redundancy->0,
                    c.bind_addr@,
                    "rtp_audio input redundancy"@,
                ) is None
        },
{
}

/// A second leg is accepted exactly when its addresses are addresses of the family of the
/// first leg, and the two do not share a unicast address.
pub proof fn lemma_red_blue_accepts(
    red: RedBlueBindConfig,
    primary_addr: Seq<char>,
    context: Seq<char>,
)
    ensures
        fields::red_blue_fault(red, primary_addr, context) is None <==> {
            let leg1 = addr::socket_of(primary_addr);
            let leg2 = addr::socket_of(red.addr@);
            let ip1 = leg1->0.ip;
            let ip2 = leg2->0.ip;
            &&& addr::socket_of(red.addr@) is Some
            &&& red.interface_addr is Some ==> addr::ip_of(red.interface_addr->0@) is Some
            &&& leg1 is Some
            &&& ip1 is V4 == ip2 is V4
            &&& red.interface_addr is Some
                ==> ip2 is V4 == addr::ip_of(red.interface_addr->0@)->0 is V4
            &&& !ip1.spec_is_unspecified() && !ip2.spec_is_unspecified()
                && !ip1.spec_is_multicast() && !ip2.spec_is_multicast() ==> ip1 != ip2
        },
{
}

/// Every input is held to the rules of its own protocol, ST 2110 audio to those of its
/// profile; the others have none of their own here.
pub proof fn lemma_input_protocol_accepts(input: InputConfig)
    ensures
        inputs::input_protocol_fault(input) is None <==> {
            &&& match input {
                InputConfig::Rtp(c) => inputs::rtp_input_fault(c) is None,
                InputConfig::Udp(c) => inputs::udp_input_fault(c) is None,
                InputConfig::Srt(c) => inputs::srt_input_fault(c) is None,
                InputConfig::Rist(c) => rist::rist_input_fault(c) is None,
                InputConfig::Rtmp(c) => inputs::rtmp_input_fault(c) is None,
                InputConfig::Rtsp(c) => inputs::rtsp_input_fault(c) is None,
                InputConfig::Webrtc(c) => inputs::webrtc_input_fault(c) is None,
                InputConfig::Whep(c) => inputs::whep_input_fault(c) is None,
                InputConfig::St2110_30(c) => st2110::st2110_audio_input_fault(
                    c,
                    St2110Profile::Pcm,
                ) is None,
                InputConfig::St2110_31(c) => st2110::st2110_audio_input_fault(
                    c,
                    St2110Profile::Aes3,
                ) is None,
                InputConfig::St2110_40(c) => st2110::st2110_ancillary_input_fault(c) is None,
                InputConfig::St2110_20(c) => st2110::st2110_video_input_fault(c) is None,
                InputConfig::St2110_23(c) => st2110::st2110_23_input_fault(c) is None,
                InputConfig::RtpAudio(c) => st2110::rtp_audio_input_fault(c) is None,
                InputConfig::Bonded(_)
                | InputConfig::TestPattern(_)
                | InputConfig::MediaPlayer(_)
                | InputConfig::Replay(_)
                | InputConfig::MxlVideo(_)
                | InputConfig::MxlAudio(_)
                | InputConfig::MxlAnc(_)
                | InputConfig::Sdi(_) => true,
            }
        },
{
}

/// An input is accepted exactly when it passes the rules of its protocol, of its media, of
/// its numbers and of its sockets.
pub proof fn lemma_input_accepts(input: InputConfig)
    ensures
        inputs::input_fault(input) is None <==> {
            &&& inputs::input_protocol_fault(input) is None
            &&& media::input_media_fault(input) is None
            &&& bounds::input_bounds_fault(input) is None
            &&& sockets::input_sockets_fault(input) is None
        },
{
}

/// An input definition is accepted exactly when it is named, its group tag is short enough
/// and its input is accepted.
pub proof fn lemma_input_definition_accepts(def: InputDefinition)
    ensures
        inputs::input_definition_fault(def) is None <==> {
            &&& def.id@.len() > 0
            &&& text::byte_len(def.id@) <= 64
            &&& def.name@.len() > 0
            &&& text::byte_len(def.name@) <= 256
            &&& def.group is Some ==> text::byte_len(def.group->0@) <= 64
            &&& inputs::input_fault(def.config) is None
        },
{
}

/// The delay of an input is at most a second and its buffer 20 ms to two seconds; a test
/// pattern is even in size and within its limits; the inputs from other software and
/// hardware have allowed channels and domains.
pub proof fn lemma_input_bounds_accepts(input: InputConfig)
    ensures
        bounds::input_bounds_fault(input) is None <==> {
            &&& match input {
                InputConfig::Rtp(c) => {
                    &&& c.ingress_delay_ms is Some ==> c.ingress_delay_ms->0 <= 1000
                    &&& c.ingress_dejitter_ms is Some ==> 20 <= c.ingress_dejitter_ms->0 <= 2000
                    &&& c.redundancy is Some && c.redundancy->0.path_differential_ms is Some
                        ==> 5 <= c.redundancy->0.path_differential_ms->0 <= 2000
                },
                InputConfig::Udp(c) => {
                    &&& c.ingress_delay_ms is Some ==> c.ingress_delay_ms->0 <= 1000
                    &&& c.ingress_dejitter_ms is Some ==> 20 <= c.ingress_dejitter_ms->0 <= 2000
                },
                InputConfig::Srt(c) => c.ingress_delay_ms is Some ==> c.ingress_delay_ms->0 <= 1000,
                InputConfig::Rtmp(c) => c.ingress_delay_ms is Some
                    ==> c.ingress_delay_ms->0 <= 1000,
                InputConfig::Rtsp(c) => c.ingress_delay_ms is Some
                    ==> c.ingress_delay_ms->0 <= 1000,
                InputConfig::TestPattern(c) => {
                    &&& c.width % 2 == 0
                    &&& c.height % 2 == 0
                    &&& 1 <= c.fps <= 60
                    &&& binary::FIFTY_SINGLE <= c.tone_hz.bits <= binary::EIGHT_THOUSAND_SINGLE
                    &&& c.av_sync_marker ==> c.audio_enabled
                    &&& c.audio_enabled ==> (c.audio_channels == 1 || c.audio_channels == 2
                        || c.audio_channels == 6 || c.audio_channels == 8)
                    &&& 1 <= c.ts_packets_per_datagram <= 348
                },
                InputConfig::MediaPlayer(c) => bounds::media_player_fault(c) is None,
                InputConfig::Replay(c) => c.recording_id@.len() > 0,
                InputConfig::MxlVideo(c) => c.clock_domain is Some ==> c.clock_domain->0 <= 127,
                InputConfig::MxlAudio(c) => {
                    &&& c.channels == 1 || c.channels == 2 || c.channels == 4 || c.channels == 8
                        || c.channels == 16
                    &&& c.clock_domain is Some ==> c.clock_domain->0 <= 127
                },
                InputConfig::MxlAnc(c) => c.clock_domain is Some ==> c.clock_domain->0 <= 127,
                InputConfig::Sdi(c) => (c.audio_channels == 0 || c.audio_channels == 2
                    || c.audio_channels == 8 || c.audio_channels == 16),
                _ => true,
            }
        },
{
}

/// The sources of a media player are accepted exactly when there is one, each is a bare
/// file name, no transport stream asks for program 0, and the rates are within their
/// limits.
pub proof fn lemma_media_player_accepts(c: MediaPlayerInputConfig)
    ensures
        bounds::media_player_fault(c) is None <==> {
            &&& c.sources@.len() > 0
            &&& forall|i: int|
                #![trigger c.sources@[i]]
                0 <= i < c.sources@.len() ==> match c.sources@[i] {
                    MediaPlayerSource::Ts { name, program_number, .. } => names_a_file(name@)
                        && program_number != Some(0u16),
                    MediaPlayerSource::Mp4 { name } => names_a_file(name@),
                    MediaPlayerSource::Image { name, .. } => names_a_file(name@),
                }
            &&& c.paced_bitrate_bps is Some ==> 100_000 <= c.paced_bitrate_bps->0 <= 200_000_000
            &&& 1 <= c.ts_packets_per_datagram <= 348
        },
{
    let test = bounds::asset_check();
    error::lemma_first_fault_none(c.sources@, test, 0);
    assert forall|i: int|
        #![trigger c.sources@[i]]
        0 <= i < c.sources@.len() implies (test(i, c.sources@[i]) is None
        <==> match c.sources@[i] {
        MediaPlayerSource::Ts { name, program_number, .. } => names_a_file(name@) && program_number
            != Some(0u16),
        MediaPlayerSource::Mp4 { name } => names_a_file(name@),
        MediaPlayerSource::Image { name, .. } => names_a_file(name@),
    }) by {}
}

/// Whether a text can be a file in a directory: neither empty, nor the directory itself,
/// nor the one above, and without a slash.
pub open spec fn names_a_file(s: Seq<char>) -> bool {
    &&& s.len() > 0
    &&& s != "."@
    &&& s != ".."@
    &&& forall|i: int| 0 <= i < s.len() ==> #[trigger] s[i] != '/'
}

/// A source is accepted exactly when it is a unicast IP address of the family of the
/// address that it sends to.
pub proof fn lemma_source_accepts(source: Option<String>, bind_addr: Seq<char>, context: Seq<char>)
    ensures
        sockets::source_fault(source, bind_addr, context) is None <==> {
            &&& source is Some ==> addr::ip_of(source->0@) is Some
            &&& source is Some ==> !addr::ip_of(source->0@)->0.spec_is_multicast()
            &&& source is Some ==> (addr::socket_of(bind_addr) is Some
                && addr::ip_of(source->0@) is Some ==> (addr::socket_of(bind_addr)->0.ip is V4
                <==> addr::ip_of(source->0@)->0 is V4))
        },
{
}

/// An interface name has 1 to 15 characters, each of them a letter, a digit, a dot, an
/// underscore or a hyphen.
pub proof fn lemma_interface_names(s: Seq<char>)
    ensures
        sockets::is_interface_name(s) <==> {
            &&& 1 <= s.len() <= 15
            &&& forall|i: int|
                0 <= i < s.len() ==> {
                    let c = #[trigger] s[i];
                    'a' <= c <= 'z' || 'A' <= c <= 'Z' || '0' <= c <= '9' || c == '.' || c == '_'
                        || c == '-'
                }
        },
{
}

/// Whatever an input is pinned to is an interface name, and whatever source it expects is
/// accepted, for each leg, each sub-stream and each member of a bonding group.
pub proof fn lemma_input_sockets_accepts(input: InputConfig)
    ensures
        sockets::input_sockets_fault(input) is None <==> {
            &&& match input {
                InputConfig::Rtp(c) => {
                    &&& c.interface_binding is Some
                        ==> sockets::is_interface_name(c.interface_binding->0.name@)
                    &&& sockets::source_fault(c.source_addr, c.bind_addr@, "RTP input"@) is None
                    &&& c.redundancy is Some && c.redundancy->0.interface_binding is Some
                        ==> sockets::is_interface_name(c.redundancy->0.interface_binding->0.name@)
                    &&& c.redundancy is Some
                        ==> sockets::source_fault(
                            c.redundancy->0.source_addr,
                            c.redundancy->0.bind_addr@,
                            "RTP input redundancy"@,
                        ) is None
                },
                InputConfig::Udp(c) => {
                    &&& c.interface_binding is Some
                        ==> sockets::is_interface_name(c.interface_binding->0.name@)
                    &&& sockets::source_fault(c.source_addr, c.bind_addr@, "UDP input"@) is None
                },
                InputConfig::Srt(c) => {
                    &&& c.interface_binding is Some
                        ==> sockets::is_interface_name(c.interface_binding->0.name@)
                    &&& c.redundancy is Some && c.redundancy->0.interface_binding is Some
                        ==> sockets::is_interface_name(c.redundancy->0.interface_binding->0.name@)
                    &&& sockets::bonding_fault(
                        c.mode,
                        c.bonding,
                        c.redundancy,
                        "SRT input"@,
                    ) is None
                },
                InputConfig::Rist(c) => {
                    &&& c.interface_binding is Some
                        ==> sockets::is_interface_name(c.interface_binding->0.name@)
                    &&& c.redundancy is Some && c.redundancy->0.interface_binding is Some
                        ==> sockets::is_interface_name(c.redundancy->0.interface_binding->0.name@)
                },
                InputConfig::St2110_30(c) => {
                    &&& c.interface_binding is Some
                        ==> sockets::is_interface_name(c.interface_binding->0.name@)
                    &&& sockets::source_fault(
                        c.source_addr,
                        c.bind_addr@,
                        "ST 2110-30 input"@,
                    ) is None
                    &&& c.redundancy is Some
                        ==> sockets::source_fault(
                            c.redundancy->0.source_addr,
                            c.redundancy->0.addr@,
                            "ST 2110-30 input redundancy"@,
                        ) is None
                    &&& c.redundancy is Some && c.redundancy->0.interface_binding is Some
                        ==> sockets::is_interface_name(c.redundancy->0.interface_binding->0.name@)
                },
                InputConfig::St2110_31(c) => {
                    &&& c.interface_binding is Some
                        ==> sockets::is_interface_name(c.interface_binding->0.name@)
                    &&& sockets::source_fault(
                        c.source_addr,
                        c.bind_addr@,
                        "ST 2110-31 input"@,
                    ) is None
                    &&& c.redundancy is Some
                        ==> sockets::source_fault(
                            c.redundancy->0.source_addr,
                            c.redundancy->0.addr@,
                            "ST 2110-31 input redundancy"@,
                        ) is None
                    &&& c.redundancy is Some && c.redundancy->0.interface_binding is Some
                        ==> sockets::is_interface_name(c.redundancy->0.interface_binding->0.name@)
                },
                InputConfig::St2110_40(c) => {
                    &&& c.interface_binding is Some
                        ==> sockets::is_interface_name(c.interface_binding->0.name@)
                    &&& sockets::source_fault(
                        c.source_addr,
                        c.bind_addr@,
                        "ST 2110-40 input"@,
                    ) is None
                    &&& c.redundancy is Some
                        ==> sockets::source_fault(
                            c.redundancy->0.source_addr,
                            c.redundancy->0.addr@,
                            "ST 2110-40 input redundancy"@,
                        ) is None
                    &&& c.redundancy is Some && c.redundancy->0.interface_binding is Some
                        ==> sockets::is_interface_name(c.redundancy->0.interface_binding->0.name@)
                },
                InputConfig::St2110_20(c) => {
                    &&& c.interface_binding is Some
                        ==> sockets::is_interface_name(c.interface_binding->0.name@)
                    &&& sockets::source_fault(
                        c.source_addr,
                        c.bind_addr@,
                        "ST 2110-20 input"@,
                    ) is None
                    &&& c.redundancy is Some
                        ==> sockets::source_fault(
                            c.redundancy->0.source_addr,
                            c.redundancy->0.addr@,
                            "ST 2110-20 input redundancy"@,
                        ) is None
                    &&& c.redundancy is Some && c.redundancy->0.interface_binding is Some
                        ==> sockets::is_interface_name(c.redundancy->0.interface_binding->0.name@)
                },
                InputConfig::St2110_23(c) => {
                    &&& c.interface_binding is Some
                        ==> sockets::is_interface_name(c.interface_binding->0.name@)
                    &&& forall|i: int|
                        #![trigger c.sub_streams@[i]]
                        0 <= i < c.sub_streams@.len() ==> {
                            &&& sockets::source_fault(
                                c.sub_streams@[i].source_addr,
                                c.sub_streams@[i].bind_addr@,
                                "ST 2110-23 input"@,
                            ) is None
                            &&& sockets::received_leg_fault(
                                c.sub_streams@[i].redundancy,
                                "ST 2110-23 input redundancy"@,
                            ) is None
                        }
                },
                InputConfig::RtpAudio(c) => {
                    &&& c.interface_binding is Some
                        ==> sockets::is_interface_name(c.interface_binding->0.name@)
                    &&& sockets::source_fault(
                        c.source_addr,
                        c.bind_addr@,
                        "rtp_audio input"@,
                    ) is None
                    &&& c.redundancy is Some
                        ==> sockets::source_fault(
                            c.redundancy->0.source_addr,
                            c.redundancy->0.addr@,
                            "rtp_audio input redundancy"@,
                        ) is None
                    &&& c.redundancy is Some && c.redundancy->0.interface_binding is Some
                        ==> sockets::is_interface_name(c.redundancy->0.interface_binding->0.name@)
                },
                _ => true,
            }
        },
{
    if input is St2110_23 {
        let subs = input->St2110_23_0.sub_streams@;
        let test = sockets::sub_stream_check();
        error::lemma_first_fault_none(subs, test, 0);
        assert forall|i: int|
            #![trigger subs[i]]
            0 <= i < subs.len() implies (test(i, subs[i]) is None <==> {
            &&& sockets::source_fault(
                subs[i].source_addr,
                subs[i].bind_addr@,
                "ST 2110-23 input"@,
            ) is None
            &&& sockets::received_leg_fault(
                subs[i].redundancy,
                "ST 2110-23 input redundancy"@,
            ) is None
        }) by {}
    }
}

/// A second leg that receives is accepted exactly when its source is accepted and whatever
/// it is pinned to is an interface name.
pub proof fn lemma_received_leg_accepts(leg: Option<RedBlueBindConfig>, context: Seq<char>)
    ensures
        sockets::received_leg_fault(leg, context) is None <==> {
            &&& leg is Some
                ==> sockets::source_fault(leg->0.source_addr, leg->0.addr@, context) is None
            &&& leg is Some && leg->0.interface_binding is Some
                ==> sockets::is_interface_name(leg->0.interface_binding->0.name@)
        },
{
}

/// A bonding group is accepted exactly when there is no second leg beside it, it has 2 to
/// 8 members, each member has an address, a local address of a member that does not listen
/// is one, and whatever a member is pinned to is an interface name.
pub proof fn lemma_bonding_accepts(
    mode: SrtMode,
    group: SrtBondingConfig,
    redundancy: Option<SrtRedundancyConfig>,
    context: Seq<char>,
)
    ensures
        sockets::bonding_fault(mode, None, redundancy, context) is None,
        sockets::bonding_fault(mode, Some(group), redundancy, context) is None <==> {
            &&& redundancy is None
            &&& 2 <= group.endpoints@.len() <= 8
            &&& forall|i: int|
                #![trigger group.endpoints@[i]]
                0 <= i < group.endpoints@.len() ==> {
                    let e = group.endpoints@[i];
                    &&& addr::socket_of(e.addr@) is Some
                    &&& mode !is Listener && e.local_addr is Some ==> addr::socket_of(
                        e.local_addr->0@,
                    ) is Some
                    &&& e.interface_binding is Some ==> sockets::is_interface_name(
                        e.interface_binding->0.name@,
                    )
                }
        },
{
    let test = sockets::member_check(mode, context);
    error::lemma_first_fault_none(group.endpoints@, test, 0);
    assert forall|i: int|
        #![trigger group.endpoints@[i]]
        0 <= i < group.endpoints@.len() implies (test(i, group.endpoints@[i]) is None <==> {
        let e = group.endpoints@[i];
        &&& addr::socket_of(e.addr@) is Some
        &&& mode !is Listener && e.local_addr is Some ==> addr::socket_of(e.local_addr->0@) is Some
        &&& e.interface_binding is Some ==> sockets::is_interface_name(e.interface_binding->0.name@)
    }) by {}
}

/// An SRT input that passes all its rules has somewhere to call unless it listens, has a
/// local address unless it calls, has a passphrase of 10 to 79 bytes if any, and keeps each
/// other setting within its limits.
pub proof fn lemma_accepted_srt_input(srt: SrtInputConfig)
    requires
        inputs::input_fault(InputConfig::Srt(srt)) is None,
    ensures
        srt.mode !is Caller ==> srt.local_addr is Some,
        srt.local_addr is Some ==> addr::socket_of(srt.local_addr->0@) is Some,
        srt.mode !is Listener ==> srt.remote_addr is Some,
        srt.mode !is Listener ==> addr::socket_of(srt.remote_addr->0@) is Some,
        srt.passphrase is Some ==> 10 <= text::byte_len(srt.passphrase->0@) <= 79,
        srt.aes_key_len is Some ==> (srt.aes_key_len->0 == 16 || srt.aes_key_len->0 == 24
            || srt.aes_key_len->0 == 32),
        srt.crypto_mode is Some ==> (srt.crypto_mode->0@ == "aes-ctr"@
            || srt.crypto_mode->0@ == "aes-gcm"@),
        srt.crypto_mode is Some && srt.crypto_mode->0@ == "aes-gcm"@
            ==> srt.aes_key_len != Some(24usize),
        srt.max_rexmit_bw is Some ==> srt.max_rexmit_bw->0 >= -1,
        srt.stream_id is Some ==> text::byte_len(srt.stream_id->0@) <= 512,
        srt.packet_filter is Some ==> text::byte_len(srt.packet_filter->0.spec_text@) <= 512,
        srt.packet_filter is Some ==> srt.packet_filter->0.parsed is Matrix,
        srt.packet_filter is Some ==> 1 <= srt.packet_filter->0.parsed->Matrix_0.cols <= 256,
        srt.packet_filter is Some ==> 1 <= srt.packet_filter->0.parsed->Matrix_0.rows <= 256,
        srt.max_bw is Some ==> srt.max_bw->0 >= 0,
        srt.overhead_bw is Some ==> 5 <= srt.overhead_bw->0 <= 100,
        srt.flight_flag_size is Some ==> srt.flight_flag_size->0 >= 32,
        srt.send_buffer_size is Some ==> srt.send_buffer_size->0 >= 32,
        srt.recv_buffer_size is Some ==> srt.recv_buffer_size->0 >= 32,
        srt.ip_tos is Some ==> 0 <= srt.ip_tos->0 <= 255,
        srt.retransmit_algo is Some ==> (srt.retransmit_algo->0@ == "default"@
            || srt.retransmit_algo->0@ == "reduced"@),
        srt.send_drop_delay is Some ==> srt.send_drop_delay->0 >= -1,
        srt.loss_max_ttl is Some ==> srt.loss_max_ttl->0 >= 0,
        srt.km_refresh_rate is Some ==> srt.km_refresh_rate->0 != 0,
        srt.km_pre_announce is Some ==> srt.km_pre_announce->0 != 0,
        srt.payload_size is Some ==> 188 <= srt.payload_size->0 <= 1456,
        srt.mss is Some ==> 76 <= srt.mss->0 <= 9000,
        srt.ip_ttl is Some ==> 1 <= srt.ip_ttl->0 <= 255,
        srt.redundancy is Some
            ==> srt::srt_redundancy_fault(srt.redundancy->0, "SRT input"@) is None,
        srt.transport_mode is Some ==> (srt.transport_mode->0@ == "ts"@
            || srt.transport_mode->0@ == "audio_302m"@),
{
    lemma_srt_input_accepts(srt);
}

} // verus!
