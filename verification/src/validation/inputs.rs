//! Checks of inputs.

use vstd::prelude::*;

use crate::addr;
use crate::addr::parse_ip;
use crate::error;
use crate::error::{fail, Checks, ConfigError};
use crate::models::{
    InputConfig, InputDefinition, RtmpInputConfig, RtpInputConfig, RtpRedundancyConfig,
    RtspInputConfig, SrtInputConfig, UdpInputConfig, WebrtcInputConfig, WhepInputConfig,
};
use crate::text;
use crate::validation::bounds;
use crate::validation::bounds::validate_input_bounds;
use crate::validation::fields;
use crate::validation::fields::{
    differ_in_family, interface_family_differs, validate_fec, validate_ip_addr, validate_ip_syntax,
    validate_socket_addr, validate_socket_syntax, validate_sources,
};
use crate::validation::media;
use crate::validation::media::validate_input_media;
use crate::validation::rist;
use crate::validation::rist::validate_rist_input;
use crate::validation::sockets;
use crate::validation::sockets::validate_input_sockets;
use crate::validation::srt;
use crate::validation::srt::{
    input_knobs, validate_srt_common, validate_srt_local_addr, validate_srt_redundancy,
};
use crate::validation::st2110;
use crate::validation::st2110::{
    validate_max_bitrate, validate_rtp_audio_input, validate_st2110_23_input,
    validate_st2110_ancillary_input, validate_st2110_audio_input, validate_st2110_video_input,
    St2110Profile,
};

verus! {

/// The bind address and the interface address of an RTP input, where it has
/// one, must be addresses of one family.
pub open spec fn rtp_input_family_fault(rtp: RtpInputConfig) -> Option<Seq<char>> {
    error::when(
        rtp.interface_addr is Some,
        fields::socket_syntax_fault(rtp.bind_addr@).otherwise(
            fields::ip_syntax_fault(rtp.interface_addr->0@),
        ).otherwise(
            error::check(
                fields::interface_differs(rtp.bind_addr@, rtp.interface_addr->0@),
                "RTP input: bind_addr '"@ + rtp.bind_addr@ + "' and interface_addr '"@
                    + rtp.interface_addr->0@
                    + "' must use the same address family (both IPv4 or both IPv6)"@,
            ),
        ),
    )
}

/// Checks that the bind address and the interface address of an RTP input are
/// of one family.
pub fn validate_rtp_input_addr_family(rtp: &RtpInputConfig) -> (r: Result<(), ConfigError>)
    ensures
        error::is_outcome(r, rtp_input_family_fault(*rtp)),
{
    if let Some(iface) = &rtp.interface_addr {
        validate_socket_syntax(rtp.bind_addr.as_str())?;
        validate_ip_syntax(iface.as_str())?;
        if interface_family_differs(rtp.bind_addr.as_str(), iface.as_str()) {
            return fail(
                text::cat5(
                    "RTP input: bind_addr '",
                    rtp.bind_addr.as_str(),
                    "' and interface_addr '",
                    iface.as_str(),
                    "' must use the same address family (both IPv4 or both IPv6)",
                ),
            );
        }
    }
    Ok(())
}

/// The check of every payload type of an allow-list.
pub open spec fn allowed_pt_check() -> spec_fn(int, u8) -> Option<Seq<char>> {
    |i: int, pt: u8|
        error::check(
            pt > 127,
            "RTP input allowed_payload_types: PT must be 0-127, got "@ + text::dec(pt as nat),
        )
}

/// An allow-list of RTP payload types.
pub open spec fn allowed_pts_fault(pts: Option<Vec<u8>>) -> Option<Seq<char>> {
    error::when(pts is Some, error::first_fault(pts->0@, allowed_pt_check(), 0))
}

/// Checks an optional allow-list of RTP payload types.
pub fn validate_allowed_payload_types(pts: &Option<Vec<u8>>) -> (r: Result<(), ConfigError>)
    ensures
        error::is_outcome(r, allowed_pts_fault(*pts)),
{
    if let Some(list) = pts {
        let mut i: usize = 0;
        while i < list.len()
            invariant
                i <= list@.len(),
                *pts == Some(*list),
                error::first_fault(list@, allowed_pt_check(), 0) == error::first_fault(
                    list@,
                    allowed_pt_check(),
                    i as int,
                ),
            decreases list.len() - i,
        {
            let pt: u8 = list[i];
            if pt > 127 {
                return fail(
                    text::cat2(
                        "RTP input allowed_payload_types: PT must be 0-127, got ",
                        text::dec_string(pt as u64).as_str(),
                    ),
                );
            }
            i = i + 1;
        }
    }
    Ok(())
}

/// The rules for the second leg of an RTP input whose first leg is bound to
/// `bind_addr`.
pub open spec fn rtp_input_redundancy_fault(
    red: RtpRedundancyConfig,
    bind_addr: Seq<char>,
) -> Option<Seq<char>> {
    fields::socket_addr_fault(red.bind_addr@, "RTP input redundancy bind_addr"@).otherwise(
        error::when(
            red.interface_addr is Some,
            fields::ip_addr_fault(
                red.interface_addr->0@,
                "RTP input redundancy interface_addr"@,
            ),
        ),
    ).otherwise(
        error::check(
            fields::families_differ(bind_addr, red.bind_addr@),
            "RTP input redundancy: leg 1 ("@ + bind_addr + ") and leg 2 ("@ + red.bind_addr@
                + ") must use the same address family"@,
        ).otherwise(
            error::check(
                red.interface_addr is Some && fields::interface_differs(
                    red.bind_addr@,
                    red.interface_addr->0@,
                ),
                "RTP input redundancy: bind_addr and interface_addr must use the same address family"@,
            ),
        ),
    )
}

/// Checks the second leg of an RTP input whose first leg is bound to `bind_addr`.
pub fn validate_rtp_input_redundancy(
    red: &RtpRedundancyConfig,
    bind_addr: &str,
) -> (r: Result<(), ConfigError>)
    ensures
        error::is_outcome(r, rtp_input_redundancy_fault(*red, bind_addr@)),
{
    validate_socket_addr(red.bind_addr.as_str(), "RTP input redundancy bind_addr")?;
    if let Some(iface) = &red.interface_addr {
        validate_ip_addr(iface.as_str(), "RTP input redundancy interface_addr")?;
    }
    if differ_in_family(bind_addr, red.bind_addr.as_str()) {
        return fail(
            text::cat5(
                "RTP input redundancy: leg 1 (",
                bind_addr,
                ") and leg 2 (",
                red.bind_addr.as_str(),
                ") must use the same address family",
            ),
        );
    }
    if let Some(iface) = &red.interface_addr {
        if interface_family_differs(red.bind_addr.as_str(), iface.as_str()) {
            return fail(
                "RTP input redundancy: bind_addr and interface_addr must use the same address family".to_owned(),
            );
        }
    }
    Ok(())
}

/// The rules for an RTP input.
pub open spec fn rtp_input_fault(rtp: RtpInputConfig) -> Option<Seq<char>> {
    fields::socket_addr_fault(rtp.bind_addr@, "RTP input bind_addr"@).otherwise(
        error::when(
            rtp.interface_addr is Some,
            fields::ip_addr_fault(rtp.interface_addr->0@, "RTP input interface_addr"@),
        ),
    ).otherwise(
        error::when(
            rtp.fec_decode is Some,
            fields::fec_fault(rtp.fec_decode->0),
        ),
    ).otherwise(
        rtp_input_family_fault(rtp),
    ).otherwise(
        fields::sources_fault(rtp.allowed_sources, "RTP input allowed_sources"@),
    ).otherwise(
        allowed_pts_fault(rtp.allowed_payload_types),
    ).otherwise(
        st2110::max_bitrate_fault(rtp.max_bitrate_mbps, "RTP input"@),
    ).otherwise(
        error::when(
            rtp.redundancy is Some,
            rtp_input_redundancy_fault(rtp.redundancy->0, rtp.bind_addr@),
        ),
    )
}

/// Checks an RTP input.
pub fn validate_rtp_input(rtp: &RtpInputConfig) -> (r: Result<(), ConfigError>)
    ensures
        error::is_outcome(r, rtp_input_fault(*rtp)),
{
    validate_socket_addr(rtp.bind_addr.as_str(), "RTP input bind_addr")?;
    if let Some(iface) = &rtp.interface_addr {
        validate_ip_addr(iface.as_str(), "RTP input interface_addr")?;
    }
    if let Some(fec) = &rtp.fec_decode {
        validate_fec(fec)?;
    }
    validate_rtp_input_addr_family(rtp)?;
    validate_sources(&rtp.allowed_sources, "RTP input allowed_sources")?;
    validate_allowed_payload_types(&rtp.allowed_payload_types)?;
    validate_max_bitrate(&rtp.max_bitrate_mbps, "RTP input")?;
    if let Some(red) = &rtp.redundancy {
        validate_rtp_input_redundancy(red, rtp.bind_addr.as_str())?;
    }
    Ok(())
}

/// The rules for a UDP input.
pub open spec fn udp_input_fault(udp: UdpInputConfig) -> Option<Seq<char>> {
    fields::socket_addr_fault(udp.bind_addr@, "UDP input bind_addr"@).otherwise(
        error::when(
            udp.interface_addr is Some,
            fields::ip_addr_fault(udp.interface_addr->0@, "UDP input interface_addr"@).otherwise(
                error::check(
                    fields::interface_differs(udp.bind_addr@, udp.interface_addr->0@),
                    "UDP input: bind_addr '"@ + udp.bind_addr@ + "' and interface_addr '"@
                        + udp.interface_addr->0@ + "' must use the same address family"@,
                ),
            ),
        ),
    )
}

/// Checks a UDP input.
pub fn validate_udp_input(udp: &UdpInputConfig) -> (r: Result<(), ConfigError>)
    ensures
        error::is_outcome(r, udp_input_fault(*udp)),
{
    validate_socket_addr(udp.bind_addr.as_str(), "UDP input bind_addr")?;
    if let Some(iface) = &udp.interface_addr {
        validate_ip_addr(iface.as_str(), "UDP input interface_addr")?;
        if interface_family_differs(udp.bind_addr.as_str(), iface.as_str()) {
            return fail(
                text::cat5(
                    "UDP input: bind_addr '",
                    udp.bind_addr.as_str(),
                    "' and interface_addr '",
                    iface.as_str(),
                    "' must use the same address family",
                ),
            );
        }
    }
    Ok(())
}

/// The rules for an SRT input.
pub open spec fn srt_input_fault(srt: SrtInputConfig) -> Option<Seq<char>> {
    srt::local_addr_fault(srt.mode, srt.local_addr, "SRT input"@).otherwise(
        srt::srt_common_fault(srt::spec_input_knobs(&srt), "SRT input"@),
    ).otherwise(
        error::when(
            srt.redundancy is Some,
            srt::srt_redundancy_fault(srt.redundancy->0, "SRT input"@),
        ),
    ).otherwise(
        error::check(
            srt.transport_mode is Some && !(srt.transport_mode->0@ == "ts"@
                || srt.transport_mode->0@ == "audio_302m"@),
            "SRT input: transport_mode must be 'ts' or 'audio_302m', got '"@
                + srt.transport_mode->0@ + "'"@,
        ),
    )
}

/// Checks an SRT input.
pub fn validate_srt_input(srt: &SrtInputConfig) -> (r: Result<(), ConfigError>)
    ensures
        error::is_outcome(r, srt_input_fault(*srt)),
{
    validate_srt_local_addr(srt.mode, &srt.local_addr, "SRT input")?;
    validate_srt_common(&input_knobs(srt), "SRT input")?;
    if let Some(red) = &srt.redundancy {
        validate_srt_redundancy(red, "SRT input")?;
    }
    if let Some(tm) = &srt.transport_mode {
        if !(text::str_eq(tm.as_str(), "ts") || text::str_eq(tm.as_str(), "audio_302m")) {
            return fail(text::cat3(
                "SRT input: transport_mode must be 'ts' or 'audio_302m', got '",
                tm.as_str(),
                "'",
            ));
        }
    }
    Ok(())
}

/// The rules for an RTMP input.
pub open spec fn rtmp_input_fault(rtmp: RtmpInputConfig) -> Option<Seq<char>> {
    fields::socket_addr_fault(rtmp.listen_addr@, "RTMP input listen_addr"@).otherwise(
        error::check(rtmp.app@.len() == 0, "RTMP input app name must not be empty"@),
    ).otherwise(
        error::check(
            text::byte_len(rtmp.app@) > 64,
            "RTMP input app name must be at most 64 characters"@,
        ),
    ).otherwise(
        error::check(
            rtmp.stream_key is Some && text::byte_len(rtmp.stream_key->0@) > 256,
            "RTMP input stream_key must be at most 256 characters"@,
        ),
    )
}

/// Checks an RTMP input.
pub fn validate_rtmp_input(rtmp: &RtmpInputConfig) -> (r: Result<(), ConfigError>)
    ensures
        error::is_outcome(r, rtmp_input_fault(*rtmp)),
{
    validate_socket_addr(rtmp.listen_addr.as_str(), "RTMP input listen_addr")?;
    if rtmp.app.as_str().is_empty() {
        return fail("RTMP input app name must not be empty".to_owned());
    }
    if text::byte_count(rtmp.app.as_str()) > 64 {
        return fail("RTMP input app name must be at most 64 characters".to_owned());
    }
    if let Some(key) = &rtmp.stream_key {
        if text::byte_count(key.as_str()) > 256 {
            return fail("RTMP input stream_key must be at most 256 characters".to_owned());
        }
    }
    Ok(())
}

/// The rules for an RTSP input.
pub open spec fn rtsp_input_fault(rtsp: RtspInputConfig) -> Option<Seq<char>> {
    error::check(
        !text::has_prefix(rtsp.rtsp_url@, "rtsp://"@)
            && !text::has_prefix(rtsp.rtsp_url@, "rtsps://"@),
        "RTSP input: rtsp_url must start with rtsp:// or rtsps://"@,
    ).otherwise(
        error::check(
            text::byte_len(rtsp.rtsp_url@) > 2048,
            "RTSP input: rtsp_url must be at most 2048 characters"@,
        ),
    ).otherwise(
        error::check(
            rtsp.username is Some && text::byte_len(rtsp.username->0@) > 256,
            "RTSP input: username must be at most 256 characters"@,
        ),
    ).otherwise(
        error::check(
            rtsp.password is Some && text::byte_len(rtsp.password->0@) > 256,
            "RTSP input: password must be at most 256 characters"@,
        ),
    )
}

/// Checks an RTSP input.
pub fn validate_rtsp_input(rtsp: &RtspInputConfig) -> (r: Result<(), ConfigError>)
    ensures
        error::is_outcome(r, rtsp_input_fault(*rtsp)),
{
    if !text::starts_with(rtsp.rtsp_url.as_str(), "rtsp://")
        && !text::starts_with(rtsp.rtsp_url.as_str(), "rtsps://") {
        return fail("RTSP input: rtsp_url must start with rtsp:// or rtsps://".to_owned());
    }
    if text::byte_count(rtsp.rtsp_url.as_str()) > 2048 {
        return fail("RTSP input: rtsp_url must be at most 2048 characters".to_owned());
    }
    if let Some(user) = &rtsp.username {
        if text::byte_count(user.as_str()) > 256 {
            return fail("RTSP input: username must be at most 256 characters".to_owned());
        }
    }
    if let Some(pass) = &rtsp.password {
        if text::byte_count(pass.as_str()) > 256 {
            return fail("RTSP input: password must be at most 256 characters".to_owned());
        }
    }
    Ok(())
}

/// The rules for a WebRTC (WHIP) input.
pub open spec fn webrtc_input_fault(webrtc: WebrtcInputConfig) -> Option<Seq<char>> {
    error::check(
        webrtc.bearer_token is Some && text::byte_len(webrtc.bearer_token->0@) > 4096,
        "WebRTC input: bearer_token must be at most 4096 characters"@,
    ).otherwise(
        error::when(
            webrtc.public_ip is Some,
            error::check(
                addr::ip_of(webrtc.public_ip->0@) is None,
                "WebRTC input: invalid public_ip '"@ + webrtc.public_ip->0@ + "'"@,
            ),
        ),
    ).otherwise(
        error::check(
            webrtc.stun_server is Some && text::byte_len(webrtc.stun_server->0@) > 2048,
            "WebRTC input: stun_server must be at most 2048 characters"@,
        ),
    )
}

/// Checks a WebRTC (WHIP) input.
pub fn validate_webrtc_input(webrtc: &WebrtcInputConfig) -> (r: Result<(), ConfigError>)
    ensures
        error::is_outcome(r, webrtc_input_fault(*webrtc)),
{
    if let Some(token) = &webrtc.bearer_token {
        if text::byte_count(token.as_str()) > 4096 {
            return fail("WebRTC input: bearer_token must be at most 4096 characters".to_owned());
        }
    }
    if let Some(ip) = &webrtc.public_ip {
        if parse_ip(ip.as_str()).is_none() {
            return fail(text::cat3("WebRTC input: invalid public_ip '", ip.as_str(), "'"));
        }
    }
    if let Some(stun) = &webrtc.stun_server {
        if text::byte_count(stun.as_str()) > 2048 {
            return fail("WebRTC input: stun_server must be at most 2048 characters".to_owned());
        }
    }
    Ok(())
}

/// The rules for a WHEP input.
pub open spec fn whep_input_fault(whep: WhepInputConfig) -> Option<Seq<char>> {
    error::check(
        !text::has_prefix(whep.whep_url@, "http://"@)
            && !text::has_prefix(whep.whep_url@, "https://"@),
        "WHEP input: whep_url must start with http:// or https://"@,
    ).otherwise(
        error::check(
            text::byte_len(whep.whep_url@) > 2048,
            "WHEP input: whep_url must be at most 2048 characters"@,
        ),
    ).otherwise(
        error::check(
            whep.bearer_token is Some && text::byte_len(whep.bearer_token->0@) > 4096,
            "WHEP input: bearer_token must be at most 4096 characters"@,
        ),
    )
}

/// Checks a WHEP input.
pub fn validate_whep_input(whep: &WhepInputConfig) -> (r: Result<(), ConfigError>)
    ensures
        error::is_outcome(r, whep_input_fault(*whep)),
{
    if !text::starts_with(whep.whep_url.as_str(), "http://")
        && !text::starts_with(whep.whep_url.as_str(), "https://") {
        return fail("WHEP input: whep_url must start with http:// or https://".to_owned());
    }
    if text::byte_count(whep.whep_url.as_str()) > 2048 {
        return fail("WHEP input: whep_url must be at most 2048 characters".to_owned());
    }
    if let Some(token) = &whep.bearer_token {
        if text::byte_count(token.as_str()) > 4096 {
            return fail("WHEP input: bearer_token must be at most 4096 characters".to_owned());
        }
    }
    Ok(())
}

/// The rules of an input's protocol. There are none for bonded, generated,
/// file-based, MXL and SDI inputs.
pub open spec fn input_protocol_fault(input: InputConfig) -> Option<Seq<char>> {
    match input {
        InputConfig::Rtp(c) => rtp_input_fault(c),
        InputConfig::Udp(c) => udp_input_fault(c),
        InputConfig::Srt(c) => srt_input_fault(c),
        InputConfig::Rist(c) => rist::rist_input_fault(c),
        InputConfig::Rtmp(c) => rtmp_input_fault(c),
        InputConfig::Rtsp(c) => rtsp_input_fault(c),
        InputConfig::Webrtc(c) => webrtc_input_fault(c),
        InputConfig::Whep(c) => whep_input_fault(c),
        InputConfig::St2110_30(c) => st2110::st2110_audio_input_fault(c, St2110Profile::Pcm),
        InputConfig::St2110_31(c) => st2110::st2110_audio_input_fault(c, St2110Profile::Aes3),
        InputConfig::St2110_40(c) => st2110::st2110_ancillary_input_fault(c),
        InputConfig::St2110_20(c) => st2110::st2110_video_input_fault(c),
        InputConfig::St2110_23(c) => st2110::st2110_23_input_fault(c),
        InputConfig::RtpAudio(c) => st2110::rtp_audio_input_fault(c),
        InputConfig::Bonded(_)
        | InputConfig::TestPattern(_)
        | InputConfig::MediaPlayer(_)
        | InputConfig::Replay(_)
        | InputConfig::MxlVideo(_)
        | InputConfig::MxlAudio(_)
        | InputConfig::MxlAnc(_)
        | InputConfig::Sdi(_) => None,
    }
}

/// Checks an input against the rules of its protocol.
pub fn validate_input_protocol(input: &InputConfig) -> (r: Result<(), ConfigError>)
    ensures
        error::is_outcome(r, input_protocol_fault(*input)),
{
    match input {
        InputConfig::Rtp(c) => validate_rtp_input(c),
        InputConfig::Udp(c) => validate_udp_input(c),
        InputConfig::Srt(c) => validate_srt_input(c),
        InputConfig::Rist(c) => validate_rist_input(c),
        InputConfig::Rtmp(c) => validate_rtmp_input(c),
        InputConfig::Rtsp(c) => validate_rtsp_input(c),
        InputConfig::Webrtc(c) => validate_webrtc_input(c),
        InputConfig::Whep(c) => validate_whep_input(c),
        InputConfig::St2110_30(c) => validate_st2110_audio_input(c, St2110Profile::Pcm),
        InputConfig::St2110_31(c) => validate_st2110_audio_input(c, St2110Profile::Aes3),
        InputConfig::St2110_40(c) => validate_st2110_ancillary_input(c),
        InputConfig::St2110_20(c) => validate_st2110_video_input(c),
        InputConfig::St2110_23(c) => validate_st2110_23_input(c),
        InputConfig::RtpAudio(c) => validate_rtp_audio_input(c),
        InputConfig::Bonded(_)
        | InputConfig::TestPattern(_)
        | InputConfig::MediaPlayer(_)
        | InputConfig::Replay(_)
        | InputConfig::MxlVideo(_)
        | InputConfig::MxlAudio(_)
        | InputConfig::MxlAnc(_)
        | InputConfig::Sdi(_) => Ok(()),
    }
}

/// The rules of an input: those of its protocol, then those for its media
/// settings.
pub open spec fn input_fault(input: InputConfig) -> Option<Seq<char>> {
    input_protocol_fault(input).otherwise(media::input_media_fault(input)).otherwise(
        bounds::input_bounds_fault(input),
    ).otherwise(sockets::input_sockets_fault(input))
}

/// Checks an input: the rules of its protocol, then those for its media
/// settings.
pub fn validate_input(input: &InputConfig) -> (r: Result<(), ConfigError>)
    ensures
        error::is_outcome(r, input_fault(*input)),
{
    validate_input_protocol(input)?;
    validate_input_media(input)?;
    validate_input_bounds(input)?;
    validate_input_sockets(input)
}

/// The rules for a top-level input definition: identifier, name and group
/// tag, then the rules of the input.
pub open spec fn input_definition_fault(def: InputDefinition) -> Option<Seq<char>> {
    error::check(def.id@.len() == 0, "Input definition ID cannot be empty"@).otherwise(
        error::check(
            text::byte_len(def.id@) > 64,
            "Input definition ID must be at most 64 characters"@,
        ),
    ).otherwise(
        error::check(def.name@.len() == 0, "Input definition name cannot be empty"@),
    ).otherwise(
        error::check(
            text::byte_len(def.name@) > 256,
            "Input definition name must be at most 256 characters"@,
        ),
    ).otherwise(
        error::check(
            def.group is Some && text::byte_len(def.group->0@) > 64,
            "Input '"@ + def.id@ + "': group tag must be at most 64 characters"@,
        ),
    ).otherwise(
        input_fault(def.config),
    )
}

/// Checks a top-level input definition: identifier, name and group tag, then the rules of the
/// input.
pub fn validate_input_definition(def: &InputDefinition) -> (r: Result<(), ConfigError>)
    ensures
        error::is_outcome(r, input_definition_fault(*def)),
{
    if def.id.as_str().is_empty() {
        return fail("Input definition ID cannot be empty".to_owned());
    }
    if text::byte_count(def.id.as_str()) > 64 {
        return fail("Input definition ID must be at most 64 characters".to_owned());
    }
    if def.name.as_str().is_empty() {
        return fail("Input definition name cannot be empty".to_owned());
    }
    if text::byte_count(def.name.as_str()) > 256 {
        return fail("Input definition name must be at most 256 characters".to_owned());
    }
    if let Some(group) = &def.group {
        if text::byte_count(group.as_str()) > 64 {
            return fail(text::cat3("Input '", def.id.as_str(), "': group tag must be at most 64 characters"));
        }
    }
    validate_input(&def.config)?;
    Ok(())
}

} // verus!
