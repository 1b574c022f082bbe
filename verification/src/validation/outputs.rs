//! Checks of outputs.

use vstd::prelude::*;

use crate::addr;
use crate::addr::parse_ip;
use crate::binary;
use crate::error;
use crate::error::{fail, Checks, ConfigError};
use crate::models::{
    CmafOutputConfig, HlsOutputConfig, OutputConfig, RtmpOutputConfig, RtpOutputConfig,
    RtpOutputRedundancyConfig, SrtOutputConfig, UdpOutputConfig, WebrtcOutputConfig,
    WebrtcOutputMode,
};
use crate::text;
use crate::validation::bounds;
use crate::validation::bounds::validate_output_bounds;
use crate::validation::encode;
use crate::validation::encode::{validate_audio_encode, validate_video_encode};
use crate::validation::fields;
use crate::validation::fields::{
    differ_in_family, interface_family_differs, validate_fec, validate_id, validate_ip_addr,
    validate_ip_syntax, validate_name, validate_output_group, validate_program_number,
    validate_socket_addr, validate_socket_syntax,
};
use crate::validation::media;
use crate::validation::media::validate_output_media;
use crate::validation::rist;
use crate::validation::rist::validate_rist_output;
use crate::validation::sockets;
use crate::validation::sockets::validate_output_sockets;
use crate::validation::srt;
use crate::validation::srt::{
    output_knobs, validate_srt_common, validate_srt_local_addr, validate_srt_redundancy,
};
use crate::validation::st2110;
use crate::validation::st2110::{
    validate_rtp_audio_output, validate_st2110_23_output, validate_st2110_ancillary_output,
    validate_st2110_audio_output, validate_st2110_video_output, St2110Profile,
};

verus! {

/// The addresses of an RTP output must be addresses of one family.
pub open spec fn rtp_output_family_fault(rtp: RtpOutputConfig) -> Option<Seq<char>> {
    fields::socket_syntax_fault(rtp.dest_addr@).otherwise(
        error::when(
            rtp.bind_addr is Some,
            fields::socket_syntax_fault(rtp.bind_addr->0@).otherwise(
                error::check(
                    fields::families_differ(rtp.dest_addr@, rtp.bind_addr->0@),
                    "RTP output '"@ + rtp.id@ + "': dest_addr '"@ + rtp.dest_addr@
                        + "' and bind_addr '"@ + rtp.bind_addr->0@
                        + "' must use the same address family"@,
                ),
            ),
        ),
    ).otherwise(
        error::when(
            rtp.interface_addr is Some,
            fields::ip_syntax_fault(rtp.interface_addr->0@).otherwise(
                error::check(
                    fields::interface_differs(rtp.dest_addr@, rtp.interface_addr->0@),
                    "RTP output '"@ + rtp.id@ + "': dest_addr '"@ + rtp.dest_addr@
                        + "' and interface_addr '"@ + rtp.interface_addr->0@
                        + "' must use the same address family"@,
                ),
            ),
        ),
    )
}

/// Checks that the addresses of an RTP output are of one family.
pub fn validate_rtp_output_addr_family(rtp: &RtpOutputConfig) -> (r: Result<(), ConfigError>)
    ensures
        error::is_outcome(r, rtp_output_family_fault(*rtp)),
{
    validate_socket_syntax(rtp.dest_addr.as_str())?;
    if let Some(bind) = &rtp.bind_addr {
        validate_socket_syntax(bind.as_str())?;
        if differ_in_family(rtp.dest_addr.as_str(), bind.as_str()) {
            return fail(
                text::cat7(
                    "RTP output '",
                    rtp.id.as_str(),
                    "': dest_addr '",
                    rtp.dest_addr.as_str(),
                    "' and bind_addr '",
                    bind.as_str(),
                    "' must use the same address family",
                ),
            );
        }
    }
    if let Some(iface) = &rtp.interface_addr {
        validate_ip_syntax(iface.as_str())?;
        if interface_family_differs(rtp.dest_addr.as_str(), iface.as_str()) {
            return fail(
                text::cat7(
                    "RTP output '",
                    rtp.id.as_str(),
                    "': dest_addr '",
                    rtp.dest_addr.as_str(),
                    "' and interface_addr '",
                    iface.as_str(),
                    "' must use the same address family",
                ),
            );
        }
    }
    Ok(())
}

/// The rules for the second leg of the RTP output `id`, whose first leg
/// goes to `dest_addr`.
pub open spec fn rtp_output_redundancy_fault(
    red: RtpOutputRedundancyConfig,
    id: Seq<char>,
    dest_addr: Seq<char>,
) -> Option<Seq<char>> {
    fields::socket_addr_fault(red.dest_addr@, "RTP output redundancy dest_addr"@).otherwise(
        error::when(
            red.bind_addr is Some,
            fields::socket_addr_fault(red.bind_addr->0@, "RTP output redundancy bind_addr"@),
        ),
    ).otherwise(
        error::when(
            red.interface_addr is Some,
            fields::ip_addr_fault(
                red.interface_addr->0@,
                "RTP output redundancy interface_addr"@,
            ),
        ),
    ).otherwise(
        error::check(
            red.dscp is Some && red.dscp->0 > 63,
            "RTP output '"@ + id + "' redundancy: DSCP must be 0-63, got "@
                + text::dec(red.dscp->0 as nat),
        ),
    ).otherwise(
        error::check(
            fields::families_differ(dest_addr, red.dest_addr@),
            "RTP output '"@ + id + "' redundancy: leg 1 ("@ + dest_addr + ") and leg 2 ("@
                + red.dest_addr@ + ") must use the same address family"@,
        ),
    )
}

/// Checks the second leg of the RTP output `id`, whose first leg goes to `dest_addr`.
pub fn validate_rtp_output_redundancy(
    red: &RtpOutputRedundancyConfig,
    id: &str,
    dest_addr: &str,
) -> (r: Result<(), ConfigError>)
    ensures
        error::is_outcome(r, rtp_output_redundancy_fault(*red, id@, dest_addr@)),
{
    validate_socket_addr(red.dest_addr.as_str(), "RTP output redundancy dest_addr")?;
    if let Some(bind) = &red.bind_addr {
        validate_socket_addr(bind.as_str(), "RTP output redundancy bind_addr")?;
    }
    if let Some(iface) = &red.interface_addr {
        validate_ip_addr(iface.as_str(), "RTP output redundancy interface_addr")?;
    }
    if let Some(dscp) = red.dscp {
        if dscp > 63 {
            return fail(text::cat4(
                "RTP output '",
                id,
                "' redundancy: DSCP must be 0-63, got ",
                text::dec_string(dscp as u64).as_str(),
            ));
        }
    }
    if differ_in_family(dest_addr, red.dest_addr.as_str()) {
        return fail(
            text::cat7(
                "RTP output '",
                id,
                "' redundancy: leg 1 (",
                dest_addr,
                ") and leg 2 (",
                red.dest_addr.as_str(),
                ") must use the same address family",
            ),
        );
    }
    Ok(())
}

/// The rules for an RTP output.
pub open spec fn rtp_output_fault(rtp: RtpOutputConfig) -> Option<Seq<char>> {
    fields::id_fault(rtp.id@, "RTP output"@).otherwise(
        fields::name_fault(rtp.name@, "RTP output"@),
    ).otherwise(
        fields::program_number_fault(rtp.program_number, "RTP output '"@ + rtp.id@ + "'"@),
    ).otherwise(
        fields::socket_addr_fault(rtp.dest_addr@, "RTP output dest_addr"@),
    ).otherwise(
        error::when(
            rtp.bind_addr is Some,
            fields::socket_addr_fault(rtp.bind_addr->0@, "RTP output bind_addr"@),
        ),
    ).otherwise(
        error::when(
            rtp.interface_addr is Some,
            fields::ip_addr_fault(rtp.interface_addr->0@, "RTP output interface_addr"@),
        ),
    ).otherwise(
        error::when(
            rtp.fec_encode is Some,
            fields::fec_fault(rtp.fec_encode->0),
        ),
    ).otherwise(
        rtp_output_family_fault(rtp),
    ).otherwise(
        error::check(
            rtp.dscp > 63,
            "RTP output '"@ + rtp.id@ + "': DSCP must be 0-63, got "@ + text::dec(rtp.dscp as nat),
        ),
    ).otherwise(
        error::when(
            rtp.redundancy is Some,
            rtp_output_redundancy_fault(rtp.redundancy->0, rtp.id@, rtp.dest_addr@),
        ),
    ).otherwise(
        error::when(
            rtp.audio_encode is Some,
            error::check(
                rtp.redundancy is Some,
                "RTP output '"@ + rtp.id@
                    + "': audio_encode is not yet supported with SMPTE 2022-7 redundancy"@,
            ).otherwise(
                error::check(
                    rtp.fec_encode is Some,
                    "RTP output '"@ + rtp.id@
                        + "': audio_encode is not yet supported with SMPTE 2022-1 FEC encode"@,
                ),
            ).otherwise(
                encode::audio_encode_fault(
                    rtp.audio_encode->0,
                    seq!["aac_lc", "he_aac_v1", "he_aac_v2", "mp2", "ac3"],
                    "RTP output '"@ + rtp.id@ + "'"@,
                ),
            ),
        ),
    ).otherwise(
        error::when(
            rtp.video_encode is Some,
            error::check(
                rtp.redundancy is Some,
                "RTP output '"@ + rtp.id@
                    + "': video_encode is not yet supported with SMPTE 2022-7 redundancy"@,
            ).otherwise(
                error::check(
                    rtp.fec_encode is Some,
                    "RTP output '"@ + rtp.id@
                        + "': video_encode is not yet supported with SMPTE 2022-1 FEC encode"@,
                ),
            ).otherwise(
                encode::video_encode_fault(
                    rtp.video_encode->0,
                    "RTP output '"@ + rtp.id@ + "'"@,
                ),
            ),
        ),
    )
}

/// Checks an RTP output.
pub fn validate_rtp_output(rtp: &RtpOutputConfig) -> (r: Result<(), ConfigError>)
    ensures
        error::is_outcome(r, rtp_output_fault(*rtp)),
{
    validate_id(rtp.id.as_str(), "RTP output")?;
    validate_name(rtp.name.as_str(), "RTP output")?;
    validate_program_number(
        rtp.program_number,
        text::cat3("RTP output '", rtp.id.as_str(), "'").as_str(),
    )?;
    validate_socket_addr(rtp.dest_addr.as_str(), "RTP output dest_addr")?;
    if let Some(bind) = &rtp.bind_addr {
        validate_socket_addr(bind.as_str(), "RTP output bind_addr")?;
    }
    if let Some(iface) = &rtp.interface_addr {
        validate_ip_addr(iface.as_str(), "RTP output interface_addr")?;
    }
    if let Some(fec) = &rtp.fec_encode {
        validate_fec(fec)?;
    }
    validate_rtp_output_addr_family(rtp)?;
    if rtp.dscp > 63 {
        return fail(text::cat4(
            "RTP output '",
            rtp.id.as_str(),
            "': DSCP must be 0-63, got ",
            text::dec_string(rtp.dscp as u64).as_str(),
        ));
    }
    if let Some(red) = &rtp.redundancy {
        validate_rtp_output_redundancy(red, rtp.id.as_str(), rtp.dest_addr.as_str())?;
    }
    if let Some(enc) = &rtp.audio_encode {
        if rtp.redundancy.is_some() {
            return fail(text::cat3(
                "RTP output '",
                rtp.id.as_str(),
                "': audio_encode is not yet supported with SMPTE 2022-7 redundancy",
            ));
        }
        if rtp.fec_encode.is_some() {
            return fail(text::cat3(
                "RTP output '",
                rtp.id.as_str(),
                "': audio_encode is not yet supported with SMPTE 2022-1 FEC encode",
            ));
        }
        validate_audio_encode(
            enc,
            &["aac_lc", "he_aac_v1", "he_aac_v2", "mp2", "ac3"],
            text::cat3("RTP output '", rtp.id.as_str(), "'").as_str(),
        )?;
    }
    if let Some(enc) = &rtp.video_encode {
        if rtp.redundancy.is_some() {
            return fail(text::cat3(
                "RTP output '",
                rtp.id.as_str(),
                "': video_encode is not yet supported with SMPTE 2022-7 redundancy",
            ));
        }
        if rtp.fec_encode.is_some() {
            return fail(text::cat3(
                "RTP output '",
                rtp.id.as_str(),
                "': video_encode is not yet supported with SMPTE 2022-1 FEC encode",
            ));
        }
        validate_video_encode(enc, text::cat3("RTP output '", rtp.id.as_str(), "'").as_str())?;
    }
    Ok(())
}

/// The rules for a UDP output.
pub open spec fn udp_output_fault(udp: UdpOutputConfig) -> Option<Seq<char>> {
    fields::id_fault(udp.id@, "UDP output"@).otherwise(
        fields::name_fault(udp.name@, "UDP output"@),
    ).otherwise(
        fields::program_number_fault(udp.program_number, "UDP output '"@ + udp.id@ + "'"@),
    ).otherwise(
        fields::socket_addr_fault(udp.dest_addr@, "UDP output dest_addr"@),
    ).otherwise(
        error::when(
            udp.bind_addr is Some,
            fields::socket_addr_fault(udp.bind_addr->0@, "UDP output bind_addr"@),
        ),
    ).otherwise(
        error::when(
            udp.interface_addr is Some,
            fields::ip_addr_fault(udp.interface_addr->0@, "UDP output interface_addr"@),
        ),
    ).otherwise(
        error::check(
            udp.dscp > 63,
            "UDP output '"@ + udp.id@ + "': DSCP must be 0-63, got "@ + text::dec(udp.dscp as nat),
        ),
    ).otherwise(
        error::when(
            udp.transport_mode is Some,
            error::check(
                !(udp.transport_mode->0@ == "ts"@ || udp.transport_mode->0@ == "audio_302m"@),
                "UDP output '"@ + udp.id@ + "': transport_mode must be 'ts' or 'audio_302m', got '"@
                    + udp.transport_mode->0@ + "'"@,
            ).otherwise(
                error::when(
                    udp.transport_mode->0@ == "audio_302m"@,
                    error::check(
                        udp.program_number is Some,
                        "UDP output '"@ + udp.id@
                            + "': transport_mode 'audio_302m' is incompatible with program_number"@,
                    ).otherwise(
                        error::check(
                            udp.pid_map is Some,
                            "UDP output '"@ + udp.id@
                                + "': transport_mode 'audio_302m' is incompatible with pid_map"@,
                        ),
                    ).otherwise(
                        error::check(
                            udp.delay is Some,
                            "UDP output '"@ + udp.id@
                                + "': transport_mode 'audio_302m' is incompatible with delay"@,
                        ),
                    ),
                ),
            ),
        ),
    ).otherwise(
        error::when(
            udp.audio_encode is Some,
            error::check(
                udp.transport_mode is Some && udp.transport_mode->0@ == "audio_302m"@,
                "UDP output '"@ + udp.id@
                    + "': audio_encode is incompatible with transport_mode 'audio_302m'"@,
            ).otherwise(
                encode::audio_encode_fault(
                    udp.audio_encode->0,
                    seq!["aac_lc", "he_aac_v1", "he_aac_v2", "mp2", "ac3"],
                    "UDP output '"@ + udp.id@ + "'"@,
                ),
            ),
        ),
    ).otherwise(
        error::when(
            udp.video_encode is Some,
            error::check(
                udp.transport_mode is Some && udp.transport_mode->0@ == "audio_302m"@,
                "UDP output '"@ + udp.id@
                    + "': video_encode is incompatible with transport_mode 'audio_302m'"@,
            ).otherwise(
                encode::video_encode_fault(
                    udp.video_encode->0,
                    "UDP output '"@ + udp.id@ + "'"@,
                ),
            ),
        ),
    )
}

/// Checks a UDP output.
pub fn validate_udp_output(udp: &UdpOutputConfig) -> (r: Result<(), ConfigError>)
    ensures
        error::is_outcome(r, udp_output_fault(*udp)),
{
    validate_id(udp.id.as_str(), "UDP output")?;
    validate_name(udp.name.as_str(), "UDP output")?;
    validate_program_number(
        udp.program_number,
        text::cat3("UDP output '", udp.id.as_str(), "'").as_str(),
    )?;
    validate_socket_addr(udp.dest_addr.as_str(), "UDP output dest_addr")?;
    if let Some(bind) = &udp.bind_addr {
        validate_socket_addr(bind.as_str(), "UDP output bind_addr")?;
    }
    if let Some(iface) = &udp.interface_addr {
        validate_ip_addr(iface.as_str(), "UDP output interface_addr")?;
    }
    if udp.dscp > 63 {
        return fail(text::cat4(
            "UDP output '",
            udp.id.as_str(),
            "': DSCP must be 0-63, got ",
            text::dec_string(udp.dscp as u64).as_str(),
        ));
    }
    if let Some(tm) = &udp.transport_mode {
        if !(text::str_eq(tm.as_str(), "ts") || text::str_eq(tm.as_str(), "audio_302m")) {
            return fail(text::cat5(
                "UDP output '",
                udp.id.as_str(),
                "': transport_mode must be 'ts' or 'audio_302m', got '",
                tm.as_str(),
                "'",
            ));
        }
        if text::str_eq(tm.as_str(), "audio_302m") {
            if udp.program_number.is_some() {
                return fail(text::cat3(
                    "UDP output '",
                    udp.id.as_str(),
                    "': transport_mode 'audio_302m' is incompatible with program_number",
                ));
            }
            if udp.pid_map.is_some() {
                return fail(text::cat3(
                    "UDP output '",
                    udp.id.as_str(),
                    "': transport_mode 'audio_302m' is incompatible with pid_map",
                ));
            }
            if udp.delay.is_some() {
                return fail(text::cat3(
                    "UDP output '",
                    udp.id.as_str(),
                    "': transport_mode 'audio_302m' is incompatible with delay",
                ));
            }
        }
    }
    if let Some(enc) = &udp.audio_encode {
        if text::opt_str_is(&udp.transport_mode, "audio_302m") {
            return fail(text::cat3(
                "UDP output '",
                udp.id.as_str(),
                "': audio_encode is incompatible with transport_mode 'audio_302m'",
            ));
        }
        validate_audio_encode(
            enc,
            &["aac_lc", "he_aac_v1", "he_aac_v2", "mp2", "ac3"],
            text::cat3("UDP output '", udp.id.as_str(), "'").as_str(),
        )?;
    }
    if let Some(enc) = &udp.video_encode {
        if text::opt_str_is(&udp.transport_mode, "audio_302m") {
            return fail(text::cat3(
                "UDP output '",
                udp.id.as_str(),
                "': video_encode is incompatible with transport_mode 'audio_302m'",
            ));
        }
        validate_video_encode(enc, text::cat3("UDP output '", udp.id.as_str(), "'").as_str())?;
    }
    Ok(())
}

/// The rules for the transport mode of an SRT output, and what it excludes.
pub open spec fn srt_output_transport_fault(
    srt: SrtOutputConfig,
    tm: Seq<char>,
) -> Option<Seq<char>> {
    error::check(
        !(tm == "ts"@ || tm == "audio_302m"@),
        "SRT output '"@ + srt.id@ + "': transport_mode must be 'ts' or 'audio_302m', got '"@
            + tm + "'"@,
    ).otherwise(
        error::when(
            tm == "audio_302m"@,
            error::check(
                srt.packet_filter is Some,
                "SRT output '"@ + srt.id@
                    + "': transport_mode 'audio_302m' is incompatible with packet_filter (FEC)"@,
            ).otherwise(
                error::check(
                    srt.program_number is Some,
                    "SRT output '"@ + srt.id@
                        + "': transport_mode 'audio_302m' is incompatible with program_number"@,
                ),
            ).otherwise(
                error::check(
                    srt.redundancy is Some,
                    "SRT output '"@ + srt.id@
                        + "': transport_mode 'audio_302m' is incompatible with SMPTE 2022-7 redundancy"@,
                ),
            ).otherwise(
                error::check(
                    srt.pid_map is Some,
                    "SRT output '"@ + srt.id@
                        + "': transport_mode 'audio_302m' is incompatible with pid_map"@,
                ),
            ).otherwise(
                error::check(
                    srt.delay is Some,
                    "SRT output '"@ + srt.id@
                        + "': transport_mode 'audio_302m' is incompatible with delay"@,
                ),
            ),
        ),
    )
}

/// Checks the transport mode of an SRT output, and what it excludes.
pub fn validate_srt_output_transport(
    srt: &SrtOutputConfig,
    tm: &str,
) -> (r: Result<(), ConfigError>)
    ensures
        error::is_outcome(r, srt_output_transport_fault(*srt, tm@)),
{
    if !(text::str_eq(tm, "ts") || text::str_eq(tm, "audio_302m")) {
        return fail(text::cat5(
            "SRT output '",
            srt.id.as_str(),
            "': transport_mode must be 'ts' or 'audio_302m', got '",
            tm,
            "'",
        ));
    }
    if text::str_eq(tm, "audio_302m") {
        if srt.packet_filter.is_some() {
            return fail(text::cat3(
                "SRT output '",
                srt.id.as_str(),
                "': transport_mode 'audio_302m' is incompatible with packet_filter (FEC)",
            ));
        }
        if srt.program_number.is_some() {
            return fail(text::cat3(
                "SRT output '",
                srt.id.as_str(),
                "': transport_mode 'audio_302m' is incompatible with program_number",
            ));
        }
        if srt.redundancy.is_some() {
            return fail(text::cat3(
                "SRT output '",
                srt.id.as_str(),
                "': transport_mode 'audio_302m' is incompatible with SMPTE 2022-7 redundancy",
            ));
        }
        if srt.pid_map.is_some() {
            return fail(text::cat3(
                "SRT output '",
                srt.id.as_str(),
                "': transport_mode 'audio_302m' is incompatible with pid_map",
            ));
        }
        if srt.delay.is_some() {
            return fail(text::cat3(
                "SRT output '",
                srt.id.as_str(),
                "': transport_mode 'audio_302m' is incompatible with delay",
            ));
        }
    }
    Ok(())
}

/// The rules for an SRT output.
pub open spec fn srt_output_fault(srt: SrtOutputConfig) -> Option<Seq<char>> {
    fields::id_fault(srt.id@, "SRT output"@).otherwise(
        fields::name_fault(srt.name@, "SRT output"@),
    ).otherwise(
        fields::program_number_fault(srt.program_number, "SRT output '"@ + srt.id@ + "'"@),
    ).otherwise(
        srt::local_addr_fault(srt.mode, srt.local_addr, "SRT output"@),
    ).otherwise(
        srt::srt_common_fault(srt::spec_output_knobs(&srt), "SRT output"@),
    ).otherwise(
        error::when(
            srt.redundancy is Some,
            srt::srt_redundancy_fault(srt.redundancy->0, "SRT output"@),
        ),
    ).otherwise(
        error::when(
            srt.transport_mode is Some,
            srt_output_transport_fault(srt, srt.transport_mode->0@),
        ),
    ).otherwise(
        error::when(
            srt.audio_encode is Some,
            error::check(
                srt.transport_mode is Some && srt.transport_mode->0@ == "audio_302m"@,
                "SRT output '"@ + srt.id@
                    + "': audio_encode is incompatible with transport_mode 'audio_302m'"@,
            ).otherwise(
                error::check(
                    srt.redundancy is Some,
                    "SRT output '"@ + srt.id@
                        + "': audio_encode is not yet supported with SMPTE 2022-7 redundancy"@,
                ),
            ).otherwise(
                error::check(
                    srt.packet_filter is Some,
                    "SRT output '"@ + srt.id@
                        + "': audio_encode is not yet supported with SRT FEC (packet_filter)"@,
                ),
            ).otherwise(
                encode::audio_encode_fault(
                    srt.audio_encode->0,
                    seq!["aac_lc", "he_aac_v1", "he_aac_v2", "mp2", "ac3"],
                    "SRT output '"@ + srt.id@ + "'"@,
                ),
            ),
        ),
    ).otherwise(
        error::when(
            srt.video_encode is Some,
            error::check(
                srt.transport_mode is Some && srt.transport_mode->0@ == "audio_302m"@,
                "SRT output '"@ + srt.id@
                    + "': video_encode is incompatible with transport_mode 'audio_302m'"@,
            ).otherwise(
                error::check(
                    srt.redundancy is Some,
                    "SRT output '"@ + srt.id@
                        + "': video_encode is not yet supported with SMPTE 2022-7 redundancy"@,
                ),
            ).otherwise(
                error::check(
                    srt.packet_filter is Some,
                    "SRT output '"@ + srt.id@
                        + "': video_encode is not yet supported with SRT FEC (packet_filter)"@,
                ),
            ).otherwise(
                encode::video_encode_fault(
                    srt.video_encode->0,
                    "SRT output '"@ + srt.id@ + "'"@,
                ),
            ),
        ),
    )
}

/// Checks an SRT output.
pub fn validate_srt_output(srt: &SrtOutputConfig) -> (r: Result<(), ConfigError>)
    ensures
        error::is_outcome(r, srt_output_fault(*srt)),
{
    validate_id(srt.id.as_str(), "SRT output")?;
    validate_name(srt.name.as_str(), "SRT output")?;
    validate_program_number(
        srt.program_number,
        text::cat3("SRT output '", srt.id.as_str(), "'").as_str(),
    )?;
    validate_srt_local_addr(srt.mode, &srt.local_addr, "SRT output")?;
    validate_srt_common(&output_knobs(srt), "SRT output")?;
    if let Some(red) = &srt.redundancy {
        validate_srt_redundancy(red, "SRT output")?;
    }
    if let Some(tm) = &srt.transport_mode {
        validate_srt_output_transport(srt, tm.as_str())?;
    }
    if let Some(enc) = &srt.audio_encode {
        if text::opt_str_is(&srt.transport_mode, "audio_302m") {
            return fail(text::cat3(
                "SRT output '",
                srt.id.as_str(),
                "': audio_encode is incompatible with transport_mode 'audio_302m'",
            ));
        }
        if srt.redundancy.is_some() {
            return fail(text::cat3(
                "SRT output '",
                srt.id.as_str(),
                "': audio_encode is not yet supported with SMPTE 2022-7 redundancy",
            ));
        }
        if srt.packet_filter.is_some() {
            return fail(text::cat3(
                "SRT output '",
                srt.id.as_str(),
                "': audio_encode is not yet supported with SRT FEC (packet_filter)",
            ));
        }
        validate_audio_encode(
            enc,
            &["aac_lc", "he_aac_v1", "he_aac_v2", "mp2", "ac3"],
            text::cat3("SRT output '", srt.id.as_str(), "'").as_str(),
        )?;
    }
    if let Some(enc) = &srt.video_encode {
        if text::opt_str_is(&srt.transport_mode, "audio_302m") {
            return fail(text::cat3(
                "SRT output '",
                srt.id.as_str(),
                "': video_encode is incompatible with transport_mode 'audio_302m'",
            ));
        }
        if srt.redundancy.is_some() {
            return fail(text::cat3(
                "SRT output '",
                srt.id.as_str(),
                "': video_encode is not yet supported with SMPTE 2022-7 redundancy",
            ));
        }
        if srt.packet_filter.is_some() {
            return fail(text::cat3(
                "SRT output '",
                srt.id.as_str(),
                "': video_encode is not yet supported with SRT FEC (packet_filter)",
            ));
        }
        validate_video_encode(enc, text::cat3("SRT output '", srt.id.as_str(), "'").as_str())?;
    }
    Ok(())
}

/// The rules for an RTMP output.
pub open spec fn rtmp_output_fault(rtmp: RtmpOutputConfig) -> Option<Seq<char>> {
    fields::id_fault(rtmp.id@, "RTMP output"@).otherwise(
        fields::name_fault(rtmp.name@, "RTMP output"@),
    ).otherwise(
        fields::program_number_fault(rtmp.program_number, "RTMP output '"@ + rtmp.id@ + "'"@),
    ).otherwise(
        error::check(
            !text::has_prefix(rtmp.dest_url@, "rtmp://"@)
                && !text::has_prefix(rtmp.dest_url@, "rtmps://"@),
            "RTMP output '"@ + rtmp.id@ + "': dest_url must start with rtmp:// or rtmps://"@,
        ),
    ).otherwise(
        error::check(
            text::byte_len(rtmp.dest_url@) > 2048,
            "RTMP output '"@ + rtmp.id@ + "': dest_url must be at most 2048 characters"@,
        ),
    ).otherwise(
        error::check(
            rtmp.stream_key@.len() == 0,
            "RTMP output '"@ + rtmp.id@ + "': stream_key cannot be empty"@,
        ),
    ).otherwise(
        error::check(
            text::byte_len(rtmp.stream_key@) > 256,
            "RTMP output '"@ + rtmp.id@ + "': stream_key must be at most 256 characters"@,
        ),
    ).otherwise(
        error::check(
            rtmp.reconnect_delay_secs == 0,
            "RTMP output '"@ + rtmp.id@ + "': reconnect_delay_secs must be > 0"@,
        ),
    ).otherwise(
        error::when(
            rtmp.audio_encode is Some,
            encode::audio_encode_fault(
                rtmp.audio_encode->0,
                seq!["aac_lc", "he_aac_v1", "he_aac_v2"],
                "RTMP output '"@ + rtmp.id@ + "'"@,
            ),
        ),
    )
}

/// Checks an RTMP output.
pub fn validate_rtmp_output(rtmp: &RtmpOutputConfig) -> (r: Result<(), ConfigError>)
    ensures
        error::is_outcome(r, rtmp_output_fault(*rtmp)),
{
    validate_id(rtmp.id.as_str(), "RTMP output")?;
    validate_name(rtmp.name.as_str(), "RTMP output")?;
    validate_program_number(
        rtmp.program_number,
        text::cat3("RTMP output '", rtmp.id.as_str(), "'").as_str(),
    )?;
    if !text::starts_with(rtmp.dest_url.as_str(), "rtmp://")
        && !text::starts_with(rtmp.dest_url.as_str(), "rtmps://") {
        return fail(text::cat3(
            "RTMP output '",
            rtmp.id.as_str(),
            "': dest_url must start with rtmp:// or rtmps://",
        ));
    }
    if text::byte_count(rtmp.dest_url.as_str()) > 2048 {
        return fail(text::cat3(
            "RTMP output '",
            rtmp.id.as_str(),
            "': dest_url must be at most 2048 characters",
        ));
    }
    if rtmp.stream_key.as_str().is_empty() {
        return fail(text::cat3("RTMP output '", rtmp.id.as_str(), "': stream_key cannot be empty"));
    }
    if text::byte_count(rtmp.stream_key.as_str()) > 256 {
        return fail(text::cat3(
            "RTMP output '",
            rtmp.id.as_str(),
            "': stream_key must be at most 256 characters",
        ));
    }
    if rtmp.reconnect_delay_secs == 0 {
        return fail(text::cat3("RTMP output '", rtmp.id.as_str(), "': reconnect_delay_secs must be > 0"));
    }
    if let Some(enc) = &rtmp.audio_encode {
        validate_audio_encode(
            enc,
            &["aac_lc", "he_aac_v1", "he_aac_v2"],
            text::cat3("RTMP output '", rtmp.id.as_str(), "'").as_str(),
        )?;
    }
    Ok(())
}

/// The rules for an HLS output.
pub open spec fn hls_output_fault(hls: HlsOutputConfig) -> Option<Seq<char>> {
    fields::id_fault(hls.id@, "HLS output"@).otherwise(
        fields::name_fault(hls.name@, "HLS output"@),
    ).otherwise(
        fields::program_number_fault(hls.program_number, "HLS output '"@ + hls.id@ + "'"@),
    ).otherwise(
        error::check(
            !text::has_prefix(hls.ingest_url@, "http://"@)
                && !text::has_prefix(hls.ingest_url@, "https://"@),
            "HLS output '"@ + hls.id@ + "': ingest_url must start with http:// or https://"@,
        ),
    ).otherwise(
        error::check(
            text::byte_len(hls.ingest_url@) > 2048,
            "HLS output '"@ + hls.id@ + "': ingest_url must be at most 2048 characters"@,
        ),
    ).otherwise(
        error::check(
            hls.auth_token is Some && text::byte_len(hls.auth_token->0@) > 4096,
            "HLS output '"@ + hls.id@ + "': auth_token must be at most 4096 characters"@,
        ),
    ).otherwise(
        error::check(
            binary::lt(hls.segment_duration_secs.bits, binary::HALF) || binary::lt(
                binary::TEN,
                hls.segment_duration_secs.bits,
            ),
            "HLS output '"@ + hls.id@ + "': segment_duration_secs must be 0.5-10.0, got "@
                + hls.segment_duration_secs.text@,
        ),
    ).otherwise(
        error::check(
            hls.max_segments == 0 || hls.max_segments > 30,
            "HLS output '"@ + hls.id@ + "': max_segments must be 1-30, got "@
                + text::dec(hls.max_segments as nat),
        ),
    ).otherwise(
        error::when(
            hls.audio_encode is Some,
            encode::audio_encode_fault(
                hls.audio_encode->0,
                seq!["aac_lc", "he_aac_v1", "he_aac_v2", "mp2", "ac3"],
                "HLS output '"@ + hls.id@ + "'"@,
            ),
        ),
    )
}

/// Checks an HLS output.
pub fn validate_hls_output(hls: &HlsOutputConfig) -> (r: Result<(), ConfigError>)
    ensures
        error::is_outcome(r, hls_output_fault(*hls)),
{
    validate_id(hls.id.as_str(), "HLS output")?;
    validate_name(hls.name.as_str(), "HLS output")?;
    validate_program_number(
        hls.program_number,
        text::cat3("HLS output '", hls.id.as_str(), "'").as_str(),
    )?;
    if !text::starts_with(hls.ingest_url.as_str(), "http://")
        && !text::starts_with(hls.ingest_url.as_str(), "https://") {
        return fail(text::cat3(
            "HLS output '",
            hls.id.as_str(),
            "': ingest_url must start with http:// or https://",
        ));
    }
    if text::byte_count(hls.ingest_url.as_str()) > 2048 {
        return fail(text::cat3(
            "HLS output '",
            hls.id.as_str(),
            "': ingest_url must be at most 2048 characters",
        ));
    }
    if let Some(token) = &hls.auth_token {
        if text::byte_count(token.as_str()) > 4096 {
            return fail(text::cat3(
                "HLS output '",
                hls.id.as_str(),
                "': auth_token must be at most 4096 characters",
            ));
        }
    }
    if binary::less_than(hls.segment_duration_secs.bits, binary::HALF) || binary::less_than(
        binary::TEN,
        hls.segment_duration_secs.bits,
    ) {
        return fail(
            text::cat4(
                "HLS output '",
                hls.id.as_str(),
                "': segment_duration_secs must be 0.5-10.0, got ",
                hls.segment_duration_secs.text.as_str(),
            ),
        );
    }
    if hls.max_segments == 0 || hls.max_segments > 30 {
        return fail(text::cat4(
            "HLS output '",
            hls.id.as_str(),
            "': max_segments must be 1-30, got ",
            text::dec_string(hls.max_segments as u64).as_str(),
        ));
    }
    if let Some(enc) = &hls.audio_encode {
        validate_audio_encode(
            enc,
            &["aac_lc", "he_aac_v1", "he_aac_v2", "mp2", "ac3"],
            text::cat3("HLS output '", hls.id.as_str(), "'").as_str(),
        )?;
    }
    Ok(())
}

/// The check of every manifest of a CMAF output.
pub open spec fn manifest_check(id: Seq<char>) -> spec_fn(int, String) -> Option<Seq<char>> {
    |i: int, manifest: String|
        error::check(
            manifest@ != "hls"@,
            "CMAF output '"@ + id + "': manifest '"@ + manifest@
                + "' is not supported; only 'hls' is"@,
        )
}

/// The rules for the manifests of a CMAF output: at least one, and only HLS.
pub open spec fn manifests_fault(manifests: Seq<String>, id: Seq<char>) -> Option<Seq<char>> {
    error::check(
        manifests.len() == 0,
        "CMAF output '"@ + id + "': manifests cannot be empty"@,
    ).otherwise(error::first_fault(manifests, manifest_check(id), 0))
}

fn validate_manifests(manifests: &Vec<String>, id: &str) -> (r: Result<(), ConfigError>)
    ensures
        error::is_outcome(r, manifests_fault(manifests@, id@)),
{
    if manifests.len() == 0 {
        return fail(text::cat3("CMAF output '", id, "': manifests cannot be empty"));
    }
    let mut i: usize = 0;
    while i < manifests.len()
        invariant
            i <= manifests@.len(),
            error::first_fault(manifests@, manifest_check(id@), 0) == error::first_fault(
                manifests@,
                manifest_check(id@),
                i as int,
            ),
            manifests@.len() > 0,
        decreases manifests.len() - i,
    {
        if !text::str_eq(manifests[i].as_str(), "hls") {
            return fail(
                text::cat5(
                    "CMAF output '",
                    id,
                    "': manifest '",
                    manifests[i].as_str(),
                    "' is not supported; only 'hls' is",
                ),
            );
        }
        i = i + 1;
    }
    Ok(())
}

/// What a CMAF output does not support: encryption, encoding, and the
/// transcoding that would come before it.
pub open spec fn cmaf_unsupported_fault(cmaf: CmafOutputConfig) -> Option<Seq<char>> {
    let p = "CMAF output '"@ + cmaf.id@;
    error::check(
        cmaf.encryption is Some,
        p + "': encryption is not supported yet"@,
    ).otherwise(
        error::check(
            cmaf.audio_encode is Some,
            p + "': audio_encode is not supported yet"@,
        ),
    ).otherwise(
        error::check(cmaf.transcode is Some, p + "': transcode requires audio_encode"@),
    ).otherwise(
        error::check(
            cmaf.video_encode is Some,
            p + "': video_encode is not supported yet"@,
        ),
    )
}

fn validate_cmaf_unsupported(cmaf: &CmafOutputConfig) -> (r: Result<(), ConfigError>)
    ensures
        error::is_outcome(r, cmaf_unsupported_fault(*cmaf)),
{
    let id = cmaf.id.as_str();
    if cmaf.encryption.is_some() {
        return fail(text::cat3("CMAF output '", id, "': encryption is not supported yet"));
    }
    if cmaf.audio_encode.is_some() {
        return fail(text::cat3("CMAF output '", id, "': audio_encode is not supported yet"));
    }
    if cmaf.transcode.is_some() {
        return fail(text::cat3("CMAF output '", id, "': transcode requires audio_encode"));
    }
    if cmaf.video_encode.is_some() {
        return fail(text::cat3("CMAF output '", id, "': video_encode is not supported yet"));
    }
    Ok(())
}

/// The rules for a CMAF output. The chunk duration counts only in low-latency
/// mode.
pub open spec fn cmaf_output_fault(cmaf: CmafOutputConfig) -> Option<Seq<char>> {
    let p = "CMAF output '"@ + cmaf.id@;
    fields::id_fault(cmaf.id@, "CMAF output"@).otherwise(
        fields::name_fault(cmaf.name@, "CMAF output"@),
    ).otherwise(
        fields::program_number_fault(cmaf.program_number, p + "'"@),
    ).otherwise(
        error::check(
            !text::has_prefix(cmaf.ingest_url@, "http://"@)
                && !text::has_prefix(cmaf.ingest_url@, "https://"@),
            p + "': ingest_url must start with http:// or https://"@,
        ),
    ).otherwise(
        error::check(
            cmaf.low_latency && !(100 <= cmaf.chunk_duration_ms <= 2000),
            p + "': chunk_duration_ms must be 100-2000, got "@ + text::dec(
                cmaf.chunk_duration_ms as nat,
            ),
        ),
    ).otherwise(
        error::check(
            !(binary::le(binary::ONE, cmaf.segment_duration_secs.bits) && binary::le(
                cmaf.segment_duration_secs.bits,
                binary::TEN,
            )),
            p + "': segment_duration_secs must be 1.0-10.0, got "@
                + cmaf.segment_duration_secs.text@,
        ),
    ).otherwise(
        error::check(
            cmaf.max_segments == 0 || cmaf.max_segments > 30,
            p + "': max_segments must be 1-30, got "@ + text::dec(cmaf.max_segments as nat),
        ),
    ).otherwise(
        manifests_fault(cmaf.manifests@, cmaf.id@),
    ).otherwise(
        cmaf_unsupported_fault(cmaf),
    )
}

/// Checks a CMAF output.
pub fn validate_cmaf_output(cmaf: &CmafOutputConfig) -> (r: Result<(), ConfigError>)
    ensures
        error::is_outcome(r, cmaf_output_fault(*cmaf)),
{
    let id = cmaf.id.as_str();
    validate_id(id, "CMAF output")?;
    validate_name(cmaf.name.as_str(), "CMAF output")?;
    validate_program_number(
        cmaf.program_number,
        text::cat3("CMAF output '", id, "'").as_str(),
    )?;
    if !text::starts_with(cmaf.ingest_url.as_str(), "http://") && !text::starts_with(
        cmaf.ingest_url.as_str(),
        "https://",
    ) {
        return fail(
            text::cat3(
                "CMAF output '",
                id,
                "': ingest_url must start with http:// or https://",
            ),
        );
    }
    if cmaf.low_latency && !(100 <= cmaf.chunk_duration_ms && cmaf.chunk_duration_ms <= 2000) {
        return fail(
            text::cat4(
                "CMAF output '",
                id,
                "': chunk_duration_ms must be 100-2000, got ",
                text::dec_string(cmaf.chunk_duration_ms as u64).as_str(),
            ),
        );
    }
    if !(binary::at_most(binary::ONE, cmaf.segment_duration_secs.bits) && binary::at_most(
        cmaf.segment_duration_secs.bits,
        binary::TEN,
    )) {
        return fail(
            text::cat4(
                "CMAF output '",
                id,
                "': segment_duration_secs must be 1.0-10.0, got ",
                cmaf.segment_duration_secs.text.as_str(),
            ),
        );
    }
    if cmaf.max_segments == 0 || cmaf.max_segments > 30 {
        return fail(
            text::cat4(
                "CMAF output '",
                id,
                "': max_segments must be 1-30, got ",
                text::dec_string(cmaf.max_segments as u64).as_str(),
            ),
        );
    }
    validate_manifests(&cmaf.manifests, id)?;
    validate_cmaf_unsupported(cmaf)
}

/// What a WebRTC output needs in its mode: the client a URL, the server a sane
/// number of viewers.
pub open spec fn webrtc_mode_fault(webrtc: WebrtcOutputConfig) -> Option<Seq<char>> {
    let url = webrtc.whip_url->0@;
    let max = webrtc.max_viewers->0;
    match webrtc.mode {
        WebrtcOutputMode::WhipClient => error::check(
            webrtc.whip_url is None,
            "WebRTC output '"@ + webrtc.id@ + "': whip_url is required for whip_client mode"@,
        ).otherwise(
            error::check(
                !text::has_prefix(url, "http://"@) && !text::has_prefix(url, "https://"@),
                "WebRTC output '"@ + webrtc.id@
                    + "': whip_url must start with http:// or https://"@,
            ),
        ).otherwise(
            error::check(
                text::byte_len(url) > 2048,
                "WebRTC output '"@ + webrtc.id@ + "': whip_url must be at most 2048 characters"@,
            ),
        ),
        WebrtcOutputMode::WhepServer => error::check(
            webrtc.max_viewers is Some && (max == 0 || max > 100),
            "WebRTC output '"@ + webrtc.id@ + "': max_viewers must be 1-100, got "@ + text::dec(
                max as nat,
            ),
        ),
    }
}

/// Checks what a WebRTC output needs in its mode.
pub fn validate_webrtc_mode(webrtc: &WebrtcOutputConfig) -> (r: Result<(), ConfigError>)
    ensures
        error::is_outcome(r, webrtc_mode_fault(*webrtc)),
{
    match webrtc.mode {
        WebrtcOutputMode::WhipClient => {
            match &webrtc.whip_url {
                Some(url) => {
                    if !text::starts_with(url.as_str(), "http://") && !text::starts_with(
                        url.as_str(),
                        "https://",
                    ) {
                        return fail(
                            text::cat3(
                                "WebRTC output '",
                                webrtc.id.as_str(),
                                "': whip_url must start with http:// or https://",
                            ),
                        );
                    }
                    if text::byte_count(url.as_str()) > 2048 {
                        return fail(
                            text::cat3(
                                "WebRTC output '",
                                webrtc.id.as_str(),
                                "': whip_url must be at most 2048 characters",
                            ),
                        );
                    }
                },
                None => {
                    return fail(
                        text::cat3(
                            "WebRTC output '",
                            webrtc.id.as_str(),
                            "': whip_url is required for whip_client mode",
                        ),
                    );
                },
            }
        },
        WebrtcOutputMode::WhepServer => {
            if let Some(max) = webrtc.max_viewers {
                if max == 0 || max > 100 {
                    return fail(
                        text::cat4(
                            "WebRTC output '",
                            webrtc.id.as_str(),
                            "': max_viewers must be 1-100, got ",
                            text::dec_string(max as u64).as_str(),
                        ),
                    );
                }
            }
        },
    }
    Ok(())
}

/// The rules for a WebRTC output.
pub open spec fn webrtc_output_fault(webrtc: WebrtcOutputConfig) -> Option<Seq<char>> {
    fields::id_fault(webrtc.id@, "WebRTC output"@).otherwise(
        fields::name_fault(webrtc.name@, "WebRTC output"@),
    ).otherwise(
        fields::program_number_fault(
            webrtc.program_number,
            "WebRTC output '"@ + webrtc.id@ + "'"@,
        ),
    ).otherwise(
        webrtc_mode_fault(webrtc),
    ).otherwise(
        error::check(
            webrtc.bearer_token is Some && text::byte_len(webrtc.bearer_token->0@) > 4096,
            "WebRTC output '"@ + webrtc.id@ + "': bearer_token must be at most 4096 characters"@,
        ),
    ).otherwise(
        error::when(
            webrtc.public_ip is Some,
            error::check(
                addr::ip_of(webrtc.public_ip->0@) is None,
                "WebRTC output '"@ + webrtc.id@ + "': invalid public_ip '"@ + webrtc.public_ip->0@
                    + "'"@,
            ),
        ),
    ).otherwise(
        error::when(
            webrtc.audio_encode is Some,
            error::check(
                webrtc.video_only,
                "WebRTC output '"@ + webrtc.id@
                    + "': audio_encode requires video_only=false (audio MID must be negotiated in SDP)"@,
            ).otherwise(
                encode::audio_encode_fault(
                    webrtc.audio_encode->0,
                    seq!["opus"],
                    "WebRTC output '"@ + webrtc.id@ + "'"@,
                ),
            ),
        ),
    )
}

/// Checks a WebRTC output.
pub fn validate_webrtc_output(webrtc: &WebrtcOutputConfig) -> (r: Result<(), ConfigError>)
    ensures
        error::is_outcome(r, webrtc_output_fault(*webrtc)),
{
    validate_id(webrtc.id.as_str(), "WebRTC output")?;
    validate_name(webrtc.name.as_str(), "WebRTC output")?;
    validate_program_number(
        webrtc.program_number,
        text::cat3("WebRTC output '", webrtc.id.as_str(), "'").as_str(),
    )?;
    validate_webrtc_mode(webrtc)?;
    if let Some(token) = &webrtc.bearer_token {
        if text::byte_count(token.as_str()) > 4096 {
            return fail(text::cat3(
                "WebRTC output '",
                webrtc.id.as_str(),
                "': bearer_token must be at most 4096 characters",
            ));
        }
    }
    if let Some(ip) = &webrtc.public_ip {
        if parse_ip(ip.as_str()).is_none() {
            return fail(
                text::cat5(
                    "WebRTC output '",
                    webrtc.id.as_str(),
                    "': invalid public_ip '",
                    ip.as_str(),
                    "'",
                ),
            );
        }
    }
    if let Some(enc) = &webrtc.audio_encode {
        if webrtc.video_only {
            return fail(text::cat3(
                "WebRTC output '",
                webrtc.id.as_str(),
                "': audio_encode requires video_only=false (audio MID must be negotiated in SDP)",
            ));
        }
        validate_audio_encode(
            enc,
            &["opus"],
            text::cat3("WebRTC output '", webrtc.id.as_str(), "'").as_str(),
        )?;
    }
    Ok(())
}

/// The rules of an output's protocol. There are none for bonded, display, SDI
/// and MXL outputs.
pub open spec fn output_protocol_fault(
    output: OutputConfig,
    upstream_audio: Option<(u32, u8, u8)>,
) -> Option<Seq<char>> {
    match output {
        OutputConfig::Rtp(c) => rtp_output_fault(c),
        OutputConfig::Udp(c) => udp_output_fault(c),
        OutputConfig::Srt(c) => srt_output_fault(c),
        OutputConfig::Rist(c) => rist::rist_output_fault(c),
        OutputConfig::Rtmp(c) => rtmp_output_fault(c),
        OutputConfig::Hls(c) => hls_output_fault(c),
        OutputConfig::Cmaf(c) => cmaf_output_fault(c),
        OutputConfig::Webrtc(c) => webrtc_output_fault(c),
        OutputConfig::St2110_30(c) => st2110::st2110_audio_output_fault(
            c,
            St2110Profile::Pcm,
            upstream_audio,
        ),
        OutputConfig::St2110_31(c) => st2110::st2110_audio_output_fault(
            c,
            St2110Profile::Aes3,
            upstream_audio,
        ),
        OutputConfig::St2110_40(c) => st2110::st2110_ancillary_output_fault(c),
        OutputConfig::St2110_20(c) => st2110::st2110_video_output_fault(c),
        OutputConfig::St2110_23(c) => st2110::st2110_23_output_fault(c),
        OutputConfig::RtpAudio(c) => st2110::rtp_audio_output_fault(c, upstream_audio),
        OutputConfig::Bonded(_)
        | OutputConfig::Display(_)
        | OutputConfig::Sdi(_)
        | OutputConfig::MxlVideo(_)
        | OutputConfig::MxlAudio(_)
        | OutputConfig::MxlAnc(_) => None,
    }
}

/// The rules of an output: its group tag, the rules of its protocol, then
/// those for its media settings.
pub open spec fn output_fault(output: OutputConfig, upstream_audio: Option<(u32, u8, u8)>) -> Option<
    Seq<char>,
> {
    fields::output_group_fault(output.spec_group(), output.spec_id()).otherwise(
        output_protocol_fault(output, upstream_audio),
    ).otherwise(media::output_media_fault(output)).otherwise(
        bounds::output_bounds_fault(output),
    ).otherwise(sockets::output_sockets_fault(output))
}

/// Checks an output against the rules of its protocol.
pub fn validate_output_protocol(
    output: &OutputConfig,
    upstream_audio: Option<(u32, u8, u8)>,
) -> (r: Result<(), ConfigError>)
    ensures
        error::is_outcome(r, output_protocol_fault(*output, upstream_audio)),
{
    match output {
        OutputConfig::Rtp(c) => validate_rtp_output(c),
        OutputConfig::Udp(c) => validate_udp_output(c),
        OutputConfig::Srt(c) => validate_srt_output(c),
        OutputConfig::Rist(c) => validate_rist_output(c),
        OutputConfig::Rtmp(c) => validate_rtmp_output(c),
        OutputConfig::Hls(c) => validate_hls_output(c),
        OutputConfig::Cmaf(c) => validate_cmaf_output(c),
        OutputConfig::Webrtc(c) => validate_webrtc_output(c),
        OutputConfig::St2110_30(c) => validate_st2110_audio_output(
            c,
            St2110Profile::Pcm,
            upstream_audio,
        ),
        OutputConfig::St2110_31(c) => validate_st2110_audio_output(
            c,
            St2110Profile::Aes3,
            upstream_audio,
        ),
        OutputConfig::St2110_40(c) => validate_st2110_ancillary_output(c),
        OutputConfig::St2110_20(c) => validate_st2110_video_output(c),
        OutputConfig::St2110_23(c) => validate_st2110_23_output(c),
        OutputConfig::RtpAudio(c) => validate_rtp_audio_output(c, upstream_audio),
        OutputConfig::Bonded(_)
        | OutputConfig::Display(_)
        | OutputConfig::Sdi(_)
        | OutputConfig::MxlVideo(_)
        | OutputConfig::MxlAudio(_)
        | OutputConfig::MxlAnc(_) => Ok(()),
    }
}

/// Checks an output on its own.
pub fn validate_output(output: &OutputConfig) -> (r: Result<(), ConfigError>)
    ensures
        error::is_outcome(r, output_fault(*output, None)),
{
    validate_output_with_input(output, None)
}

/// Checks an output that is fed with audio of the shape `upstream_audio`
/// (sample rate, bit depth, channels), so that transcoding blocks are held
/// against the channels that really arrive.
pub fn validate_output_with_input(
    output: &OutputConfig,
    upstream_audio: Option<(u32, u8, u8)>,
) -> (r: Result<(), ConfigError>)
    ensures
        error::is_outcome(r, output_fault(*output, upstream_audio)),
{
    validate_output_group(output.group(), output.id())?;
    validate_output_protocol(output, upstream_audio)?;
    validate_output_media(output)?;
    validate_output_bounds(output)?;
    validate_output_sockets(output)
}

} // verus!
