//! Checks of uncompressed media: SMPTE ST 2110 and generic RTP audio.

use vstd::prelude::*;

use crate::binary;
use crate::binary::Binary64;
use crate::error;
use crate::error::{fail, Checks, ConfigError};
use crate::models::{
    RtpAudioInputConfig, RtpAudioOutputConfig, St2110AncillaryInputConfig,
    St2110AncillaryOutputConfig, St2110AudioInputConfig, St2110AudioOutputConfig,
    St2110VideoInputConfig, St2110VideoOutputConfig, St2110_23InputConfig, St2110_23OutputConfig,
    St2110_23SubStreamBind, St2110_23SubStreamDest,
};
use crate::text;
use crate::validation::encode;
use crate::validation::encode::{validate_transcode_block, validate_video_encode};
use crate::validation::fields;
use crate::validation::fields::{
    validate_clock_domain, validate_id, validate_ip_addr, validate_name, validate_payload_budget,
    validate_red_blue_bind, validate_rtp_audio_params, validate_rtp_payload_type,
    validate_socket_addr, validate_sources, validate_video_dims,
};

verus! {

/// The audio profile, which decides the sample depths that are accepted.
#[derive(Debug, Clone, Copy, PartialEq, Eq)]
pub enum St2110Profile {
    /// ST 2110-30: linear PCM of 16 or 24 bits.
    Pcm,
    /// ST 2110-31: AES3, always 24 bits.
    Aes3,
}

impl St2110Profile {
    /// The name of the standard.
    pub open spec fn label_text(self) -> Seq<char> {
        match self {
            St2110Profile::Pcm => "ST 2110-30"@,
            St2110Profile::Aes3 => "ST 2110-31"@,
        }
    }

    /// The name of the standard.
    pub fn label(self) -> (r: &'static str)
        ensures
            r@ == self.label_text(),
    {
        match self {
            St2110Profile::Pcm => "ST 2110-30",
            St2110Profile::Aes3 => "ST 2110-31",
        }
    }
}

/// The shape of the upstream audio, or the output's own where it is not known.
pub open spec fn upstream_or(
    upstream_audio: Option<(u32, u8, u8)>,
    sample_rate: u32,
    bit_depth: u8,
    channels: u8,
) -> (u32, u8, u8) {
    match upstream_audio {
        Some(shape) => shape,
        None => (sample_rate, bit_depth, channels),
    }
}

/// The rules for the audio parameters of an ST 2110-30 or -31 stream.
pub open spec fn st2110_audio_params_fault(
    profile: St2110Profile,
    sample_rate: u32,
    bit_depth: u8,
    channels: u8,
    packet_time_us: u32,
    context: Seq<char>,
) -> Option<Seq<char>> {
    error::check(
        sample_rate != 48_000 && sample_rate != 96_000,
        context + ": sample_rate must be 48000 or 96000, got "@ + text::dec(sample_rate as nat),
    ).otherwise(
        error::check(
            profile is Pcm && bit_depth != 16 && bit_depth != 24,
            context + ": ST 2110-30 bit_depth must be 16 or 24, got "@
                + text::dec(bit_depth as nat),
        ).otherwise(
            error::check(
                profile is Aes3 && bit_depth != 24,
                context + ": ST 2110-31 bit_depth must be 24 (AES3 sub-frame), got "@ + text::dec(
                    bit_depth as nat,
                ),
            ),
        ),
    ).otherwise(
        error::check(
            !(channels == 1 || channels == 2 || channels == 4 || channels == 8 || channels == 16),
            context + ": channels must be 1, 2, 4, 8, or 16, got "@ + text::dec(channels as nat),
        ),
    ).otherwise(
        error::check(
            !(packet_time_us == 125 || packet_time_us == 250 || packet_time_us == 333
                || packet_time_us == 500 || packet_time_us == 1_000 || packet_time_us == 4_000),
            context + ": packet_time_us must be 125, 250, 333, 500, 1000, or 4000, got "@
                + text::dec(packet_time_us as nat),
        ),
    )
}

/// Checks the audio parameters of an ST 2110-30 or -31 stream.
pub fn validate_st2110_audio_params(
    profile: St2110Profile,
    sample_rate: u32,
    bit_depth: u8,
    channels: u8,
    packet_time_us: u32,
    context: &str,
) -> (r: Result<(), ConfigError>)
    ensures
        error::is_outcome(r, st2110_audio_params_fault(
            profile,
            sample_rate,
            bit_depth,
            channels,
            packet_time_us,
            context@,
        )),
{
    if sample_rate != 48_000 && sample_rate != 96_000 {
        return fail(text::cat3(
            context,
            ": sample_rate must be 48000 or 96000, got ",
            text::dec_string(sample_rate as u64).as_str(),
        ));
    }
    match profile {
        St2110Profile::Pcm => {
            if bit_depth != 16 && bit_depth != 24 {
                return fail(
                    text::cat3(
                        context,
                        ": ST 2110-30 bit_depth must be 16 or 24, got ",
                        text::dec_string(bit_depth as u64).as_str(),
                    ),
                );
            }
        },
        St2110Profile::Aes3 => {
            if bit_depth != 24 {
                return fail(
                    text::cat3(
                        context,
                        ": ST 2110-31 bit_depth must be 24 (AES3 sub-frame), got ",
                        text::dec_string(bit_depth as u64).as_str(),
                    ),
                );
            }
        },
    }
    if !(channels == 1 || channels == 2 || channels == 4 || channels == 8 || channels == 16) {
        return fail(text::cat3(
            context,
            ": channels must be 1, 2, 4, 8, or 16, got ",
            text::dec_string(channels as u64).as_str(),
        ));
    }
    if !(packet_time_us == 125 || packet_time_us == 250 || packet_time_us == 333
        || packet_time_us == 500 || packet_time_us == 1_000 || packet_time_us == 4_000) {
        return fail(text::cat3(
            context,
            ": packet_time_us must be 125, 250, 333, 500, 1000, or 4000, got ",
            text::dec_string(packet_time_us as u64).as_str(),
        ));
    }
    Ok(())
}

/// The rules for an optional ingress rate limit: positive, and at most 10
/// Gbps.
pub open spec fn max_bitrate_fault(
    max_bitrate_mbps: Option<Binary64>,
    context: Seq<char>,
) -> Option<Seq<char>> {
    error::when(
        max_bitrate_mbps is Some,
        error::check(
            binary::le(max_bitrate_mbps->0.bits, 0),
            context + " max_bitrate_mbps must be positive, got "@ + max_bitrate_mbps->0.text@,
        ).otherwise(
            error::check(
                binary::lt(binary::TEN_THOUSAND, max_bitrate_mbps->0.bits),
                context + " max_bitrate_mbps must be at most 10000 (10 Gbps), got "@
                    + max_bitrate_mbps->0.text@,
            ),
        ),
    )
}

/// Checks an optional ingress rate limit: positive, and at most 10 Gbps.
pub fn validate_max_bitrate(
    max_bitrate_mbps: &Option<Binary64>,
    context: &str,
) -> (r: Result<(), ConfigError>)
    ensures
        error::is_outcome(r, max_bitrate_fault(*max_bitrate_mbps, context@)),
{
    if let Some(rate) = max_bitrate_mbps {
        if binary::at_most(rate.bits, 0) {
            return fail(
                text::cat3(
                    context,
                    " max_bitrate_mbps must be positive, got ",
                    rate.text.as_str(),
                ),
            );
        }
        if binary::less_than(binary::TEN_THOUSAND, rate.bits) {
            return fail(
                text::cat3(
                    context,
                    " max_bitrate_mbps must be at most 10000 (10 Gbps), got ",
                    rate.text.as_str(),
                ),
            );
        }
    }
    Ok(())
}

/// The rules for an ST 2110-30 or -31 input.
pub open spec fn st2110_audio_input_fault(
    c: St2110AudioInputConfig,
    profile: St2110Profile,
) -> Option<Seq<char>> {
    let label = profile.label_text();
    fields::socket_addr_fault(c.bind_addr@, label + " input bind_addr"@).otherwise(
        error::when(
            c.interface_addr is Some,
            fields::ip_addr_fault(c.interface_addr->0@, label + " input interface_addr"@),
        ),
    ).otherwise(
        st2110_audio_params_fault(
            profile,
            c.sample_rate,
            c.bit_depth,
            c.channels,
            c.packet_time_us,
            label + " input"@,
        ),
    ).otherwise(
        fields::payload_type_fault(c.payload_type, label + " input"@),
    ).otherwise(
        fields::clock_domain_fault(c.clock_domain, label + " input"@),
    ).otherwise(
        fields::sources_fault(c.allowed_sources, label + " input allowed_sources"@),
    ).otherwise(
        max_bitrate_fault(c.max_bitrate_mbps, label + " input"@),
    ).otherwise(
        error::when(
            c.redundancy is Some,
            fields::red_blue_fault(c.redundancy->0, c.bind_addr@, label + " input redundancy"@),
        ),
    )
}

/// Checks an ST 2110-30 or -31 input.
pub fn validate_st2110_audio_input(
    c: &St2110AudioInputConfig,
    profile: St2110Profile,
) -> (r: Result<(), ConfigError>)
    ensures
        error::is_outcome(r, st2110_audio_input_fault(*c, profile)),
{
    let label = profile.label();
    validate_socket_addr(c.bind_addr.as_str(), text::cat2(label, " input bind_addr").as_str())?;
    if let Some(iface) = &c.interface_addr {
        validate_ip_addr(iface.as_str(), text::cat2(label, " input interface_addr").as_str())?;
    }
    validate_st2110_audio_params(
        profile,
        c.sample_rate,
        c.bit_depth,
        c.channels,
        c.packet_time_us,
        text::cat2(label, " input").as_str(),
    )?;
    validate_rtp_payload_type(c.payload_type, text::cat2(label, " input").as_str())?;
    validate_clock_domain(c.clock_domain, text::cat2(label, " input").as_str())?;
    validate_sources(&c.allowed_sources, text::cat2(label, " input allowed_sources").as_str())?;
    validate_max_bitrate(&c.max_bitrate_mbps, text::cat2(label, " input").as_str())?;
    if let Some(red) = &c.redundancy {
        validate_red_blue_bind(
            red,
            c.bind_addr.as_str(),
            text::cat2(label, " input redundancy").as_str(),
        )?;
    }
    Ok(())
}

/// The rules for an ST 2110-30 or -31 output.
pub open spec fn st2110_audio_output_fault(
    c: St2110AudioOutputConfig,
    profile: St2110Profile,
    upstream_audio: Option<(u32, u8, u8)>,
) -> Option<Seq<char>> {
    let label = profile.label_text();
    fields::id_fault(c.id@, label + " output"@).otherwise(
        fields::name_fault(c.name@, label + " output"@),
    ).otherwise(
        fields::socket_addr_fault(c.dest_addr@, label + " output dest_addr"@),
    ).otherwise(
        error::when(
            c.bind_addr is Some,
            fields::socket_addr_fault(c.bind_addr->0@, label + " output bind_addr"@),
        ),
    ).otherwise(
        error::when(
            c.interface_addr is Some,
            fields::ip_addr_fault(c.interface_addr->0@, label + " output interface_addr"@),
        ),
    ).otherwise(
        st2110_audio_params_fault(
            profile,
            c.sample_rate,
            c.bit_depth,
            c.channels,
            c.packet_time_us,
            label + " output '"@ + c.id@ + "'"@,
        ),
    ).otherwise(
        fields::payload_type_fault(c.payload_type, label + " output '"@ + c.id@ + "'"@),
    ).otherwise(
        fields::clock_domain_fault(c.clock_domain, label + " output '"@ + c.id@ + "'"@),
    ).otherwise(
        error::check(
            c.dscp > 63,
            label + " output '"@ + c.id@ + "': DSCP must be 0-63, got "@ + text::dec(c.dscp as nat),
        ),
    ).otherwise(
        error::when(
            c.redundancy is Some,
            fields::red_blue_fault(
                c.redundancy->0,
                c.dest_addr@,
                label + " output '"@ + c.id@ + "' redundancy"@,
            ),
        ),
    ).otherwise(
        error::when(
            c.transcode is Some,
            encode::transcode_fault(
                c.transcode->0,
                upstream_or(upstream_audio, c.sample_rate, c.bit_depth, c.channels).0,
                upstream_or(upstream_audio, c.sample_rate, c.bit_depth, c.channels).1,
                upstream_or(upstream_audio, c.sample_rate, c.bit_depth, c.channels).2,
                label + " output '"@ + c.id@ + "' transcode"@,
            ),
        ),
    )
}

/// Checks an ST 2110-30 or -31 output. `upstream_audio` is the shape of the audio that
/// reaches it, where that is known; otherwise the output's own shape stands in for it.
pub fn validate_st2110_audio_output(
    c: &St2110AudioOutputConfig,
    profile: St2110Profile,
    upstream_audio: Option<(u32, u8, u8)>,
) -> (r: Result<(), ConfigError>)
    ensures
        error::is_outcome(r, st2110_audio_output_fault(*c, profile, upstream_audio)),
{
    let label = profile.label();
    validate_id(c.id.as_str(), text::cat2(label, " output").as_str())?;
    validate_name(c.name.as_str(), text::cat2(label, " output").as_str())?;
    validate_socket_addr(
        c.dest_addr.as_str(),
        text::cat2(label, " output dest_addr").as_str(),
    )?;
    if let Some(bind) = &c.bind_addr {
        validate_socket_addr(bind.as_str(), text::cat2(label, " output bind_addr").as_str())?;
    }
    if let Some(iface) = &c.interface_addr {
        validate_ip_addr(iface.as_str(), text::cat2(label, " output interface_addr").as_str())?;
    }
    validate_st2110_audio_params(
        profile,
        c.sample_rate,
        c.bit_depth,
        c.channels,
        c.packet_time_us,
        text::cat4(label, " output '", c.id.as_str(), "'").as_str(),
    )?;
    validate_rtp_payload_type(
        c.payload_type,
        text::cat4(label, " output '", c.id.as_str(), "'").as_str(),
    )?;
    validate_clock_domain(
        c.clock_domain,
        text::cat4(label, " output '", c.id.as_str(), "'").as_str(),
    )?;
    if c.dscp > 63 {
        return fail(text::cat5(
            label,
            " output '",
            c.id.as_str(),
            "': DSCP must be 0-63, got ",
            text::dec_string(c.dscp as u64).as_str(),
        ));
    }
    if let Some(red) = &c.redundancy {
        validate_red_blue_bind(
            red,
            c.dest_addr.as_str(),
            text::cat4(label, " output '", c.id.as_str(), "' redundancy").as_str(),
        )?;
    }
    if let Some(tj) = &c.transcode {
        let (in_sr, in_bd, in_ch) = match upstream_audio {
            Some(shape) => shape,
            None => (c.sample_rate, c.bit_depth, c.channels),
        };
        validate_transcode_block(
            tj,
            in_sr,
            in_bd,
            in_ch,
            text::cat4(label, " output '", c.id.as_str(), "' transcode").as_str(),
        )?;
    }
    Ok(())
}

/// The rules for an ST 2110-40 input.
pub open spec fn st2110_ancillary_input_fault(
    c: St2110AncillaryInputConfig,
) -> Option<Seq<char>> {
    fields::socket_addr_fault(c.bind_addr@, "ST 2110-40 input bind_addr"@).otherwise(
        error::when(
            c.interface_addr is Some,
            fields::ip_addr_fault(c.interface_addr->0@, "ST 2110-40 input interface_addr"@),
        ),
    ).otherwise(
        fields::payload_type_fault(c.payload_type, "ST 2110-40 input"@),
    ).otherwise(
        fields::clock_domain_fault(c.clock_domain, "ST 2110-40 input"@),
    ).otherwise(
        fields::sources_fault(c.allowed_sources, "ST 2110-40 input allowed_sources"@),
    ).otherwise(
        error::when(
            c.redundancy is Some,
            fields::red_blue_fault(
                c.redundancy->0,
                c.bind_addr@,
                "ST 2110-40 input redundancy"@,
            ),
        ),
    )
}

/// Checks an ST 2110-40 input.
pub fn validate_st2110_ancillary_input(
    c: &St2110AncillaryInputConfig,
) -> (r: Result<(), ConfigError>)
    ensures
        error::is_outcome(r, st2110_ancillary_input_fault(*c)),
{
    validate_socket_addr(c.bind_addr.as_str(), "ST 2110-40 input bind_addr")?;
    if let Some(iface) = &c.interface_addr {
        validate_ip_addr(iface.as_str(), "ST 2110-40 input interface_addr")?;
    }
    validate_rtp_payload_type(c.payload_type, "ST 2110-40 input")?;
    validate_clock_domain(c.clock_domain, "ST 2110-40 input")?;
    validate_sources(&c.allowed_sources, "ST 2110-40 input allowed_sources")?;
    if let Some(red) = &c.redundancy {
        validate_red_blue_bind(red, c.bind_addr.as_str(), "ST 2110-40 input redundancy")?;
    }
    Ok(())
}

/// The rules for an ST 2110-40 output.
pub open spec fn st2110_ancillary_output_fault(
    c: St2110AncillaryOutputConfig,
) -> Option<Seq<char>> {
    fields::id_fault(c.id@, "ST 2110-40 output"@).otherwise(
        fields::name_fault(c.name@, "ST 2110-40 output"@),
    ).otherwise(
        fields::socket_addr_fault(c.dest_addr@, "ST 2110-40 output dest_addr"@),
    ).otherwise(
        error::when(
            c.bind_addr is Some,
            fields::socket_addr_fault(c.bind_addr->0@, "ST 2110-40 output bind_addr"@),
        ),
    ).otherwise(
        error::when(
            c.interface_addr is Some,
            fields::ip_addr_fault(c.interface_addr->0@, "ST 2110-40 output interface_addr"@),
        ),
    ).otherwise(
        fields::payload_type_fault(c.payload_type, "ST 2110-40 output '"@ + c.id@ + "'"@),
    ).otherwise(
        fields::clock_domain_fault(c.clock_domain, "ST 2110-40 output '"@ + c.id@ + "'"@),
    ).otherwise(
        error::check(
            c.dscp > 63,
            "ST 2110-40 output '"@ + c.id@ + "': DSCP must be 0-63, got "@
                + text::dec(c.dscp as nat),
        ),
    ).otherwise(
        error::when(
            c.redundancy is Some,
            fields::red_blue_fault(
                c.redundancy->0,
                c.dest_addr@,
                "ST 2110-40 output '"@ + c.id@ + "' redundancy"@,
            ),
        ),
    )
}

/// Checks an ST 2110-40 output.
pub fn validate_st2110_ancillary_output(
    c: &St2110AncillaryOutputConfig,
) -> (r: Result<(), ConfigError>)
    ensures
        error::is_outcome(r, st2110_ancillary_output_fault(*c)),
{
    validate_id(c.id.as_str(), "ST 2110-40 output")?;
    validate_name(c.name.as_str(), "ST 2110-40 output")?;
    validate_socket_addr(c.dest_addr.as_str(), "ST 2110-40 output dest_addr")?;
    if let Some(bind) = &c.bind_addr {
        validate_socket_addr(bind.as_str(), "ST 2110-40 output bind_addr")?;
    }
    if let Some(iface) = &c.interface_addr {
        validate_ip_addr(iface.as_str(), "ST 2110-40 output interface_addr")?;
    }
    validate_rtp_payload_type(
        c.payload_type,
        text::cat3("ST 2110-40 output '", c.id.as_str(), "'").as_str(),
    )?;
    validate_clock_domain(
        c.clock_domain,
        text::cat3("ST 2110-40 output '", c.id.as_str(), "'").as_str(),
    )?;
    if c.dscp > 63 {
        return fail(text::cat4(
            "ST 2110-40 output '",
            c.id.as_str(),
            "': DSCP must be 0-63, got ",
            text::dec_string(c.dscp as u64).as_str(),
        ));
    }
    if let Some(red) = &c.redundancy {
        validate_red_blue_bind(
            red,
            c.dest_addr.as_str(),
            text::cat3("ST 2110-40 output '", c.id.as_str(), "' redundancy").as_str(),
        )?;
    }
    Ok(())
}

/// The rules for an ST 2110-20 input.
pub open spec fn st2110_video_input_fault(c: St2110VideoInputConfig) -> Option<Seq<char>> {
    fields::socket_addr_fault(c.bind_addr@, "ST 2110-20 input bind_addr"@).otherwise(
        error::when(
            c.interface_addr is Some,
            fields::ip_addr_fault(c.interface_addr->0@, "ST 2110-20 input interface_addr"@),
        ),
    ).otherwise(
        fields::video_dims_fault(
            c.width,
            c.height,
            c.frame_rate_num,
            c.frame_rate_den,
            "ST 2110-20 input"@,
        ),
    ).otherwise(
        fields::payload_type_fault(c.payload_type, "ST 2110-20 input"@),
    ).otherwise(
        fields::clock_domain_fault(c.clock_domain, "ST 2110-20 input"@),
    ).otherwise(
        fields::sources_fault(c.allowed_sources, "ST 2110-20 input allowed_sources"@),
    ).otherwise(
        error::check(
            c.max_bitrate_mbps is Some && (binary::le(c.max_bitrate_mbps->0.bits, 0) || binary::lt(
                binary::HUNDRED_THOUSAND,
                c.max_bitrate_mbps->0.bits,
            )),
            "ST 2110-20 input: max_bitrate_mbps must be > 0 and <= 100000, got "@
                + c.max_bitrate_mbps->0.text@,
        ),
    ).otherwise(
        error::when(
            c.redundancy is Some,
            fields::red_blue_fault(
                c.redundancy->0,
                c.bind_addr@,
                "ST 2110-20 input redundancy"@,
            ),
        ),
    ).otherwise(
        encode::video_encode_fault(c.video_encode, "ST 2110-20 input"@),
    )
}

/// Checks an ST 2110-20 input.
pub fn validate_st2110_video_input(c: &St2110VideoInputConfig) -> (r: Result<(), ConfigError>)
    ensures
        error::is_outcome(r, st2110_video_input_fault(*c)),
{
    validate_socket_addr(c.bind_addr.as_str(), "ST 2110-20 input bind_addr")?;
    if let Some(iface) = &c.interface_addr {
        validate_ip_addr(iface.as_str(), "ST 2110-20 input interface_addr")?;
    }
    validate_video_dims(
        c.width,
        c.height,
        c.frame_rate_num,
        c.frame_rate_den,
        "ST 2110-20 input",
    )?;
    validate_rtp_payload_type(c.payload_type, "ST 2110-20 input")?;
    validate_clock_domain(c.clock_domain, "ST 2110-20 input")?;
    validate_sources(&c.allowed_sources, "ST 2110-20 input allowed_sources")?;
    if let Some(rate) = &c.max_bitrate_mbps {
        if binary::at_most(rate.bits, 0) || binary::less_than(
            binary::HUNDRED_THOUSAND,
            rate.bits,
        ) {
            return fail(
                text::cat2(
                    "ST 2110-20 input: max_bitrate_mbps must be > 0 and <= 100000, got ",
                    rate.text.as_str(),
                ),
            );
        }
    }
    if let Some(red) = &c.redundancy {
        validate_red_blue_bind(red, c.bind_addr.as_str(), "ST 2110-20 input redundancy")?;
    }
    validate_video_encode(&c.video_encode, "ST 2110-20 input")?;
    Ok(())
}

/// The rules for an ST 2110-20 output.
pub open spec fn st2110_video_output_fault(c: St2110VideoOutputConfig) -> Option<Seq<char>> {
    fields::id_fault(c.id@, "ST 2110-20 output"@).otherwise(
        fields::name_fault(c.name@, "ST 2110-20 output"@),
    ).otherwise(
        fields::socket_addr_fault(c.dest_addr@, "ST 2110-20 output '"@ + c.id@ + "' dest_addr"@),
    ).otherwise(
        error::when(
            c.bind_addr is Some,
            fields::socket_addr_fault(
                c.bind_addr->0@,
                "ST 2110-20 output '"@ + c.id@ + "' bind_addr"@,
            ),
        ),
    ).otherwise(
        error::when(
            c.interface_addr is Some,
            fields::ip_addr_fault(
                c.interface_addr->0@,
                "ST 2110-20 output '"@ + c.id@ + "' interface_addr"@,
            ),
        ),
    ).otherwise(
        fields::video_dims_fault(
            c.width,
            c.height,
            c.frame_rate_num,
            c.frame_rate_den,
            "ST 2110-20 output '"@ + c.id@ + "'"@,
        ),
    ).otherwise(
        fields::payload_type_fault(c.payload_type, "ST 2110-20 output '"@ + c.id@ + "'"@),
    ).otherwise(
        fields::clock_domain_fault(c.clock_domain, "ST 2110-20 output '"@ + c.id@ + "'"@),
    ).otherwise(
        error::check(
            c.dscp > 63,
            "ST 2110-20 output '"@ + c.id@ + "': DSCP must be 0-63, got "@
                + text::dec(c.dscp as nat),
        ),
    ).otherwise(
        error::when(
            c.redundancy is Some,
            fields::red_blue_fault(
                c.redundancy->0,
                c.dest_addr@,
                "ST 2110-20 output '"@ + c.id@ + "' redundancy"@,
            ),
        ),
    ).otherwise(
        fields::payload_budget_fault(c.payload_budget, "ST 2110-20 output '"@ + c.id@ + "'"@),
    )
}

/// Checks an ST 2110-20 output.
pub fn validate_st2110_video_output(c: &St2110VideoOutputConfig) -> (r: Result<(), ConfigError>)
    ensures
        error::is_outcome(r, st2110_video_output_fault(*c)),
{
    validate_id(c.id.as_str(), "ST 2110-20 output")?;
    validate_name(c.name.as_str(), "ST 2110-20 output")?;
    validate_socket_addr(
        c.dest_addr.as_str(),
        text::cat3("ST 2110-20 output '", c.id.as_str(), "' dest_addr").as_str(),
    )?;
    if let Some(bind) = &c.bind_addr {
        validate_socket_addr(
            bind.as_str(),
            text::cat3("ST 2110-20 output '", c.id.as_str(), "' bind_addr").as_str(),
        )?;
    }
    if let Some(iface) = &c.interface_addr {
        validate_ip_addr(
            iface.as_str(),
            text::cat3("ST 2110-20 output '", c.id.as_str(), "' interface_addr").as_str(),
        )?;
    }
    validate_video_dims(
        c.width,
        c.height,
        c.frame_rate_num,
        c.frame_rate_den,
        text::cat3("ST 2110-20 output '", c.id.as_str(), "'").as_str(),
    )?;
    validate_rtp_payload_type(
        c.payload_type,
        text::cat3("ST 2110-20 output '", c.id.as_str(), "'").as_str(),
    )?;
    validate_clock_domain(
        c.clock_domain,
        text::cat3("ST 2110-20 output '", c.id.as_str(), "'").as_str(),
    )?;
    if c.dscp > 63 {
        return fail(text::cat4(
            "ST 2110-20 output '",
            c.id.as_str(),
            "': DSCP must be 0-63, got ",
            text::dec_string(c.dscp as u64).as_str(),
        ));
    }
    if let Some(red) = &c.redundancy {
        validate_red_blue_bind(
            red,
            c.dest_addr.as_str(),
            text::cat3("ST 2110-20 output '", c.id.as_str(), "' redundancy").as_str(),
        )?;
    }
    validate_payload_budget(
        c.payload_budget,
        text::cat3("ST 2110-20 output '", c.id.as_str(), "'").as_str(),
    )?;
    Ok(())
}

/// The rules for one sub-stream of an ST 2110-23 input.
pub open spec fn sub_stream_bind_fault(
    s: St2110_23SubStreamBind,
    label: Seq<char>,
) -> Option<Seq<char>> {
    fields::socket_addr_fault(s.bind_addr@, label + " bind_addr"@).otherwise(
        error::when(
            s.interface_addr is Some,
            fields::ip_addr_fault(s.interface_addr->0@, label + " interface_addr"@),
        ),
    ).otherwise(
        fields::payload_type_fault(s.payload_type, label),
    ).otherwise(
        error::when(
            s.redundancy is Some,
            fields::red_blue_fault(s.redundancy->0, s.bind_addr@, label + " redundancy"@),
        ),
    )
}

/// Checks one sub-stream of an ST 2110-23 input.
pub fn validate_sub_stream_bind(
    s: &St2110_23SubStreamBind,
    label: &str,
) -> (r: Result<(), ConfigError>)
    ensures
        error::is_outcome(r, sub_stream_bind_fault(*s, label@)),
{
    validate_socket_addr(s.bind_addr.as_str(), text::cat2(label, " bind_addr").as_str())?;
    if let Some(iface) = &s.interface_addr {
        validate_ip_addr(iface.as_str(), text::cat2(label, " interface_addr").as_str())?;
    }
    validate_rtp_payload_type(s.payload_type, label)?;
    if let Some(red) = &s.redundancy {
        validate_red_blue_bind(
            red,
            s.bind_addr.as_str(),
            text::cat2(label, " redundancy").as_str(),
        )?;
    }
    Ok(())
}

/// The check of every sub-stream.
pub open spec fn sub_stream_bind_check(label: Seq<char>) -> spec_fn(int, St2110_23SubStreamBind) -> Option<Seq<char>> {
    |i: int, s: St2110_23SubStreamBind|
        sub_stream_bind_fault(s, label + " sub_streams["@ + text::dec(i as nat) + "]"@)
}

/// The rules for the sub-streams of an ST 2110-23 input.
pub open spec fn sub_stream_binds_fault(subs: Vec<St2110_23SubStreamBind>, label: Seq<char>) -> Option<Seq<char>> {
    error::first_fault(subs@, sub_stream_bind_check(label), 0)
}

/// Checks the sub-streams of an ST 2110-23 input.
pub fn validate_sub_stream_binds(subs: &Vec<St2110_23SubStreamBind>, label: &str) -> (r: Result<(), ConfigError>)
    ensures
        error::is_outcome(r, sub_stream_binds_fault(*subs, label@)),
{
    let mut i: usize = 0;
    while i < subs.len()
        invariant
            i <= subs@.len(),
            error::first_fault(subs@, sub_stream_bind_check(label@), 0) == error::first_fault(
                subs@,
                sub_stream_bind_check(label@),
                i as int,
            ),
        decreases subs.len() - i,
    {
        validate_sub_stream_bind(
            &subs[i],
            text::cat4(label, " sub_streams[", text::dec_string(i as u64).as_str(), "]").as_str(),
        )?;
        i = i + 1;
    }
    Ok(())
}

/// The rules for an ST 2110-23 input.
pub open spec fn st2110_23_input_fault(c: St2110_23InputConfig) -> Option<Seq<char>> {
    error::check(
        c.sub_streams.len() < 2 || c.sub_streams.len() > 16,
        "ST 2110-23 input: sub_streams must have 2..=16 entries, got "@
            + text::dec(c.sub_streams@.len()),
    ).otherwise(
        sub_stream_binds_fault(c.sub_streams, "ST 2110-23 input"@),
    ).otherwise(
        fields::video_dims_fault(
            c.width,
            c.height,
            c.frame_rate_num,
            c.frame_rate_den,
            "ST 2110-23 input"@,
        ),
    ).otherwise(
        fields::clock_domain_fault(c.clock_domain, "ST 2110-23 input"@),
    ).otherwise(
        encode::video_encode_fault(c.video_encode, "ST 2110-23 input"@),
    )
}

/// Checks an ST 2110-23 input.
pub fn validate_st2110_23_input(c: &St2110_23InputConfig) -> (r: Result<(), ConfigError>)
    ensures
        error::is_outcome(r, st2110_23_input_fault(*c)),
{
    if c.sub_streams.len() < 2 || c.sub_streams.len() > 16 {
        return fail(text::cat2(
            "ST 2110-23 input: sub_streams must have 2..=16 entries, got ",
            text::dec_string(c.sub_streams.len() as u64).as_str(),
        ));
    }
    validate_sub_stream_binds(&c.sub_streams, "ST 2110-23 input")?;
    validate_video_dims(
        c.width,
        c.height,
        c.frame_rate_num,
        c.frame_rate_den,
        "ST 2110-23 input",
    )?;
    validate_clock_domain(c.clock_domain, "ST 2110-23 input")?;
    validate_video_encode(&c.video_encode, "ST 2110-23 input")?;
    Ok(())
}

/// The rules for one sub-stream of an ST 2110-23 output.
pub open spec fn sub_stream_dest_fault(
    s: St2110_23SubStreamDest,
    label: Seq<char>,
) -> Option<Seq<char>> {
    fields::socket_addr_fault(s.dest_addr@, label + " dest_addr"@).otherwise(
        error::when(
            s.bind_addr is Some,
            fields::socket_addr_fault(s.bind_addr->0@, label + " bind_addr"@),
        ),
    ).otherwise(
        error::when(
            s.interface_addr is Some,
            fields::ip_addr_fault(s.interface_addr->0@, label + " interface_addr"@),
        ),
    ).otherwise(
        fields::payload_type_fault(s.payload_type, label),
    ).otherwise(
        error::when(
            s.redundancy is Some,
            fields::red_blue_fault(s.redundancy->0, s.dest_addr@, label + " redundancy"@),
        ),
    )
}

/// Checks one sub-stream of an ST 2110-23 output.
pub fn validate_sub_stream_dest(
    s: &St2110_23SubStreamDest,
    label: &str,
) -> (r: Result<(), ConfigError>)
    ensures
        error::is_outcome(r, sub_stream_dest_fault(*s, label@)),
{
    validate_socket_addr(s.dest_addr.as_str(), text::cat2(label, " dest_addr").as_str())?;
    if let Some(bind) = &s.bind_addr {
        validate_socket_addr(bind.as_str(), text::cat2(label, " bind_addr").as_str())?;
    }
    if let Some(iface) = &s.interface_addr {
        validate_ip_addr(iface.as_str(), text::cat2(label, " interface_addr").as_str())?;
    }
    validate_rtp_payload_type(s.payload_type, label)?;
    if let Some(red) = &s.redundancy {
        validate_red_blue_bind(
            red,
            s.dest_addr.as_str(),
            text::cat2(label, " redundancy").as_str(),
        )?;
    }
    Ok(())
}

/// The check of every sub-stream.
pub open spec fn sub_stream_dest_check(label: Seq<char>) -> spec_fn(int, St2110_23SubStreamDest) -> Option<Seq<char>> {
    |i: int, s: St2110_23SubStreamDest|
        sub_stream_dest_fault(s, label + " sub_streams["@ + text::dec(i as nat) + "]"@)
}

/// The rules for the sub-streams of an ST 2110-23 output.
pub open spec fn sub_stream_dests_fault(subs: Vec<St2110_23SubStreamDest>, label: Seq<char>) -> Option<Seq<char>> {
    error::first_fault(subs@, sub_stream_dest_check(label), 0)
}

/// Checks the sub-streams of an ST 2110-23 output.
pub fn validate_sub_stream_dests(subs: &Vec<St2110_23SubStreamDest>, label: &str) -> (r: Result<(), ConfigError>)
    ensures
        error::is_outcome(r, sub_stream_dests_fault(*subs, label@)),
{
    let mut i: usize = 0;
    while i < subs.len()
        invariant
            i <= subs@.len(),
            error::first_fault(subs@, sub_stream_dest_check(label@), 0) == error::first_fault(
                subs@,
                sub_stream_dest_check(label@),
                i as int,
            ),
        decreases subs.len() - i,
    {
        validate_sub_stream_dest(
            &subs[i],
            text::cat4(label, " sub_streams[", text::dec_string(i as u64).as_str(), "]").as_str(),
        )?;
        i = i + 1;
    }
    Ok(())
}

/// The rules for an ST 2110-23 output.
pub open spec fn st2110_23_output_fault(c: St2110_23OutputConfig) -> Option<Seq<char>> {
    fields::id_fault(c.id@, "ST 2110-23 output"@).otherwise(
        fields::name_fault(c.name@, "ST 2110-23 output"@),
    ).otherwise(
        error::check(
            c.sub_streams.len() < 2 || c.sub_streams.len() > 16,
            "ST 2110-23 output '"@ + c.id@ + "': sub_streams must have 2..=16 entries, got "@
                + text::dec(c.sub_streams@.len()),
        ),
    ).otherwise(
        sub_stream_dests_fault(c.sub_streams, "ST 2110-23 output '"@ + c.id@ + "'"@),
    ).otherwise(
        fields::video_dims_fault(
            c.width,
            c.height,
            c.frame_rate_num,
            c.frame_rate_den,
            "ST 2110-23 output '"@ + c.id@ + "'"@,
        ),
    ).otherwise(
        fields::clock_domain_fault(c.clock_domain, "ST 2110-23 output '"@ + c.id@ + "'"@),
    ).otherwise(
        error::check(
            c.dscp > 63,
            "ST 2110-23 output '"@ + c.id@ + "': DSCP must be 0-63, got "@
                + text::dec(c.dscp as nat),
        ),
    ).otherwise(
        fields::payload_budget_fault(c.payload_budget, "ST 2110-23 output '"@ + c.id@ + "'"@),
    )
}

/// Checks an ST 2110-23 output.
pub fn validate_st2110_23_output(c: &St2110_23OutputConfig) -> (r: Result<(), ConfigError>)
    ensures
        error::is_outcome(r, st2110_23_output_fault(*c)),
{
    validate_id(c.id.as_str(), "ST 2110-23 output")?;
    validate_name(c.name.as_str(), "ST 2110-23 output")?;
    if c.sub_streams.len() < 2 || c.sub_streams.len() > 16 {
        return fail(text::cat4(
            "ST 2110-23 output '",
            c.id.as_str(),
            "': sub_streams must have 2..=16 entries, got ",
            text::dec_string(c.sub_streams.len() as u64).as_str(),
        ));
    }
    validate_sub_stream_dests(
        &c.sub_streams,
        text::cat3("ST 2110-23 output '", c.id.as_str(), "'").as_str(),
    )?;
    validate_video_dims(
        c.width,
        c.height,
        c.frame_rate_num,
        c.frame_rate_den,
        text::cat3("ST 2110-23 output '", c.id.as_str(), "'").as_str(),
    )?;
    validate_clock_domain(
        c.clock_domain,
        text::cat3("ST 2110-23 output '", c.id.as_str(), "'").as_str(),
    )?;
    if c.dscp > 63 {
        return fail(text::cat4(
            "ST 2110-23 output '",
            c.id.as_str(),
            "': DSCP must be 0-63, got ",
            text::dec_string(c.dscp as u64).as_str(),
        ));
    }
    validate_payload_budget(
        c.payload_budget,
        text::cat3("ST 2110-23 output '", c.id.as_str(), "'").as_str(),
    )?;
    Ok(())
}

/// The rules for a generic RTP audio input: like ST 2110-30, with more
/// sample rates and without a clock domain.
pub open spec fn rtp_audio_input_fault(c: RtpAudioInputConfig) -> Option<Seq<char>> {
    fields::socket_addr_fault(c.bind_addr@, "rtp_audio input bind_addr"@).otherwise(
        error::when(
            c.interface_addr is Some,
            fields::ip_addr_fault(c.interface_addr->0@, "rtp_audio input interface_addr"@),
        ),
    ).otherwise(
        fields::rtp_audio_params_fault(
            c.sample_rate,
            c.bit_depth,
            c.channels,
            c.packet_time_us,
            "rtp_audio input"@,
        ),
    ).otherwise(
        fields::payload_type_fault(c.payload_type, "rtp_audio input"@),
    ).otherwise(
        fields::sources_fault(c.allowed_sources, "rtp_audio input allowed_sources"@),
    ).otherwise(
        error::when(
            c.redundancy is Some,
            fields::red_blue_fault(c.redundancy->0, c.bind_addr@, "rtp_audio input redundancy"@),
        ),
    )
}

/// Checks a generic RTP audio input: like ST 2110-30, with more sample rates and without a
/// clock domain.
pub fn validate_rtp_audio_input(c: &RtpAudioInputConfig) -> (r: Result<(), ConfigError>)
    ensures
        error::is_outcome(r, rtp_audio_input_fault(*c)),
{
    validate_socket_addr(c.bind_addr.as_str(), "rtp_audio input bind_addr")?;
    if let Some(iface) = &c.interface_addr {
        validate_ip_addr(iface.as_str(), "rtp_audio input interface_addr")?;
    }
    validate_rtp_audio_params(
        c.sample_rate,
        c.bit_depth,
        c.channels,
        c.packet_time_us,
        "rtp_audio input",
    )?;
    validate_rtp_payload_type(c.payload_type, "rtp_audio input")?;
    validate_sources(&c.allowed_sources, "rtp_audio input allowed_sources")?;
    if let Some(red) = &c.redundancy {
        validate_red_blue_bind(red, c.bind_addr.as_str(), "rtp_audio input redundancy")?;
    }
    Ok(())
}

/// The rules for a generic RTP audio output.
pub open spec fn rtp_audio_output_fault(
    c: RtpAudioOutputConfig,
    upstream_audio: Option<(u32, u8, u8)>,
) -> Option<Seq<char>> {
    fields::id_fault(c.id@, "rtp_audio output"@).otherwise(
        fields::name_fault(c.name@, "rtp_audio output"@),
    ).otherwise(
        fields::socket_addr_fault(c.dest_addr@, "rtp_audio output '"@ + c.id@ + "' dest_addr"@),
    ).otherwise(
        error::when(
            c.bind_addr is Some,
            fields::socket_addr_fault(
                c.bind_addr->0@,
                "rtp_audio output '"@ + c.id@ + "' bind_addr"@,
            ),
        ),
    ).otherwise(
        error::when(
            c.interface_addr is Some,
            fields::ip_addr_fault(
                c.interface_addr->0@,
                "rtp_audio output '"@ + c.id@ + "' interface_addr"@,
            ),
        ),
    ).otherwise(
        fields::rtp_audio_params_fault(
            c.sample_rate,
            c.bit_depth,
            c.channels,
            c.packet_time_us,
            "rtp_audio output '"@ + c.id@ + "'"@,
        ),
    ).otherwise(
        fields::payload_type_fault(c.payload_type, "rtp_audio output '"@ + c.id@ + "'"@),
    ).otherwise(
        error::check(
            c.dscp > 63,
            "rtp_audio output '"@ + c.id@ + "': DSCP must be 0-63, got "@
                + text::dec(c.dscp as nat),
        ),
    ).otherwise(
        error::when(
            c.redundancy is Some,
            fields::red_blue_fault(
                c.redundancy->0,
                c.dest_addr@,
                "rtp_audio output '"@ + c.id@ + "' redundancy"@,
            ),
        ),
    ).otherwise(
        error::when(
            c.transcode is Some,
            encode::transcode_fault(
                c.transcode->0,
                upstream_or(upstream_audio, c.sample_rate, c.bit_depth, c.channels).0,
                upstream_or(upstream_audio, c.sample_rate, c.bit_depth, c.channels).1,
                upstream_or(upstream_audio, c.sample_rate, c.bit_depth, c.channels).2,
                "rtp_audio output '"@ + c.id@ + "' transcode"@,
            ),
        ),
    ).otherwise(
        error::check(
            c.transport_mode is Some && !(c.transport_mode->0@ == "rtp"@
                || c.transport_mode->0@ == "audio_302m"@),
            "rtp_audio output '"@ + c.id@
                + "': transport_mode must be 'rtp' or 'audio_302m', got '"@ + c.transport_mode->0@
                + "'"@,
        ),
    )
}

/// Checks a generic RTP audio output.
pub fn validate_rtp_audio_output(
    c: &RtpAudioOutputConfig,
    upstream_audio: Option<(u32, u8, u8)>,
) -> (r: Result<(), ConfigError>)
    ensures
        error::is_outcome(r, rtp_audio_output_fault(*c, upstream_audio)),
{
    validate_id(c.id.as_str(), "rtp_audio output")?;
    validate_name(c.name.as_str(), "rtp_audio output")?;
    validate_socket_addr(
        c.dest_addr.as_str(),
        text::cat3("rtp_audio output '", c.id.as_str(), "' dest_addr").as_str(),
    )?;
    if let Some(bind) = &c.bind_addr {
        validate_socket_addr(
            bind.as_str(),
            text::cat3("rtp_audio output '", c.id.as_str(), "' bind_addr").as_str(),
        )?;
    }
    if let Some(iface) = &c.interface_addr {
        validate_ip_addr(
            iface.as_str(),
            text::cat3("rtp_audio output '", c.id.as_str(), "' interface_addr").as_str(),
        )?;
    }
    validate_rtp_audio_params(
        c.sample_rate,
        c.bit_depth,
        c.channels,
        c.packet_time_us,
        text::cat3("rtp_audio output '", c.id.as_str(), "'").as_str(),
    )?;
    validate_rtp_payload_type(
        c.payload_type,
        text::cat3("rtp_audio output '", c.id.as_str(), "'").as_str(),
    )?;
    if c.dscp > 63 {
        return fail(text::cat4(
            "rtp_audio output '",
            c.id.as_str(),
            "': DSCP must be 0-63, got ",
            text::dec_string(c.dscp as u64).as_str(),
        ));
    }
    if let Some(red) = &c.redundancy {
        validate_red_blue_bind(
            red,
            c.dest_addr.as_str(),
            text::cat3("rtp_audio output '", c.id.as_str(), "' redundancy").as_str(),
        )?;
    }
    if let Some(tj) = &c.transcode {
        let (in_sr, in_bd, in_ch) = match upstream_audio {
            Some(shape) => shape,
            None => (c.sample_rate, c.bit_depth, c.channels),
        };
        validate_transcode_block(
            tj,
            in_sr,
            in_bd,
            in_ch,
            text::cat3("rtp_audio output '", c.id.as_str(), "' transcode").as_str(),
        )?;
    }
    if let Some(tm) = &c.transport_mode {
        if !(text::str_eq(tm.as_str(), "rtp") || text::str_eq(tm.as_str(), "audio_302m")) {
            return fail(text::cat5(
                "rtp_audio output '",
                c.id.as_str(),
                "': transport_mode must be 'rtp' or 'audio_302m', got '",
                tm.as_str(),
                "'",
            ));
        }
    }
    Ok(())
}

} // verus!
