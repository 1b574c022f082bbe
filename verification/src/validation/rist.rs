//! Checks of RIST inputs and outputs.

use vstd::prelude::*;

use crate::addr;
use crate::addr::parse_socket;
use crate::error;
use crate::error::{fail, Checks, ConfigError};
use crate::models::{RistInputConfig, RistOutputConfig};
use crate::text;
use crate::validation::encode;
use crate::validation::encode::{validate_audio_encode, validate_video_encode};
use crate::validation::fields;
use crate::validation::fields::{
    differ_in_family, validate_id, validate_name, validate_output_group, validate_program_number,
    validate_socket_addr,
};

verus! {

/// The rules for a RIST address: RTP takes the even port, and RTCP the next
/// one.
pub open spec fn rist_addr_fault(addr: Seq<char>, context: Seq<char>) -> Option<Seq<char>> {
    fields::socket_addr_fault(addr, context).otherwise(
        error::check(
            addr::socket_of(addr)->0.port % 2 != 0,
            context + ": RIST port must be even (RTCP binds on port+1), got "@ + text::dec(
                addr::socket_of(addr)->0.port as nat,
            ),
        ),
    )
}

/// Checks a RIST address: RTP takes the even port, and RTCP the next one.
pub fn validate_rist_addr(addr: &str, context: &str) -> (r: Result<(), ConfigError>)
    ensures
        error::is_outcome(r, rist_addr_fault(addr@, context@)),
{
    validate_socket_addr(addr, context)?;
    if let Some(sa) = parse_socket(addr) {
        if sa.port != 0 && sa.port % 2 != 0 {
            return fail(
                text::cat3(
                    context,
                    ": RIST port must be even (RTCP binds on port+1), got ",
                    text::dec_string(sa.port as u64).as_str(),
                ),
            );
        }
    }
    Ok(())
}

/// The rules for the settings that RIST inputs and outputs share.
pub open spec fn rist_knobs_fault(
    buffer_ms: Option<u32>,
    max_nack_retries: Option<u32>,
    cname: Option<Seq<char>>,
    rtcp_interval_ms: Option<u32>,
    context: Seq<char>,
) -> Option<Seq<char>> {
    error::check(
        buffer_ms is Some && !(50 <= buffer_ms->0 <= 30_000),
        context + ": buffer_ms must be 50-30000, got "@ + text::dec(buffer_ms->0 as nat),
    ).otherwise(
        error::check(
            max_nack_retries is Some && max_nack_retries->0 > 50,
            context + ": max_nack_retries must be ≤ 50, got "@
                + text::dec(max_nack_retries->0 as nat),
        ),
    ).otherwise(
        error::check(
            cname is Some && text::byte_len(cname->0) > 256,
            context + ": cname must be at most 256 characters"@,
        ),
    ).otherwise(
        error::check(
            rtcp_interval_ms is Some && (rtcp_interval_ms->0 == 0 || rtcp_interval_ms->0 > 1000),
            context + ": rtcp_interval_ms must be 1-1000 (TR-06-1 prefers ≤100), got "@
                + text::dec(rtcp_interval_ms->0 as nat),
        ),
    )
}

/// Checks the settings that RIST inputs and outputs share.
pub fn validate_rist_common_knobs(
    buffer_ms: Option<u32>,
    max_nack_retries: Option<u32>,
    cname: Option<&str>,
    rtcp_interval_ms: Option<u32>,
    context: &str,
) -> (r: Result<(), ConfigError>)
    ensures
        error::is_outcome(r, rist_knobs_fault(
            buffer_ms,
            max_nack_retries,
            text::opt_str_view(cname),
            rtcp_interval_ms,
            context@,
        )),
{
    if let Some(b) = buffer_ms {
        if !(50 <= b && b <= 30_000) {
            return fail(text::cat3(
                context,
                ": buffer_ms must be 50-30000, got ",
                text::dec_string(b as u64).as_str(),
            ));
        }
    }
    if let Some(n) = max_nack_retries {
        if n > 50 {
            return fail(text::cat3(
                context,
                ": max_nack_retries must be ≤ 50, got ",
                text::dec_string(n as u64).as_str(),
            ));
        }
    }
    if let Some(cn) = cname {
        if text::byte_count(cn) > 256 {
            return fail(text::cat2(context, ": cname must be at most 256 characters"));
        }
    }
    if let Some(i) = rtcp_interval_ms {
        if i == 0 || i > 1000 {
            return fail(text::cat3(
                context,
                ": rtcp_interval_ms must be 1-1000 (TR-06-1 prefers ≤100), got ",
                text::dec_string(i as u64).as_str(),
            ));
        }
    }
    Ok(())
}

/// The rules for a RIST input.
pub open spec fn rist_input_fault(rist: RistInputConfig) -> Option<Seq<char>> {
    rist_addr_fault(rist.bind_addr@, "RIST input bind_addr"@).otherwise(
        rist_knobs_fault(
            rist.buffer_ms,
            rist.max_nack_retries,
            text::opt_view(rist.cname),
            rist.rtcp_interval_ms,
            "RIST input"@,
        ),
    ).otherwise(
        error::when(
            rist.redundancy is Some,
            rist_addr_fault((rist.redundancy->0).bind_addr@, "RIST input redundancy bind_addr"@).otherwise(
                error::check(
                    (rist.redundancy->0).bind_addr@ == rist.bind_addr@,
                    "RIST input redundancy: leg 2 bind_addr must differ from leg 1"@,
                ),
            ).otherwise(
                error::check(
                    fields::families_differ(rist.bind_addr@, rist.redundancy->0.bind_addr@),
                    "RIST input redundancy: leg 1 and leg 2 must use the same address family"@,
                ),
            ),
        ),
    )
}

/// Checks a RIST input.
pub fn validate_rist_input(rist: &RistInputConfig) -> (r: Result<(), ConfigError>)
    ensures
        error::is_outcome(r, rist_input_fault(*rist)),
{
    validate_rist_addr(rist.bind_addr.as_str(), "RIST input bind_addr")?;
    validate_rist_common_knobs(
        rist.buffer_ms,
        rist.max_nack_retries,
        text::opt_as_str(&rist.cname),
        rist.rtcp_interval_ms,
        "RIST input",
    )?;
    if let Some(red) = &rist.redundancy {
        validate_rist_addr(red.bind_addr.as_str(), "RIST input redundancy bind_addr")?;
        if text::str_eq(red.bind_addr.as_str(), rist.bind_addr.as_str()) {
            return fail("RIST input redundancy: leg 2 bind_addr must differ from leg 1".to_owned());
        }
        if differ_in_family(rist.bind_addr.as_str(), red.bind_addr.as_str()) {
            return fail(
                "RIST input redundancy: leg 1 and leg 2 must use the same address family".to_owned(),
            );
        }
    }
    Ok(())
}

/// The rules for a RIST output.
pub open spec fn rist_output_fault(rist: RistOutputConfig) -> Option<Seq<char>> {
    fields::id_fault(rist.id@, "RIST output"@).otherwise(
        fields::name_fault(rist.name@, "RIST output"@),
    ).otherwise(
        fields::output_group_fault(text::opt_view(rist.group), rist.id@),
    ).otherwise(
        fields::program_number_fault(rist.program_number, "RIST output '"@ + rist.id@ + "'"@),
    ).otherwise(
        rist_addr_fault(rist.remote_addr@, "RIST output '"@ + rist.id@ + "' remote_addr"@),
    ).otherwise(
        error::when(
            rist.local_addr is Some,
            rist_addr_fault(rist.local_addr->0@, "RIST output '"@ + rist.id@ + "' local_addr"@),
        ),
    ).otherwise(
        rist_knobs_fault(
            rist.buffer_ms,
            None,
            text::opt_view(rist.cname),
            rist.rtcp_interval_ms,
            "RIST output '"@ + rist.id@ + "'"@,
        ),
    ).otherwise(
        error::check(
            rist.retransmit_buffer_capacity is Some && (rist.retransmit_buffer_capacity->0 < 64
                || rist.retransmit_buffer_capacity->0 > 65_536),
            "RIST output '"@ + rist.id@ + "': retransmit_buffer_capacity must be 64-65536, got "@
                + text::dec(rist.retransmit_buffer_capacity->0 as nat),
        ),
    ).otherwise(
        error::when(
            rist.redundancy is Some,
            rist_addr_fault(
                (rist.redundancy->0).remote_addr@,
                "RIST output '"@ + rist.id@ + "' redundancy remote_addr"@,
            ).otherwise(
                error::check(
                    (rist.redundancy->0).remote_addr@ == rist.remote_addr@,
                    "RIST output '"@ + rist.id@
                        + "': redundancy leg 2 remote_addr must differ from leg 1"@,
                ),
            ).otherwise(
                error::when(
                    (rist.redundancy->0).local_addr is Some,
                    rist_addr_fault(
                        (rist.redundancy->0).local_addr->0@,
                        "RIST output '"@ + rist.id@ + "' redundancy local_addr"@,
                    ),
                ),
            ).otherwise(
                error::check(
                    fields::families_differ(rist.remote_addr@, rist.redundancy->0.remote_addr@),
                    "RIST output '"@ + rist.id@
                        + "': redundancy leg 1 and leg 2 must use the same address family"@,
                ),
            ),
        ),
    ).otherwise(
        error::when(
            rist.audio_encode is Some,
            error::check(
                rist.redundancy is Some,
                "RIST output '"@ + rist.id@
                    + "': audio_encode is not yet supported with SMPTE 2022-7 redundancy"@,
            ).otherwise(
                encode::audio_encode_fault(
                    rist.audio_encode->0,
                    seq!["aac_lc", "he_aac_v1", "he_aac_v2", "mp2", "ac3"],
                    "RIST output '"@ + rist.id@ + "'"@,
                ),
            ),
        ),
    ).otherwise(
        error::when(
            rist.video_encode is Some,
            error::check(
                rist.redundancy is Some,
                "RIST output '"@ + rist.id@
                    + "': video_encode is not yet supported with SMPTE 2022-7 redundancy"@,
            ).otherwise(
                encode::video_encode_fault(
                    rist.video_encode->0,
                    "RIST output '"@ + rist.id@ + "'"@,
                ),
            ),
        ),
    )
}

/// Checks a RIST output.
pub fn validate_rist_output(rist: &RistOutputConfig) -> (r: Result<(), ConfigError>)
    ensures
        error::is_outcome(r, rist_output_fault(*rist)),
{
    validate_id(rist.id.as_str(), "RIST output")?;
    validate_name(rist.name.as_str(), "RIST output")?;
    validate_output_group(text::opt_as_str(&rist.group), rist.id.as_str())?;
    validate_program_number(
        rist.program_number,
        text::cat3("RIST output '", rist.id.as_str(), "'").as_str(),
    )?;
    validate_rist_addr(
        rist.remote_addr.as_str(),
        text::cat3("RIST output '", rist.id.as_str(), "' remote_addr").as_str(),
    )?;
    if let Some(local) = &rist.local_addr {
        validate_rist_addr(
            local.as_str(),
            text::cat3("RIST output '", rist.id.as_str(), "' local_addr").as_str(),
        )?;
    }
    validate_rist_common_knobs(
        rist.buffer_ms,
        None,
        text::opt_as_str(&rist.cname),
        rist.rtcp_interval_ms,
        text::cat3("RIST output '", rist.id.as_str(), "'").as_str(),
    )?;
    if let Some(cap) = rist.retransmit_buffer_capacity {
        if cap < 64 || cap > 65_536 {
            return fail(text::cat4(
                "RIST output '",
                rist.id.as_str(),
                "': retransmit_buffer_capacity must be 64-65536, got ",
                text::dec_string(cap as u64).as_str(),
            ));
        }
    }
    if let Some(red) = &rist.redundancy {
        validate_rist_addr(
            red.remote_addr.as_str(),
            text::cat3("RIST output '", rist.id.as_str(), "' redundancy remote_addr").as_str(),
        )?;
        if text::str_eq(red.remote_addr.as_str(), rist.remote_addr.as_str()) {
            return fail(text::cat3(
                "RIST output '",
                rist.id.as_str(),
                "': redundancy leg 2 remote_addr must differ from leg 1",
            ));
        }
        if let Some(local) = &red.local_addr {
            validate_rist_addr(
                local.as_str(),
                text::cat3("RIST output '", rist.id.as_str(), "' redundancy local_addr").as_str(),
            )?;
        }
        if differ_in_family(rist.remote_addr.as_str(), red.remote_addr.as_str()) {
            return fail(
                text::cat3(
                    "RIST output '",
                    rist.id.as_str(),
                    "': redundancy leg 1 and leg 2 must use the same address family",
                ),
            );
        }
    }
    if let Some(enc) = &rist.audio_encode {
        if rist.redundancy.is_some() {
            return fail(text::cat3(
                "RIST output '",
                rist.id.as_str(),
                "': audio_encode is not yet supported with SMPTE 2022-7 redundancy",
            ));
        }
        validate_audio_encode(
            enc,
            &["aac_lc", "he_aac_v1", "he_aac_v2", "mp2", "ac3"],
            text::cat3("RIST output '", rist.id.as_str(), "'").as_str(),
        )?;
    }
    if let Some(enc) = &rist.video_encode {
        if rist.redundancy.is_some() {
            return fail(text::cat3(
                "RIST output '",
                rist.id.as_str(),
                "': video_encode is not yet supported with SMPTE 2022-7 redundancy",
            ));
        }
        validate_video_encode(
            enc,
            text::cat3("RIST output '", rist.id.as_str(), "'").as_str(),
        )?;
    }
    Ok(())
}

} // verus!
