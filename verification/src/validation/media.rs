//! Rules on how media is handled: thumbnails and analysis, packet identifiers,
//! pacing and padding, SRT sockets, display and SDI cards, and the master clock
//! of a flow.

use std::collections::BTreeMap;
use vstd::prelude::*;

use crate::binary;
use crate::error;
use crate::error::{fail, Checks, ConfigError};
use crate::lookup;
use crate::lookup::{find_input, find_output};
use crate::models::{
    AppConfig, AudioEncodeConfig, ContentAnalysisConfig, EgressPacingMode, FlowConfig, InputConfig,
    InputDefinition, InterfaceBinding, MasterClockKindConfig, OutputConfig, SrtBondingConfig, SrtMode, SrtRedundancyConfig,
    St2110AudioInputConfig, TsPidOverridesEntry, TsPidOverridesMap, VideoEncodeConfig,
};
use crate::text;
use crate::validation::assembly;
use crate::validation::assembly::{validate_assembly, validate_sequences};
use crate::validation::bonds;
use crate::validation::bonds::{validate_bonded_input, validate_bonded_output};
use crate::validation::bounds;
use crate::validation::bounds::{validate_master_clock, validate_recording};
use crate::validation::encode;
use crate::validation::encode::{validate_audio_encode, validate_video_encode};
use crate::validation::fields;
use crate::validation::fields::validate_program_number;

verus! {

// ---------------------------------------------------------------------------
// Flows
// ---------------------------------------------------------------------------

/// The rules for the content analysis of a flow: the video sample rate, where
/// it is set, is positive and at most 30 Hz.
pub open spec fn analysis_fault(analysis: ContentAnalysisConfig, flow_id: Seq<char>) -> Option<
    Seq<char>,
> {
    error::check(
        analysis.video_full_hz is Some && !(0 < analysis.video_full_hz->0.bits
            <= binary::THIRTY_SINGLE),
        "Flow '"@ + flow_id
            + "': content_analysis video_full_hz must be greater than 0 and at most 30"@,
    )
}

/// Checks the content analysis of a flow.
pub fn validate_analysis(
    analysis: &ContentAnalysisConfig,
    flow_id: &str,
) -> (r: Result<(), ConfigError>)
    ensures
        error::is_outcome(r, analysis_fault(*analysis, flow_id@)),
{
    if let Some(hz) = analysis.video_full_hz {
        if !(0 < hz.bits && hz.bits <= binary::THIRTY_SINGLE) {
            return fail(
                text::cat3(
                    "Flow '",
                    flow_id,
                    "': content_analysis video_full_hz must be greater than 0 and at most 30",
                ),
            );
        }
    }
    Ok(())
}

/// The rules for the media settings of a flow on its own.
pub open spec fn flow_media_fault(flow: FlowConfig) -> Option<Seq<char>> {
    error::check(
        flow.thumbnail_interval_secs is Some && !(1 <= flow.thumbnail_interval_secs->0 <= 60),
        "Flow '"@ + flow.id@ + "': thumbnail_interval_secs must be 1-60, got "@ + text::dec(
            flow.thumbnail_interval_secs->0 as nat,
        ),
    ).otherwise(
        error::when(
            flow.content_analysis is Some,
            analysis_fault(flow.content_analysis->0, flow.id@),
        ),
    ).otherwise(
        error::when(flow.assembly is Some, assembly::assembly_fault(flow.assembly->0, flow.input_ids@, flow.id@)),
    ).otherwise(
        error::when(
            flow.master_clock is Some,
            bounds::master_clock_fault(flow.master_clock->0, "Flow '"@ + flow.id@ + "'"@),
        ),
    ).otherwise(
        error::when(
            flow.recording is Some,
            bounds::recording_fault(flow.recording->0, "Flow '"@ + flow.id@ + "'"@),
        ),
    )
}

/// Checks the media settings of a flow on its own.
pub fn validate_flow_media(flow: &FlowConfig) -> (r: Result<(), ConfigError>)
    ensures
        error::is_outcome(r, flow_media_fault(*flow)),
{
    if let Some(secs) = flow.thumbnail_interval_secs {
        if !(1 <= secs && secs <= 60) {
            return fail(
                text::cat4(
                    "Flow '",
                    flow.id.as_str(),
                    "': thumbnail_interval_secs must be 1-60, got ",
                    text::dec_string(secs as u64).as_str(),
                ),
            );
        }
    }
    if let Some(analysis) = &flow.content_analysis {
        validate_analysis(analysis, flow.id.as_str())?;
    }
    if let Some(assembly) = &flow.assembly {
        validate_assembly(assembly, &flow.input_ids, flow.id.as_str())?;
    }
    let context = text::cat3("Flow '", flow.id.as_str(), "'");
    if let Some(clock) = &flow.master_clock {
        validate_master_clock(clock, context.as_str())?;
    }
    if let Some(recording) = &flow.recording {
        validate_recording(recording, context.as_str())?;
    }
    Ok(())
}

// ---------------------------------------------------------------------------
// Packet identifiers
// ---------------------------------------------------------------------------

/// Whether a packet identifier may be assigned: not one of those reserved for
/// tables, nor that of null packets.
pub open spec fn is_assignable(pid: u16) -> bool {
    0x0010 <= pid <= 0x1FFE
}

/// Whether a packet identifier may be assigned, where there is one.
pub open spec fn is_unset_or_assignable(pid: Option<u16>) -> bool {
    pid is Some ==> is_assignable(pid->0)
}

/// Whether a map from packet identifiers to packet identifiers holds only such
/// as may be assigned.
pub open spec fn maps_assignable(m: Map<u16, u16>) -> bool {
    forall|k: u16| #[trigger] m.contains_key(k) ==> is_assignable(k) && is_assignable(m[k])
}

/// Whether the overrides of a program hold only packet identifiers that may be
/// assigned.
pub open spec fn entry_assigns(e: TsPidOverridesEntry) -> bool {
    &&& is_unset_or_assignable(e.pmt_pid)
    &&& is_unset_or_assignable(e.video_pid)
    &&& is_unset_or_assignable(e.audio_pid)
    &&& e.audio_pids is Some ==> maps_assignable(e.audio_pids->0@)
    &&& is_unset_or_assignable(e.pcr_pid)
}

/// Whether the overrides of all programs do.
pub open spec fn all_assign(m: Map<u16, TsPidOverridesEntry>) -> bool {
    forall|k: u16| #[trigger] m.contains_key(k) ==> entry_assigns(m[k])
}

/// See [`is_assignable`].
pub fn assignable(pid: u16) -> (r: bool)
    ensures
        r == is_assignable(pid),
{
    0x0010 <= pid && pid <= 0x1FFE
}

/// Whether a packet identifier may be assigned, where there is one.
pub fn unset_or_assignable(pid: Option<u16>) -> (r: bool)
    ensures
        r == is_unset_or_assignable(pid),
{
    match pid {
        Some(p) => assignable(p),
        None => true,
    }
}

fn is_assignable_map(m: &BTreeMap<u16, u16>) -> (r: bool)
    ensures
        r == maps_assignable(m@),
{
    broadcast use vstd::std_specs::btree::group_btree_axioms;

    for e in it: m.iter()
        invariant
            it.seq() == vstd::std_specs::iter::IteratorSpec::remaining(&m.iter()),
            forall|i: int|
                0 <= i < it.index() ==> is_assignable(*(#[trigger] it.seq()[i]).0)
                    && is_assignable(*it.seq()[i].1),
    {
        if !(assignable(*e.0) && assignable(*e.1)) {
            assert(m@.contains_key(*e.0) && m@[*e.0] == *e.1);
            return false;
        }
    }
    proof {
        let pairs = vstd::std_specs::iter::IteratorSpec::remaining(&m.iter());
        assert forall|k: u16| #[trigger] m@.contains_key(k) implies is_assignable(k)
            && is_assignable(m@[k]) by {
            let i = choose|i: int| 0 <= i < pairs.len() && pairs[i] == (&k, &m@[k]);
            assert(is_assignable(*pairs[i].0));
        }
    }
    true
}

fn is_assigning_entry(e: &TsPidOverridesEntry) -> (r: bool)
    ensures
        r == entry_assigns(*e),
{
    if let Some(m) = &e.audio_pids {
        if !is_assignable_map(m) {
            return false;
        }
    }
    unset_or_assignable(e.pmt_pid) && unset_or_assignable(e.video_pid) && unset_or_assignable(
        e.audio_pid,
    ) && unset_or_assignable(e.pcr_pid)
}

fn is_assigning_map(m: &TsPidOverridesMap) -> (r: bool)
    ensures
        r == all_assign(m@),
{
    broadcast use vstd::std_specs::btree::group_btree_axioms;

    for e in it: m.iter()
        invariant
            it.seq() == vstd::std_specs::iter::IteratorSpec::remaining(&m.iter()),
            forall|i: int|
                0 <= i < it.index() ==> entry_assigns(*(#[trigger] it.seq()[i]).1),
    {
        if !is_assigning_entry(e.1) {
            assert(m@.contains_key(*e.0) && m@[*e.0] == *e.1);
            return false;
        }
    }
    proof {
        let pairs = vstd::std_specs::iter::IteratorSpec::remaining(&m.iter());
        assert forall|k: u16| #[trigger] m@.contains_key(k) implies entry_assigns(m@[k]) by {
            let i = choose|i: int| 0 <= i < pairs.len() && pairs[i] == (&k, &m@[k]);
            assert(entry_assigns(*pairs[i].1));
        }
    }
    true
}

/// A packet identifier map: all identifiers may be assigned.
pub open spec fn pid_map_fault(map: Option<BTreeMap<u16, u16>>, context: Seq<char>) -> Option<
    Seq<char>,
> {
    error::check(
        map is Some && !maps_assignable(map->0@),
        context + ": pid_map PIDs must be 0x0010-0x1FFE"@,
    )
}

/// Checks a packet identifier map.
pub fn validate_pid_map(map: Option<&BTreeMap<u16, u16>>, context: &str) -> (r: Result<
    (),
    ConfigError,
>)
    ensures
        error::is_outcome(
            r,
            pid_map_fault(
                match map {
                    Some(m) => Some(*m),
                    None => None,
                },
                context@,
            ),
        ),
{
    if let Some(m) = map {
        if !is_assignable_map(m) {
            return fail(text::cat2(context, ": pid_map PIDs must be 0x0010-0x1FFE"));
        }
    }
    Ok(())
}

/// Whether a map of overrides is for program 1 alone.
pub open spec fn is_for_program_one(m: Map<u16, TsPidOverridesEntry>) -> bool {
    m.dom() == set![1u16]
}

fn for_program_one(m: &TsPidOverridesMap) -> (r: bool)
    ensures
        r == is_for_program_one(m@),
{
    broadcast use vstd::std_specs::btree::group_btree_axioms;

    let r = m.len() == 1 && m.contains_key(&1);
    proof {
        if r {
            let rest = m@.dom().remove(1);
            assert(rest.len() == 0);
            assert forall|k: u16| m@.dom().contains(k) implies k == 1 by {
                if k != 1 {
                    assert(rest.contains(k));
                    assert(rest.remove(k).len() == rest.len() - 1);
                }
            }
            assert(m@.dom() =~= set![1u16]);
        } else if is_for_program_one(m@) {
            assert(m@.dom().contains(1));
            assert(m@.dom().remove(1) =~= Set::<u16>::empty());
        }
    }
    r
}

/// The rules for the packet identifier overrides of an input or output. A
/// synthetic stream has the one program 1; where `single` holds, only one
/// program can be re-encoded.
pub open spec fn overrides_fault(
    overrides: Option<TsPidOverridesMap>,
    synthetic: bool,
    single: bool,
    context: Seq<char>,
) -> Option<Seq<char>> {
    error::when(
        overrides is Some,
        error::check(
            !all_assign(overrides->0@),
            context + ": pid_overrides PIDs must be 0x0010-0x1FFE"@,
        ).otherwise(
            error::check(
                synthetic && !is_for_program_one(overrides->0@),
                context + ": pid_overrides must hold exactly one entry, for program 1"@,
            ),
        ).otherwise(
            error::check(
                single && overrides->0@.len() > 1,
                context
                    + ": pid_overrides for more than one program cannot be combined with audio_encode or video_encode"@,
            ),
        ),
    )
}

/// Checks the packet identifier overrides of an input or output.
pub fn validate_overrides(
    overrides: Option<&TsPidOverridesMap>,
    synthetic: bool,
    single: bool,
    context: &str,
) -> (r: Result<(), ConfigError>)
    ensures
        error::is_outcome(
            r,
            overrides_fault(
                match overrides {
                    Some(m) => Some(*m),
                    None => None,
                },
                synthetic,
                single,
                context@,
            ),
        ),
{
    broadcast use vstd::std_specs::btree::group_btree_axioms;

    if let Some(m) = overrides {
        if !is_assigning_map(m) {
            return fail(text::cat2(context, ": pid_overrides PIDs must be 0x0010-0x1FFE"));
        }
        if synthetic && !for_program_one(m) {
            return fail(
                text::cat2(context, ": pid_overrides must hold exactly one entry, for program 1"),
            );
        }
        if single && m.len() > 1 {
            return fail(
                text::cat2(
                    context,
                    ": pid_overrides for more than one program cannot be combined with audio_encode or video_encode",
                ),
            );
        }
    }
    Ok(())
}

// ---------------------------------------------------------------------------
// Pacing and padding
// ---------------------------------------------------------------------------

/// The rules for the de-jitter buffer of an output: it goes with the servo,
/// and holds 20 to 2000 ms.
pub open spec fn egress_buffer_fault(
    buffer_ms: Option<u32>,
    pacing: Option<EgressPacingMode>,
    context: Seq<char>,
) -> Option<Seq<char>> {
    error::when(
        buffer_ms is Some,
        error::check(
            pacing != Some(EgressPacingMode::Servo),
            context + ": egress_buffer_ms requires egress_pacing 'servo'"@,
        ).otherwise(
            error::check(
                !(20 <= buffer_ms->0 <= 2000),
                context + ": egress_buffer_ms must be 20-2000, got "@ + text::dec(
                    buffer_ms->0 as nat,
                ),
            ),
        ),
    )
}

/// Checks the de-jitter buffer of an output.
pub fn validate_egress_buffer(
    buffer_ms: Option<u32>,
    pacing: Option<EgressPacingMode>,
    context: &str,
) -> (r: Result<(), ConfigError>)
    ensures
        error::is_outcome(r, egress_buffer_fault(buffer_ms, pacing, context@)),
{
    if let Some(ms) = buffer_ms {
        let servo = match pacing {
            Some(EgressPacingMode::Servo) => true,
            _ => false,
        };
        if !servo {
            return fail(text::cat2(context, ": egress_buffer_ms requires egress_pacing 'servo'"));
        }
        if !(20 <= ms && ms <= 2000) {
            return fail(
                text::cat3(
                    context,
                    ": egress_buffer_ms must be 20-2000, got ",
                    text::dec_string(ms as u64).as_str(),
                ),
            );
        }
    }
    Ok(())
}

/// The bitrate that an output declares for what it encodes.
pub open spec fn declared_kbps(
    audio: Option<AudioEncodeConfig>,
    video: Option<VideoEncodeConfig>,
) -> nat {
    let a = match audio {
        Some(enc) => if enc.bitrate_kbps is Some {
            enc.bitrate_kbps->0 as nat
        } else {
            0
        },
        None => 0,
    };
    let v = match video {
        Some(enc) => if enc.bitrate_kbps is Some {
            enc.bitrate_kbps->0 as nat
        } else {
            0
        },
        None => 0,
    };
    a + v
}

fn sum_declared_kbps(
    audio: &Option<AudioEncodeConfig>,
    video: &Option<VideoEncodeConfig>,
) -> (r: u64)
    ensures
        r == declared_kbps(*audio, *video),
        r <= 2 * u32::MAX,
{
    let a: u32 = match audio {
        Some(enc) => match enc.bitrate_kbps {
            Some(b) => b,
            None => 0,
        },
        None => 0,
    };
    let v: u32 = match video {
        Some(enc) => match enc.bitrate_kbps {
            Some(b) => b,
            None => 0,
        },
        None => 0,
    };
    a as u64 + v as u64
}

/// The rules for padding an output to a constant bitrate: 1 Mbps to 1 Gbps,
/// and at least 5 % above what the output declares to encode.
pub open spec fn padding_fault(
    pad_kbps: Option<u32>,
    declared: nat,
    context: Seq<char>,
) -> Option<Seq<char>> {
    error::when(
        pad_kbps is Some,
        error::check(
            !(1000 <= pad_kbps->0 <= 1_000_000),
            context + ": cbr_pad_to_kbps must be 1000-1000000, got "@ + text::dec(
                pad_kbps->0 as nat,
            ),
        ).otherwise(
            error::check(
                100 * pad_kbps->0 < 105 * declared,
                context + ": cbr_pad_to_kbps must be at least 5% above the encoded bitrate ("@
                    + text::dec(declared) + " kbps), got "@ + text::dec(pad_kbps->0 as nat),
            ),
        ),
    )
}

/// Checks the padding of an output that encodes `audio` and `video`.
pub fn validate_padding(
    pad_kbps: Option<u32>,
    audio: &Option<AudioEncodeConfig>,
    video: &Option<VideoEncodeConfig>,
    context: &str,
) -> (r: Result<(), ConfigError>)
    ensures
        error::is_outcome(r, padding_fault(pad_kbps, declared_kbps(*audio, *video), context@)),
{
    if let Some(kbps) = pad_kbps {
        if !(1000 <= kbps && kbps <= 1_000_000) {
            return fail(
                text::cat3(
                    context,
                    ": cbr_pad_to_kbps must be 1000-1000000, got ",
                    text::dec_string(kbps as u64).as_str(),
                ),
            );
        }
        let declared: u64 = sum_declared_kbps(audio, video);
        if 100 * (kbps as u64) < 105 * declared {
            return fail(
                text::cat5(
                    context,
                    ": cbr_pad_to_kbps must be at least 5% above the encoded bitrate (",
                    text::dec_string(declared).as_str(),
                    " kbps), got ",
                    text::dec_string(kbps as u64).as_str(),
                ),
            );
        }
    }
    Ok(())
}

// ---------------------------------------------------------------------------
// SRT sockets
// ---------------------------------------------------------------------------

/// Whether a socket is pinned to its interface in strict mode.
pub open spec fn is_strict(binding: Option<InterfaceBinding>) -> bool {
    binding is Some && binding->0.strict
}

fn strict(binding: &Option<InterfaceBinding>) -> (r: bool)
    ensures
        r == is_strict(*binding),
{
    match binding {
        Some(b) => b.strict,
        None => false,
    }
}

/// Whether a member of an SRT bonding group is pinned in strict mode.
pub open spec fn has_strict_member(bonding: Option<SrtBondingConfig>) -> bool {
    bonding is Some && exists|i: int|
        0 <= i < bonding->0.endpoints@.len() && is_strict(
            (#[trigger] bonding->0.endpoints@[i]).interface_binding,
        )
}

fn strict_member(bonding: &Option<SrtBondingConfig>) -> (r: bool)
    ensures
        r == has_strict_member(*bonding),
{
    if let Some(b) = bonding {
        let mut i: usize = 0;
        while i < b.endpoints.len()
            invariant
                i <= b.endpoints@.len(),
                *bonding == Some(*b),
                forall|j: int|
                    0 <= j < i ==> !is_strict((#[trigger] b.endpoints@[j]).interface_binding),
            decreases b.endpoints.len() - i,
        {
            if strict(&b.endpoints[i].interface_binding) {
                assert(is_strict(b.endpoints@[i as int].interface_binding));
                return true;
            }
            i = i + 1;
        }
    }
    false
}

/// Whether the second leg is pinned in strict mode.
pub open spec fn has_strict_leg(redundancy: Option<SrtRedundancyConfig>) -> bool {
    redundancy is Some && is_strict(redundancy->0.interface_binding)
}

/// The rules for the sockets of an SRT input or output: a caller does not
/// connect to the address that it is bound to, and no socket is pinned in
/// strict mode.
pub open spec fn srt_sockets_fault(
    mode: SrtMode,
    local_addr: Option<String>,
    remote_addr: Option<String>,
    pinned_strictly: bool,
    context: Seq<char>,
) -> Option<Seq<char>> {
    error::check(
        mode is Caller && local_addr is Some && remote_addr is Some && local_addr->0@
            == remote_addr->0@,
        context + ": local_addr must differ from remote_addr in caller mode"@,
    ).otherwise(
        error::check(
            pinned_strictly,
            context + ": strict interface_binding is not supported on SRT"@,
        ),
    )
}

/// Checks the sockets of an SRT input or output.
pub fn validate_srt_sockets(
    mode: SrtMode,
    local_addr: &Option<String>,
    remote_addr: &Option<String>,
    binding: &Option<InterfaceBinding>,
    redundancy: &Option<SrtRedundancyConfig>,
    bonding: &Option<SrtBondingConfig>,
    context: &str,
) -> (r: Result<(), ConfigError>)
    ensures
        error::is_outcome(
            r,
            srt_sockets_fault(
                mode,
                *local_addr,
                *remote_addr,
                is_strict(*binding) || has_strict_leg(*redundancy) || has_strict_member(*bonding),
                context@,
            ),
        ),
{
    if let SrtMode::Caller = mode {
        if let Some(local) = local_addr {
            if let Some(remote) = remote_addr {
                if text::str_eq(local.as_str(), remote.as_str()) {
                    return fail(
                        text::cat2(
                            context,
                            ": local_addr must differ from remote_addr in caller mode",
                        ),
                    );
                }
            }
        }
    }
    let strict_leg = match redundancy {
        Some(red) => strict(&red.interface_binding),
        None => false,
    };
    if strict(binding) || strict_leg || strict_member(bonding) {
        return fail(text::cat2(context, ": strict interface_binding is not supported on SRT"));
    }
    Ok(())
}

// ---------------------------------------------------------------------------
// Display connectors
// ---------------------------------------------------------------------------

/// Whether a text names a display connector: up to 64 capital letters, digits
/// and hyphens, the first a letter.
pub open spec fn is_connector(s: Seq<char>) -> bool {
    &&& 1 <= s.len() <= 64
    &&& 'A' <= s[0] <= 'Z'
    &&& forall|i: int|
        0 <= i < s.len() ==> 'A' <= #[trigger] s[i] <= 'Z' || '0' <= s[i] <= '9' || s[i] == '-'
}

fn names_connector(s: &str) -> (r: bool)
    ensures
        r == is_connector(s@),
{
    let n: usize = s.unicode_len();
    if !(1 <= n && n <= 64) {
        return false;
    }
    let first: u32 = s.get_char(0) as u32;
    if !(0x41 <= first && first <= 0x5A) {
        return false;
    }
    let mut i: usize = 0;
    while i < n
        invariant
            n == s@.len(),
            i <= n,
            forall|j: int|
                0 <= j < i ==> 'A' <= #[trigger] s@[j] <= 'Z' || '0' <= s@[j] <= '9' || s@[j]
                    == '-',
        decreases n - i,
    {
        let c: u32 = s.get_char(i) as u32;
        if !((0x41 <= c && c <= 0x5A) || (0x30 <= c && c <= 0x39) || c == 0x2D) {
            assert(!('A' <= s@[i as int] <= 'Z' || '0' <= s@[i as int] <= '9' || s@[i as int]
                == '-'));
            return false;
        }
        i = i + 1;
    }
    true
}

// ---------------------------------------------------------------------------
// Inputs
// ---------------------------------------------------------------------------

/// The packet identifier overrides of an input.
pub open spec fn input_overrides(input: InputConfig) -> Option<TsPidOverridesMap> {
    match input {
        InputConfig::Rtp(c) => c.pid_overrides,
        InputConfig::Udp(c) => c.pid_overrides,
        InputConfig::Srt(c) => c.pid_overrides,
        InputConfig::Rist(c) => c.pid_overrides,
        InputConfig::Rtmp(c) => c.pid_overrides,
        InputConfig::Rtsp(c) => c.pid_overrides,
        InputConfig::Webrtc(c) => c.pid_overrides,
        InputConfig::Whep(c) => c.pid_overrides,
        InputConfig::St2110_30(c) => c.pid_overrides,
        InputConfig::St2110_31(c) => c.pid_overrides,
        InputConfig::St2110_20(c) => c.pid_overrides,
        InputConfig::St2110_23(c) => c.pid_overrides,
        InputConfig::RtpAudio(c) => c.pid_overrides,
        InputConfig::TestPattern(c) => c.pid_overrides,
        InputConfig::MediaPlayer(c) => c.pid_overrides,
        InputConfig::Replay(c) => c.pid_overrides,
        InputConfig::MxlVideo(c) => c.pid_overrides,
        InputConfig::MxlAudio(c) => c.pid_overrides,
        InputConfig::Sdi(c) => c.pid_overrides,
        InputConfig::St2110_40(_) | InputConfig::Bonded(_) | InputConfig::MxlAnc(_) => None,
    }
}

fn overrides_of_input(input: &InputConfig) -> (r: Option<&TsPidOverridesMap>)
    ensures
        input_overrides(*input) == match r {
            Some(m) => Some(*m),
            None => None,
        },
{
    match input {
        InputConfig::Rtp(c) => c.pid_overrides.as_ref(),
        InputConfig::Udp(c) => c.pid_overrides.as_ref(),
        InputConfig::Srt(c) => c.pid_overrides.as_ref(),
        InputConfig::Rist(c) => c.pid_overrides.as_ref(),
        InputConfig::Rtmp(c) => c.pid_overrides.as_ref(),
        InputConfig::Rtsp(c) => c.pid_overrides.as_ref(),
        InputConfig::Webrtc(c) => c.pid_overrides.as_ref(),
        InputConfig::Whep(c) => c.pid_overrides.as_ref(),
        InputConfig::St2110_30(c) => c.pid_overrides.as_ref(),
        InputConfig::St2110_31(c) => c.pid_overrides.as_ref(),
        InputConfig::St2110_20(c) => c.pid_overrides.as_ref(),
        InputConfig::St2110_23(c) => c.pid_overrides.as_ref(),
        InputConfig::RtpAudio(c) => c.pid_overrides.as_ref(),
        InputConfig::TestPattern(c) => c.pid_overrides.as_ref(),
        InputConfig::MediaPlayer(c) => c.pid_overrides.as_ref(),
        InputConfig::Replay(c) => c.pid_overrides.as_ref(),
        InputConfig::MxlVideo(c) => c.pid_overrides.as_ref(),
        InputConfig::MxlAudio(c) => c.pid_overrides.as_ref(),
        InputConfig::Sdi(c) => c.pid_overrides.as_ref(),
        InputConfig::St2110_40(_) | InputConfig::Bonded(_) | InputConfig::MxlAnc(_) => None,
    }
}

/// Whether the transport stream of an input is made by the node itself, with
/// the one program 1. Uncompressed audio becomes a stream where it is encoded.
pub open spec fn is_synthetic(input: InputConfig) -> bool {
    match input {
        InputConfig::Rtmp(_)
        | InputConfig::Rtsp(_)
        | InputConfig::Webrtc(_)
        | InputConfig::Whep(_)
        | InputConfig::St2110_20(_)
        | InputConfig::St2110_23(_)
        | InputConfig::TestPattern(_)
        | InputConfig::MediaPlayer(_)
        | InputConfig::Replay(_)
        | InputConfig::MxlVideo(_)
        | InputConfig::Sdi(_) => true,
        InputConfig::St2110_30(c) | InputConfig::St2110_31(c) => c.audio_encode is Some,
        InputConfig::RtpAudio(c) => c.audio_encode is Some,
        InputConfig::MxlAudio(c) => c.audio_encode is Some,
        _ => false,
    }
}

fn synthetic(input: &InputConfig) -> (r: bool)
    ensures
        r == is_synthetic(*input),
{
    match input {
        InputConfig::Rtmp(_)
        | InputConfig::Rtsp(_)
        | InputConfig::Webrtc(_)
        | InputConfig::Whep(_)
        | InputConfig::St2110_20(_)
        | InputConfig::St2110_23(_)
        | InputConfig::TestPattern(_)
        | InputConfig::MediaPlayer(_)
        | InputConfig::Replay(_)
        | InputConfig::MxlVideo(_)
        | InputConfig::Sdi(_) => true,
        InputConfig::St2110_30(c) | InputConfig::St2110_31(c) => c.audio_encode.is_some(),
        InputConfig::RtpAudio(c) => c.audio_encode.is_some(),
        InputConfig::MxlAudio(c) => c.audio_encode.is_some(),
        _ => false,
    }
}

/// The program that an input selects.
pub open spec fn input_program(input: InputConfig) -> Option<u16> {
    match input {
        InputConfig::Rtp(c) => c.program_number,
        InputConfig::Udp(c) => c.program_number,
        InputConfig::Srt(c) => c.program_number,
        InputConfig::Rist(c) => c.program_number,
        InputConfig::Rtmp(c) => c.program_number,
        InputConfig::Rtsp(c) => c.program_number,
        InputConfig::Webrtc(c) => c.program_number,
        InputConfig::Whep(c) => c.program_number,
        InputConfig::TestPattern(c) => c.program_number,
        InputConfig::MediaPlayer(c) => c.program_number,
        InputConfig::Replay(c) => c.program_number,
        _ => None,
    }
}

fn program_of_input(input: &InputConfig) -> (r: Option<u16>)
    ensures
        r == input_program(*input),
{
    match input {
        InputConfig::Rtp(c) => c.program_number,
        InputConfig::Udp(c) => c.program_number,
        InputConfig::Srt(c) => c.program_number,
        InputConfig::Rist(c) => c.program_number,
        InputConfig::Rtmp(c) => c.program_number,
        InputConfig::Rtsp(c) => c.program_number,
        InputConfig::Webrtc(c) => c.program_number,
        InputConfig::Whep(c) => c.program_number,
        InputConfig::TestPattern(c) => c.program_number,
        InputConfig::MediaPlayer(c) => c.program_number,
        InputConfig::Replay(c) => c.program_number,
        _ => None,
    }
}

/// The packet identifier map of an input.
pub open spec fn input_pid_map(input: InputConfig) -> Option<BTreeMap<u16, u16>> {
    match input {
        InputConfig::Rtp(c) => c.pid_map,
        InputConfig::Udp(c) => c.pid_map,
        InputConfig::Srt(c) => c.pid_map,
        InputConfig::Rist(c) => c.pid_map,
        InputConfig::Rtmp(c) => c.pid_map,
        InputConfig::Rtsp(c) => c.pid_map,
        InputConfig::Webrtc(c) => c.pid_map,
        InputConfig::Whep(c) => c.pid_map,
        InputConfig::TestPattern(c) => c.pid_map,
        InputConfig::MediaPlayer(c) => c.pid_map,
        InputConfig::Replay(c) => c.pid_map,
        _ => None,
    }
}

fn pid_map_of_input(input: &InputConfig) -> (r: Option<&BTreeMap<u16, u16>>)
    ensures
        input_pid_map(*input) == match r {
            Some(m) => Some(*m),
            None => None,
        },
{
    match input {
        InputConfig::Rtp(c) => c.pid_map.as_ref(),
        InputConfig::Udp(c) => c.pid_map.as_ref(),
        InputConfig::Srt(c) => c.pid_map.as_ref(),
        InputConfig::Rist(c) => c.pid_map.as_ref(),
        InputConfig::Rtmp(c) => c.pid_map.as_ref(),
        InputConfig::Rtsp(c) => c.pid_map.as_ref(),
        InputConfig::Webrtc(c) => c.pid_map.as_ref(),
        InputConfig::Whep(c) => c.pid_map.as_ref(),
        InputConfig::TestPattern(c) => c.pid_map.as_ref(),
        InputConfig::MediaPlayer(c) => c.pid_map.as_ref(),
        InputConfig::Replay(c) => c.pid_map.as_ref(),
        _ => None,
    }
}

/// The video encoding of an input. That of ST 2110 video belongs to the rules
/// of its protocol.
pub open spec fn input_video(input: InputConfig) -> Option<VideoEncodeConfig> {
    match input {
        InputConfig::Rtp(c) => c.video_encode,
        InputConfig::Udp(c) => c.video_encode,
        InputConfig::Srt(c) => c.video_encode,
        InputConfig::Rist(c) => c.video_encode,
        InputConfig::Rtmp(c) => c.video_encode,
        InputConfig::Rtsp(c) => c.video_encode,
        InputConfig::Webrtc(c) => c.video_encode,
        InputConfig::Whep(c) => c.video_encode,
        InputConfig::TestPattern(c) => c.video_encode,
        InputConfig::MediaPlayer(c) => c.video_encode,
        InputConfig::Replay(c) => c.video_encode,
        InputConfig::MxlVideo(c) => Some(c.video_encode),
        InputConfig::Sdi(c) => Some(c.video_encode),
        _ => None,
    }
}

fn video_of_input(input: &InputConfig) -> (r: Option<&VideoEncodeConfig>)
    ensures
        input_video(*input) == match r {
            Some(v) => Some(*v),
            None => None,
        },
{
    match input {
        InputConfig::Rtp(c) => c.video_encode.as_ref(),
        InputConfig::Udp(c) => c.video_encode.as_ref(),
        InputConfig::Srt(c) => c.video_encode.as_ref(),
        InputConfig::Rist(c) => c.video_encode.as_ref(),
        InputConfig::Rtmp(c) => c.video_encode.as_ref(),
        InputConfig::Rtsp(c) => c.video_encode.as_ref(),
        InputConfig::Webrtc(c) => c.video_encode.as_ref(),
        InputConfig::Whep(c) => c.video_encode.as_ref(),
        InputConfig::TestPattern(c) => c.video_encode.as_ref(),
        InputConfig::MediaPlayer(c) => c.video_encode.as_ref(),
        InputConfig::Replay(c) => c.video_encode.as_ref(),
        InputConfig::MxlVideo(c) => Some(&c.video_encode),
        InputConfig::Sdi(c) => Some(&c.video_encode),
        _ => None,
    }
}

/// The audio encoding of an input. AES3 audio has rules of its own.
pub open spec fn input_audio(input: InputConfig) -> Option<AudioEncodeConfig> {
    match input {
        InputConfig::Rtp(c) => c.audio_encode,
        InputConfig::Udp(c) => c.audio_encode,
        InputConfig::Srt(c) => c.audio_encode,
        InputConfig::Rist(c) => c.audio_encode,
        InputConfig::Rtmp(c) => c.audio_encode,
        InputConfig::Rtsp(c) => c.audio_encode,
        InputConfig::Webrtc(c) => c.audio_encode,
        InputConfig::Whep(c) => c.audio_encode,
        InputConfig::TestPattern(c) => c.audio_encode,
        InputConfig::MediaPlayer(c) => c.audio_encode,
        InputConfig::Replay(c) => c.audio_encode,
        InputConfig::St2110_30(c) => c.audio_encode,
        InputConfig::RtpAudio(c) => c.audio_encode,
        InputConfig::MxlAudio(c) => c.audio_encode,
        InputConfig::Sdi(c) => c.audio_encode,
        _ => None,
    }
}

fn audio_of_input(input: &InputConfig) -> (r: Option<&AudioEncodeConfig>)
    ensures
        input_audio(*input) == match r {
            Some(a) => Some(*a),
            None => None,
        },
{
    match input {
        InputConfig::Rtp(c) => c.audio_encode.as_ref(),
        InputConfig::Udp(c) => c.audio_encode.as_ref(),
        InputConfig::Srt(c) => c.audio_encode.as_ref(),
        InputConfig::Rist(c) => c.audio_encode.as_ref(),
        InputConfig::Rtmp(c) => c.audio_encode.as_ref(),
        InputConfig::Rtsp(c) => c.audio_encode.as_ref(),
        InputConfig::Webrtc(c) => c.audio_encode.as_ref(),
        InputConfig::Whep(c) => c.audio_encode.as_ref(),
        InputConfig::TestPattern(c) => c.audio_encode.as_ref(),
        InputConfig::MediaPlayer(c) => c.audio_encode.as_ref(),
        InputConfig::Replay(c) => c.audio_encode.as_ref(),
        InputConfig::St2110_30(c) => c.audio_encode.as_ref(),
        InputConfig::RtpAudio(c) => c.audio_encode.as_ref(),
        InputConfig::MxlAudio(c) => c.audio_encode.as_ref(),
        InputConfig::Sdi(c) => c.audio_encode.as_ref(),
        _ => None,
    }
}

/// The audio codecs that a transport stream carries.
pub open spec fn stream_codecs() -> Seq<&'static str> {
    seq!["aac_lc", "he_aac_v1", "he_aac_v2", "mp2", "ac3"]
}

/// The rules for what an input selects, renames and encodes.
pub open spec fn input_stream_fault(input: InputConfig, context: Seq<char>) -> Option<Seq<char>> {
    fields::program_number_fault(input_program(input), context).otherwise(
        pid_map_fault(input_pid_map(input), context),
    ).otherwise(
        overrides_fault(input_overrides(input), is_synthetic(input), false, context),
    ).otherwise(
        error::when(
            input_audio(input) is Some,
            encode::audio_encode_fault(input_audio(input)->0, stream_codecs(), context),
        ),
    ).otherwise(
        error::when(
            input_video(input) is Some,
            encode::video_encode_fault(input_video(input)->0, context),
        ),
    )
}

fn validate_input_stream(input: &InputConfig, context: &str) -> (r: Result<(), ConfigError>)
    ensures
        error::is_outcome(r, input_stream_fault(*input, context@)),
{
    validate_program_number(program_of_input(input), context)?;
    validate_pid_map(pid_map_of_input(input), context)?;
    validate_overrides(overrides_of_input(input), synthetic(input), false, context)?;
    if let Some(audio) = audio_of_input(input) {
        validate_audio_encode(
            audio,
            &["aac_lc", "he_aac_v1", "he_aac_v2", "mp2", "ac3"],
            context,
        )?;
    }
    if let Some(video) = video_of_input(input) {
        validate_video_encode(video, context)?;
    }
    Ok(())
}

/// The rules for an AES3 input: its frames may carry more than linear PCM, so
/// it is not transcoded, and encoded at most as SMPTE 302M.
pub open spec fn aes3_input_fault(c: St2110AudioInputConfig) -> Option<Seq<char>> {
    error::check(
        c.transcode is Some,
        "ST 2110-31 input: transcode is not supported on AES3 audio"@,
    ).otherwise(
        error::check(
            c.audio_encode is Some && c.audio_encode->0.codec@ != "s302m"@,
            "ST 2110-31 input: audio_encode.codec '"@ + c.audio_encode->0.codec@
                + "' is not supported on AES3 audio"@,
        ),
    )
}

/// Checks an AES3 input.
pub fn validate_aes3_input(c: &St2110AudioInputConfig) -> (r: Result<(), ConfigError>)
    ensures
        error::is_outcome(r, aes3_input_fault(*c)),
{
    if c.transcode.is_some() {
        return fail("ST 2110-31 input: transcode is not supported on AES3 audio".to_owned());
    }
    if let Some(enc) = &c.audio_encode {
        if !text::str_eq(enc.codec.as_str(), "s302m") {
            return fail(
                text::cat3(
                    "ST 2110-31 input: audio_encode.codec '",
                    enc.codec.as_str(),
                    "' is not supported on AES3 audio",
                ),
            );
        }
    }
    Ok(())
}

/// The rules for the media settings of an input.
pub open spec fn input_media_fault(input: InputConfig) -> Option<Seq<char>> {
    input_stream_fault(input, "Input of type '"@ + input.spec_type_tag() + "'"@).otherwise(
        match input {
            InputConfig::Srt(c) => srt_sockets_fault(
                c.mode,
                c.local_addr,
                c.remote_addr,
                is_strict(c.interface_binding) || has_strict_leg(c.redundancy)
                    || has_strict_member(c.bonding),
                "SRT input"@,
            ),
            InputConfig::St2110_31(c) => aes3_input_fault(c),
            InputConfig::Bonded(c) => bonds::bonded_input_fault(c),
            InputConfig::Sdi(c) => error::check(
                c.pixel_format@ == "v210"@,
                "SDI input: pixel_format 'v210' is not supported"@,
            ),
            _ => None,
        },
    )
}

/// Checks the media settings of an input.
pub fn validate_input_media(input: &InputConfig) -> (r: Result<(), ConfigError>)
    ensures
        error::is_outcome(r, input_media_fault(*input)),
{
    validate_input_stream(
        input,
        text::cat3("Input of type '", input.type_tag(), "'").as_str(),
    )?;
    match input {
        InputConfig::Srt(c) => validate_srt_sockets(
            c.mode,
            &c.local_addr,
            &c.remote_addr,
            &c.interface_binding,
            &c.redundancy,
            &c.bonding,
            "SRT input",
        ),
        InputConfig::St2110_31(c) => validate_aes3_input(c),
        InputConfig::Bonded(c) => validate_bonded_input(c),
        InputConfig::Sdi(c) => {
            if text::str_eq(c.pixel_format.as_str(), "v210") {
                return fail("SDI input: pixel_format 'v210' is not supported".to_owned());
            }
            Ok(())
        },
        _ => Ok(()),
    }
}

// ---------------------------------------------------------------------------
// Outputs
// ---------------------------------------------------------------------------

/// The packet identifier overrides of an output.
pub open spec fn output_overrides(output: OutputConfig) -> Option<TsPidOverridesMap> {
    match output {
        OutputConfig::Rtp(c) => c.pid_overrides,
        OutputConfig::Udp(c) => c.pid_overrides,
        OutputConfig::Srt(c) => c.pid_overrides,
        OutputConfig::Rist(c) => c.pid_overrides,
        OutputConfig::Rtmp(c) => c.pid_overrides,
        OutputConfig::Cmaf(c) => c.pid_overrides,
        OutputConfig::Webrtc(c) => c.pid_overrides,
        OutputConfig::RtpAudio(c) => c.pid_overrides,
        _ => None,
    }
}

fn overrides_of_output(output: &OutputConfig) -> (r: Option<&TsPidOverridesMap>)
    ensures
        output_overrides(*output) == match r {
            Some(m) => Some(*m),
            None => None,
        },
{
    match output {
        OutputConfig::Rtp(c) => c.pid_overrides.as_ref(),
        OutputConfig::Udp(c) => c.pid_overrides.as_ref(),
        OutputConfig::Srt(c) => c.pid_overrides.as_ref(),
        OutputConfig::Rist(c) => c.pid_overrides.as_ref(),
        OutputConfig::Rtmp(c) => c.pid_overrides.as_ref(),
        OutputConfig::Cmaf(c) => c.pid_overrides.as_ref(),
        OutputConfig::Webrtc(c) => c.pid_overrides.as_ref(),
        OutputConfig::RtpAudio(c) => c.pid_overrides.as_ref(),
        _ => None,
    }
}

/// Whether an output with packet identifier overrides encodes its audio or
/// video anew.
pub open spec fn re_encodes(output: OutputConfig) -> bool {
    match output {
        OutputConfig::Rtp(c) => c.audio_encode is Some || c.video_encode is Some,
        OutputConfig::Udp(c) => c.audio_encode is Some || c.video_encode is Some,
        OutputConfig::Srt(c) => c.audio_encode is Some || c.video_encode is Some,
        OutputConfig::Rist(c) => c.audio_encode is Some || c.video_encode is Some,
        OutputConfig::Rtmp(c) => c.audio_encode is Some || c.video_encode is Some,
        OutputConfig::Cmaf(c) => c.audio_encode is Some || c.video_encode is Some,
        OutputConfig::Webrtc(c) => c.audio_encode is Some || c.video_encode is Some,
        _ => false,
    }
}

fn encodes_anew(output: &OutputConfig) -> (r: bool)
    ensures
        r == re_encodes(*output),
{
    match output {
        OutputConfig::Rtp(c) => c.audio_encode.is_some() || c.video_encode.is_some(),
        OutputConfig::Udp(c) => c.audio_encode.is_some() || c.video_encode.is_some(),
        OutputConfig::Srt(c) => c.audio_encode.is_some() || c.video_encode.is_some(),
        OutputConfig::Rist(c) => c.audio_encode.is_some() || c.video_encode.is_some(),
        OutputConfig::Rtmp(c) => c.audio_encode.is_some() || c.video_encode.is_some(),
        OutputConfig::Cmaf(c) => c.audio_encode.is_some() || c.video_encode.is_some(),
        OutputConfig::Webrtc(c) => c.audio_encode.is_some() || c.video_encode.is_some(),
        _ => false,
    }
}

/// Whether an output wraps uncompressed audio as SMPTE 302M, in a transport
/// stream that the node makes itself.
pub open spec fn wraps_302m(output: OutputConfig) -> bool {
    match output {
        OutputConfig::Udp(c) => text::opt_view(c.transport_mode) == Some("audio_302m"@),
        OutputConfig::Srt(c) => text::opt_view(c.transport_mode) == Some("audio_302m"@),
        OutputConfig::RtpAudio(c) => text::opt_view(c.transport_mode) == Some("audio_302m"@),
        _ => false,
    }
}

fn is_302m(output: &OutputConfig) -> (r: bool)
    ensures
        r == wraps_302m(*output),
{
    match output {
        OutputConfig::Udp(c) => text::opt_str_is(&c.transport_mode, "audio_302m"),
        OutputConfig::Srt(c) => text::opt_str_is(&c.transport_mode, "audio_302m"),
        OutputConfig::RtpAudio(c) => text::opt_str_is(&c.transport_mode, "audio_302m"),
        _ => false,
    }
}

/// The packet identifier map of an output.
pub open spec fn output_pid_map(output: OutputConfig) -> Option<BTreeMap<u16, u16>> {
    match output {
        OutputConfig::Rtp(c) => c.pid_map,
        OutputConfig::Udp(c) => c.pid_map,
        OutputConfig::Srt(c) => c.pid_map,
        OutputConfig::Rist(c) => c.pid_map,
        OutputConfig::Hls(c) => c.pid_map,
        OutputConfig::Bonded(c) => c.pid_map,
        _ => None,
    }
}

fn pid_map_of_output(output: &OutputConfig) -> (r: Option<&BTreeMap<u16, u16>>)
    ensures
        output_pid_map(*output) == match r {
            Some(m) => Some(*m),
            None => None,
        },
{
    match output {
        OutputConfig::Rtp(c) => c.pid_map.as_ref(),
        OutputConfig::Udp(c) => c.pid_map.as_ref(),
        OutputConfig::Srt(c) => c.pid_map.as_ref(),
        OutputConfig::Rist(c) => c.pid_map.as_ref(),
        OutputConfig::Hls(c) => c.pid_map.as_ref(),
        OutputConfig::Bonded(c) => c.pid_map.as_ref(),
        _ => None,
    }
}

/// The program that an output selects, where the rules of its protocol say
/// nothing of it.
pub open spec fn output_program(output: OutputConfig) -> Option<u16> {
    match output {
        OutputConfig::Bonded(c) => c.program_number,
        OutputConfig::Display(c) => c.program_number,
        OutputConfig::Sdi(c) => c.program_number,
        _ => None,
    }
}

fn program_of_output(output: &OutputConfig) -> (r: Option<u16>)
    ensures
        r == output_program(*output),
{
    match output {
        OutputConfig::Bonded(c) => c.program_number,
        OutputConfig::Display(c) => c.program_number,
        OutputConfig::Sdi(c) => c.program_number,
        _ => None,
    }
}

/// The video encoding of an output, where the rules of its protocol say nothing
/// of it.
pub open spec fn output_video(output: OutputConfig) -> Option<VideoEncodeConfig> {
    match output {
        OutputConfig::Rtmp(c) => c.video_encode,
        OutputConfig::Webrtc(c) => c.video_encode,
        _ => None,
    }
}

fn video_of_output(output: &OutputConfig) -> (r: Option<&VideoEncodeConfig>)
    ensures
        output_video(*output) == match r {
            Some(v) => Some(*v),
            None => None,
        },
{
    match output {
        OutputConfig::Rtmp(c) => c.video_encode.as_ref(),
        OutputConfig::Webrtc(c) => c.video_encode.as_ref(),
        _ => None,
    }
}

/// The rules for what an output selects, renames and encodes.
pub open spec fn output_stream_fault(output: OutputConfig, context: Seq<char>) -> Option<Seq<char>> {
    fields::program_number_fault(output_program(output), context).otherwise(
        pid_map_fault(output_pid_map(output), context),
    ).otherwise(
        overrides_fault(
            output_overrides(output),
            wraps_302m(output),
            re_encodes(output),
            context,
        ),
    ).otherwise(
        error::when(
            output_video(output) is Some,
            encode::video_encode_fault(output_video(output)->0, context),
        ),
    )
}

fn validate_output_stream(output: &OutputConfig, context: &str) -> (r: Result<(), ConfigError>)
    ensures
        error::is_outcome(r, output_stream_fault(*output, context@)),
{
    validate_program_number(program_of_output(output), context)?;
    validate_pid_map(pid_map_of_output(output), context)?;
    validate_overrides(
        overrides_of_output(output),
        is_302m(output),
        encodes_anew(output),
        context,
    )?;
    if let Some(video) = video_of_output(output) {
        validate_video_encode(video, context)?;
    }
    Ok(())
}

/// The rules for the media settings of an output.
pub open spec fn output_media_fault(output: OutputConfig) -> Option<Seq<char>> {
    let context = "Output '"@ + output.spec_id() + "'"@;
    output_stream_fault(output, context).otherwise(
        match output {
            OutputConfig::Rtp(c) => egress_buffer_fault(
                c.egress_buffer_ms,
                c.egress_pacing,
                context,
            ).otherwise(
                padding_fault(
                    c.cbr_pad_to_kbps,
                    declared_kbps(c.audio_encode, c.video_encode),
                    context,
                ),
            ),
            OutputConfig::Udp(c) => egress_buffer_fault(
                c.egress_buffer_ms,
                c.egress_pacing,
                context,
            ).otherwise(
                padding_fault(
                    c.cbr_pad_to_kbps,
                    declared_kbps(c.audio_encode, c.video_encode),
                    context,
                ),
            ),
            OutputConfig::Srt(c) => srt_sockets_fault(
                c.mode,
                c.local_addr,
                c.remote_addr,
                is_strict(c.interface_binding) || has_strict_leg(c.redundancy)
                    || has_strict_member(c.bonding),
                context,
            ).otherwise(
                padding_fault(
                    c.cbr_pad_to_kbps,
                    declared_kbps(c.audio_encode, c.video_encode),
                    context,
                ),
            ),
            OutputConfig::Bonded(c) => bonds::bonded_output_fault(c, context),
            OutputConfig::Display(c) => error::check(
                !is_connector(c.device@),
                context + ": device '"@ + c.device@ + "' is not a display connector name"@,
            ),
            OutputConfig::Sdi(c) => error::check(
                !(-1000 <= c.audio_offset_ms <= 1000),
                context + ": audio_offset_ms must be -1000..=1000, got "@ + text::dec_int(
                    c.audio_offset_ms as int,
                ),
            ),
            _ => None,
        },
    )
}

/// Checks the media settings of an output.
pub fn validate_output_media(output: &OutputConfig) -> (r: Result<(), ConfigError>)
    ensures
        error::is_outcome(r, output_media_fault(*output)),
{
    let label = text::cat3("Output '", output.id(), "'");
    let context = label.as_str();
    validate_output_stream(output, context)?;
    match output {
        OutputConfig::Rtp(c) => {
            validate_egress_buffer(c.egress_buffer_ms, c.egress_pacing, context)?;
            validate_padding(c.cbr_pad_to_kbps, &c.audio_encode, &c.video_encode, context)
        },
        OutputConfig::Udp(c) => {
            validate_egress_buffer(c.egress_buffer_ms, c.egress_pacing, context)?;
            validate_padding(c.cbr_pad_to_kbps, &c.audio_encode, &c.video_encode, context)
        },
        OutputConfig::Srt(c) => {
            validate_srt_sockets(
                c.mode,
                &c.local_addr,
                &c.remote_addr,
                &c.interface_binding,
                &c.redundancy,
                &c.bonding,
                context,
            )?;
            validate_padding(c.cbr_pad_to_kbps, &c.audio_encode, &c.video_encode, context)
        },
        OutputConfig::Bonded(c) => validate_bonded_output(c, context),
        OutputConfig::Display(c) => {
            if !names_connector(c.device.as_str()) {
                return fail(
                    text::cat4(
                        context,
                        ": device '",
                        c.device.as_str(),
                        "' is not a display connector name",
                    ),
                );
            }
            Ok(())
        },
        OutputConfig::Sdi(c) => {
            if !(-1000 <= c.audio_offset_ms && c.audio_offset_ms <= 1000) {
                return fail(
                    text::cat3(
                        context,
                        ": audio_offset_ms must be -1000..=1000, got ",
                        text::dec_int_string(c.audio_offset_ms as i64).as_str(),
                    ),
                );
            }
            Ok(())
        },
        _ => Ok(()),
    }
}

// ---------------------------------------------------------------------------
// Master clocks
// ---------------------------------------------------------------------------

/// Whether an input is received by a protocol whose packets carry the time of
/// their sender.
pub open spec fn has_sender_time(input: InputConfig) -> bool {
    input is Srt || input is Rist
}

/// Whether an input is taken from shared memory.
pub open spec fn is_mxl_input(input: InputConfig) -> bool {
    input is MxlVideo || input is MxlAudio || input is MxlAnc
}

/// Whether an output is put into shared memory.
pub open spec fn is_mxl_output(output: OutputConfig) -> bool {
    output is MxlVideo || output is MxlAudio || output is MxlAnc
}

/// The check of every input of a flow whose master clock is `kind`.
pub open spec fn clocked_input_check(
    inputs: Seq<InputDefinition>,
    kind: MasterClockKindConfig,
    flow_id: Seq<char>,
) -> spec_fn(int, String) -> Option<Seq<char>> {
    |i: int, id: String|
        match lookup::input_of(inputs, id@) {
            Some(def) => error::check(
                kind is SenderTimestamp && !has_sender_time(def.config),
                "Flow '"@ + flow_id
                    + "': master_clock 'sender_timestamp' requires SRT or RIST, but input '"@ + id@
                    + "' is neither"@,
            ).otherwise(
                error::check(
                    kind is Wallclock && is_mxl_input(def.config),
                    "Flow '"@ + flow_id + "': master_clock 'wallclock' cannot drive MXL input '"@
                        + id@ + "'"@,
                ),
            ),
            None => None,
        }
}

/// The check of every output of a flow whose master clock is `kind`.
pub open spec fn clocked_output_check(
    outputs: Seq<OutputConfig>,
    kind: MasterClockKindConfig,
    flow_id: Seq<char>,
) -> spec_fn(int, String) -> Option<Seq<char>> {
    |i: int, id: String|
        match lookup::output_of(outputs, id@) {
            Some(output) => error::check(
                kind is Wallclock && is_mxl_output(output),
                "Flow '"@ + flow_id + "': master_clock 'wallclock' cannot drive MXL output '"@ + id@
                    + "'"@,
            ),
            None => None,
        }
}

/// The master clock of a flow against the flow's inputs and outputs.
pub open spec fn clock_fault(config: AppConfig, flow: FlowConfig) -> Option<Seq<char>> {
    error::when(
        flow.master_clock is Some,
        error::first_fault(
            flow.input_ids@,
            clocked_input_check(config.inputs@, flow.master_clock->0.kind, flow.id@),
            0,
        ).otherwise(
            error::first_fault(
                flow.output_ids@,
                clocked_output_check(config.outputs@, flow.master_clock->0.kind, flow.id@),
                0,
            ),
        ),
    )
}

fn validate_clocked_inputs(
    config: &AppConfig,
    flow: &FlowConfig,
    kind: MasterClockKindConfig,
) -> (r: Result<(), ConfigError>)
    ensures
        error::is_outcome(
            r,
            error::first_fault(
                flow.input_ids@,
                clocked_input_check(config.inputs@, kind, flow.id@),
                0,
            ),
        ),
{
    let ghost test = clocked_input_check(config.inputs@, kind, flow.id@);
    let by_sender = match kind {
        MasterClockKindConfig::SenderTimestamp => true,
        _ => false,
    };
    let by_wallclock = match kind {
        MasterClockKindConfig::Wallclock => true,
        _ => false,
    };
    let mut i: usize = 0;
    while i < flow.input_ids.len()
        invariant
            i <= flow.input_ids@.len(),
            by_sender == (kind is SenderTimestamp),
            by_wallclock == (kind is Wallclock),
            test == clocked_input_check(config.inputs@, kind, flow.id@),
            error::first_fault(flow.input_ids@, test, 0) == error::first_fault(
                flow.input_ids@,
                test,
                i as int,
            ),
        decreases flow.input_ids.len() - i,
    {
        let id = flow.input_ids[i].as_str();
        if let Some(def) = find_input(&config.inputs, id) {
            let sender_time = match &def.config {
                InputConfig::Srt(_) | InputConfig::Rist(_) => true,
                _ => false,
            };
            if by_sender && !sender_time {
                return fail(
                    text::cat5(
                        "Flow '",
                        flow.id.as_str(),
                        "': master_clock 'sender_timestamp' requires SRT or RIST, but input '",
                        id,
                        "' is neither",
                    ),
                );
            }
            let mxl = match &def.config {
                InputConfig::MxlVideo(_) | InputConfig::MxlAudio(_) | InputConfig::MxlAnc(
                    _,
                ) => true,
                _ => false,
            };
            if by_wallclock && mxl {
                return fail(
                    text::cat5(
                        "Flow '",
                        flow.id.as_str(),
                        "': master_clock 'wallclock' cannot drive MXL input '",
                        id,
                        "'",
                    ),
                );
            }
        }
        i = i + 1;
    }
    Ok(())
}

fn validate_clocked_outputs(
    config: &AppConfig,
    flow: &FlowConfig,
    kind: MasterClockKindConfig,
) -> (r: Result<(), ConfigError>)
    ensures
        error::is_outcome(
            r,
            error::first_fault(
                flow.output_ids@,
                clocked_output_check(config.outputs@, kind, flow.id@),
                0,
            ),
        ),
{
    let ghost test = clocked_output_check(config.outputs@, kind, flow.id@);
    let by_wallclock = match kind {
        MasterClockKindConfig::Wallclock => true,
        _ => false,
    };
    let mut i: usize = 0;
    while i < flow.output_ids.len()
        invariant
            i <= flow.output_ids@.len(),
            by_wallclock == (kind is Wallclock),
            test == clocked_output_check(config.outputs@, kind, flow.id@),
            error::first_fault(flow.output_ids@, test, 0) == error::first_fault(
                flow.output_ids@,
                test,
                i as int,
            ),
        decreases flow.output_ids.len() - i,
    {
        let id = flow.output_ids[i].as_str();
        if let Some(output) = find_output(&config.outputs, id) {
            let mxl = match output {
                OutputConfig::MxlVideo(_) | OutputConfig::MxlAudio(_) | OutputConfig::MxlAnc(
                    _,
                ) => true,
                _ => false,
            };
            if by_wallclock && mxl {
                return fail(
                    text::cat5(
                        "Flow '",
                        flow.id.as_str(),
                        "': master_clock 'wallclock' cannot drive MXL output '",
                        id,
                        "'",
                    ),
                );
            }
        }
        i = i + 1;
    }
    Ok(())
}

/// Checks the master clock of a flow against the flow's inputs and outputs.
pub fn validate_clock(config: &AppConfig, flow: &FlowConfig) -> (r: Result<(), ConfigError>)
    ensures
        error::is_outcome(r, clock_fault(*config, *flow)),
{
    if let Some(clock) = &flow.master_clock {
        validate_clocked_inputs(config, flow, clock.kind)?;
        validate_clocked_outputs(config, flow, clock.kind)?;
    }
    Ok(())
}

// ---------------------------------------------------------------------------
// Audio that is encoded where it enters
// ---------------------------------------------------------------------------

/// Whether an input of uncompressed audio is encoded into a transport stream.
pub open spec fn is_encoded_audio(input: InputConfig) -> bool {
    match input {
        InputConfig::St2110_30(c) | InputConfig::St2110_31(c) => c.audio_encode is Some,
        InputConfig::RtpAudio(c) => c.audio_encode is Some,
        InputConfig::MxlAudio(c) => c.audio_encode is Some,
        _ => false,
    }
}

fn encoded_audio(input: &InputConfig) -> (r: bool)
    ensures
        r == is_encoded_audio(*input),
{
    match input {
        InputConfig::St2110_30(c) | InputConfig::St2110_31(c) => c.audio_encode.is_some(),
        InputConfig::RtpAudio(c) => c.audio_encode.is_some(),
        InputConfig::MxlAudio(c) => c.audio_encode.is_some(),
        _ => false,
    }
}

/// Whether an output needs uncompressed audio: it sends it as ST 2110, or
/// wraps it as SMPTE 302M.
pub open spec fn needs_pcm(output: OutputConfig) -> bool {
    match output {
        OutputConfig::St2110_30(_) | OutputConfig::St2110_31(_) => true,
        _ => wraps_302m(output),
    }
}

fn wants_pcm(output: &OutputConfig) -> (r: bool)
    ensures
        r == needs_pcm(*output),
{
    match output {
        OutputConfig::St2110_30(_) | OutputConfig::St2110_31(_) => true,
        _ => is_302m(output),
    }
}

/// Whether `id` names an input whose audio is encoded.
pub open spec fn names_encoded_audio(inputs: Seq<InputDefinition>, id: Seq<char>) -> bool {
    lookup::input_of(inputs, id) matches Some(def) && is_encoded_audio(def.config)
}

/// Whether a flow has an input whose audio is encoded.
pub open spec fn has_encoded_audio(inputs: Seq<InputDefinition>, flow: FlowConfig) -> bool {
    exists|i: int|
        0 <= i < flow.input_ids@.len() && names_encoded_audio(
            inputs,
            (#[trigger] flow.input_ids@[i])@,
        )
}

fn is_fed_encoded_audio(inputs: &Vec<InputDefinition>, flow: &FlowConfig) -> (r: bool)
    ensures
        r == has_encoded_audio(inputs@, *flow),
{
    let mut i: usize = 0;
    while i < flow.input_ids.len()
        invariant
            i <= flow.input_ids@.len(),
            forall|j: int|
                0 <= j < i ==> !names_encoded_audio(inputs@, (#[trigger] flow.input_ids@[j])@),
        decreases flow.input_ids.len() - i,
    {
        if let Some(def) = find_input(inputs, flow.input_ids[i].as_str()) {
            if encoded_audio(&def.config) {
                assert(names_encoded_audio(inputs@, flow.input_ids@[i as int]@));
                return true;
            }
        }
        i = i + 1;
    }
    false
}

/// The check of every output of a flow that carries encoded audio.
pub open spec fn encoded_output_check(
    outputs: Seq<OutputConfig>,
    flow_id: Seq<char>,
) -> spec_fn(int, String) -> Option<Seq<char>> {
    |i: int, id: String|
        match lookup::output_of(outputs, id@) {
            Some(output) => error::check(
                needs_pcm(output),
                "Flow '"@ + flow_id + "': output '"@ + id@
                    + "' needs uncompressed audio, but an input has audio_encode"@,
            ),
            None => None,
        }
}

/// The outputs of a flow against audio that is encoded where it enters.
pub open spec fn encoded_outputs_fault(config: AppConfig, flow: FlowConfig) -> Option<Seq<char>> {
    error::when(
        has_encoded_audio(config.inputs@, flow),
        error::first_fault(
            flow.output_ids@,
            encoded_output_check(config.outputs@, flow.id@),
            0,
        ),
    )
}

/// Checks the outputs of a flow against audio that is encoded where it enters.
pub fn validate_encoded_outputs(config: &AppConfig, flow: &FlowConfig) -> (r: Result<
    (),
    ConfigError,
>)
    ensures
        error::is_outcome(r, encoded_outputs_fault(*config, *flow)),
{
    if is_fed_encoded_audio(&config.inputs, flow) {
        let ghost test = encoded_output_check(config.outputs@, flow.id@);
        let mut i: usize = 0;
        while i < flow.output_ids.len()
            invariant
                i <= flow.output_ids@.len(),
                has_encoded_audio(config.inputs@, *flow),
                test == encoded_output_check(config.outputs@, flow.id@),
                error::first_fault(flow.output_ids@, test, 0) == error::first_fault(
                    flow.output_ids@,
                    test,
                    i as int,
                ),
            decreases flow.output_ids.len() - i,
        {
            let id = flow.output_ids[i].as_str();
            if let Some(output) = find_output(&config.outputs, id) {
                if wants_pcm(output) {
                    return fail(
                        text::cat5(
                            "Flow '",
                            flow.id.as_str(),
                            "': output '",
                            id,
                            "' needs uncompressed audio, but an input has audio_encode",
                        ),
                    );
                }
            }
            i = i + 1;
        }
    }
    Ok(())
}

// ---------------------------------------------------------------------------
// All flows
// ---------------------------------------------------------------------------

/// The check of every flow against its inputs and outputs.
pub open spec fn carriage_check(config: AppConfig) -> spec_fn(int, FlowConfig) -> Option<
    Seq<char>,
> {
    |k: int, flow: FlowConfig|
        clock_fault(config, flow).otherwise(encoded_outputs_fault(config, flow)).otherwise(
            assembly::sequences_fault(flow, config.inputs@),
        )
}

/// All flows, each with its master clock, its audio and its assembly against its
/// inputs and outputs.
pub open spec fn carriage_fault(config: AppConfig) -> Option<Seq<char>> {
    error::first_fault(config.flows@, carriage_check(config), 0)
}

/// Checks the master clocks, the audio and the assemblies of all flows against
/// their inputs and outputs.
pub fn validate_carriage(config: &AppConfig) -> (r: Result<(), ConfigError>)
    ensures
        error::is_outcome(r, carriage_fault(*config)),
{
    let ghost test = carriage_check(*config);
    let mut k: usize = 0;
    while k < config.flows.len()
        invariant
            k <= config.flows@.len(),
            test == carriage_check(*config),
            error::first_fault(config.flows@, test, 0) == error::first_fault(
                config.flows@,
                test,
                k as int,
            ),
        decreases config.flows.len() - k,
    {
        validate_clock(config, &config.flows[k])?;
        validate_encoded_outputs(config, &config.flows[k])?;
        validate_sequences(&config.flows[k], &config.inputs)?;
        k = k + 1;
    }
    Ok(())
}

} // verus!
