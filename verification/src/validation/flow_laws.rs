//! Which flows, groups and assemblies are accepted.

use vstd::prelude::*;

use super::{assembly, bounds, flows, media};
use crate::binary;
use crate::error;
use crate::lookup;
use crate::models::{
    AppConfig, AssembledProgram, AssembledStream, FlowAssembly, FlowConfig, FlowGroupConfig,
    InputDefinition, SlotSource, SwitchLeg,
};
use crate::text;

verus! {

/// A flow is accepted exactly when it is named, its group and its references are short
/// enough and not empty, its bandwidth limit is positive and at most 10 Gbps with a grace of
/// 1 to 60 seconds, and what it carries is accepted.
pub proof fn lemma_flow_accepts(flow: FlowConfig)
    ensures
        flows::flow_fault(flow) is None <==> {
            &&& flow.id@.len() > 0
            &&& text::byte_len(flow.id@) <= 64
            &&& flow.name@.len() > 0
            &&& text::byte_len(flow.name@) <= 256
            &&& flow.thumbnail_program_number != Some(0u16)
            &&& flow.flow_group_id is Some ==> flow.flow_group_id->0@.len() > 0
            &&& flow.flow_group_id is Some ==> text::byte_len(flow.flow_group_id->0@) <= 64
            &&& flow.clock_domain is Some ==> flow.clock_domain->0 <= 127
            &&& flows::references_fault(flow.input_ids, flow.id@, "input_id"@) is None
            &&& flows::references_fault(flow.output_ids, flow.id@, "output_id"@) is None
            &&& flow.bandwidth_limit is Some
                ==> !binary::le(flow.bandwidth_limit->0.max_bitrate_mbps.bits, 0)
            &&& flow.bandwidth_limit is Some
                ==> !binary::lt(binary::TEN_THOUSAND, flow.bandwidth_limit->0.max_bitrate_mbps.bits)
            &&& flow.bandwidth_limit is Some ==> flow.bandwidth_limit->0.grace_period_secs >= 1
            &&& flow.bandwidth_limit is Some ==> flow.bandwidth_limit->0.grace_period_secs <= 60
            &&& media::flow_media_fault(flow) is None
        },
{
}

/// References are accepted exactly when none is empty or longer than 64 bytes.
pub proof fn lemma_references_accepts(ids: Vec<String>, flow_id: Seq<char>, kind: Seq<char>)
    ensures
        flows::references_fault(ids, flow_id, kind) is None <==> {
            &&& forall|i: int|
                #![trigger ids@[i]]
                0 <= i < ids@.len() ==> {
                    &&& ids@[i]@.len() > 0
                    &&& text::byte_len(ids@[i]@) <= 64
                }
        },
{
    let test = flows::reference_check(flow_id, kind);
    error::lemma_first_fault_none(ids@, test, 0);
    assert forall|i: int|
        #![trigger ids@[i]]
        0 <= i < ids@.len() implies (test(i, ids@[i]) is None <==> {
                    &&& ids@[i]@.len() > 0
                    &&& text::byte_len(ids@[i]@) <= 64
        }) by {
    }
}

/// What a flow carries is accepted exactly when its intervals and its analysis are within
/// their limits and its assembly is accepted.
pub proof fn lemma_flow_media_accepts(flow: FlowConfig)
    ensures
        media::flow_media_fault(flow) is None <==> {
            &&& flow.thumbnail_interval_secs is Some ==> 1 <= flow.thumbnail_interval_secs->0 <= 60
            &&& flow.content_analysis is Some && flow.content_analysis->0.video_full_hz is Some
                ==> 0 < flow.content_analysis->0.video_full_hz->0.bits <= binary::THIRTY_SINGLE
            &&& flow.assembly is Some
                ==> assembly::assembly_fault(flow.assembly->0, flow.input_ids@, flow.id@) is None
            &&& flow.master_clock is Some
                && flow.master_clock->0.pll_lock_timeout_s != Some(0u32)
                && flow.master_clock->0.pll_lock_timeout_s is Some
                ==> 5 <= flow.master_clock->0.pll_lock_timeout_s->0 <= 300
            &&& flow.master_clock is Some && flow.master_clock->0.pll_lock_jitter_us is Some
                ==> 50 <= flow.master_clock->0.pll_lock_jitter_us->0 <= 5000
            &&& flow.recording is Some ==> 2 <= flow.recording->0.segment_seconds <= 60
            &&& flow.recording is Some && flow.recording->0.pre_buffer_seconds is Some
                ==> 1 <= flow.recording->0.pre_buffer_seconds->0 <= 300
            &&& flow.recording is Some && flow.recording->0.filmstrip_seconds is Some
                ==> 1 <= flow.recording->0.filmstrip_seconds->0 <= 30
        },
{
}

/// The source of an assembled stream is accepted exactly when the legs of a hitless source
/// are plain, a switch has 1 to 64 legs and starts on one of them, and the windows that the
/// mode uses are within their limits.
pub proof fn lemma_slot_accepts(source: SlotSource, context: Seq<char>)
    ensures
        assembly::slot_fault(source, context) is None <==> {
            &&& match source {
                SlotSource::Hitless { primary, backup, mode, stall_ms, reorder_window, path_differential_ms, } => {
                    &&& assembly::is_plain(*primary)
                    &&& assembly::is_plain(*backup)
                    &&& mode is PrimaryPreference && stall_ms is Some ==> 20 <= stall_ms->0 <= 5000
                    &&& mode is SeqAware && reorder_window is Some
                        ==> (64 <= reorder_window->0 <= 4096 && reorder_window->0 % 64 == 0)
                    &&& mode is SeqAware && path_differential_ms is Some
                        ==> 5 <= path_differential_ms->0 <= 2000
                },
                SlotSource::Switch { legs, initial_input_id, splice_mode, splice_budget_ms } => {
                    &&& 1 <= legs@.len() <= 64
                    &&& assembly::has_leg(legs@, legs@.len() as int, initial_input_id@)
                    &&& splice_mode is PesAligned && splice_budget_ms is Some
                        ==> 20 <= splice_budget_ms->0 <= 5000
                },
                _ => true,
            }
        },
{
}

/// A leg is found by its input exactly when a leg takes that input.
pub proof fn lemma_switch_legs(legs: Seq<SwitchLeg>, id: Seq<char>)
    ensures
        assembly::has_leg(legs, legs.len() as int, id) <==> exists|i: int|
            0 <= i < legs.len() && match #[trigger] legs[i] {
                SwitchLeg::Pid { input_id, .. } => input_id@ == id,
                SwitchLeg::Essence { input_id, .. } => input_id@ == id,
            },
{
    if assembly::has_leg(legs, legs.len() as int, id) {
        let i = choose|i: int|
            0 <= i < legs.len() && i < legs.len() && #[trigger] legs[i].spec_input_id() == id;
        assert(match legs[i] {
            SwitchLeg::Pid { input_id, .. } => input_id@ == id,
            SwitchLeg::Essence { input_id, .. } => input_id@ == id,
        });
    }
    if exists|i: int|
        0 <= i < legs.len() && match #[trigger] legs[i] {
            SwitchLeg::Pid { input_id, .. } => input_id@ == id,
            SwitchLeg::Essence { input_id, .. } => input_id@ == id,
        } {
        let i = choose|i: int|
            0 <= i < legs.len() && match #[trigger] legs[i] {
                SwitchLeg::Pid { input_id, .. } => input_id@ == id,
                SwitchLeg::Essence { input_id, .. } => input_id@ == id,
            };
        assert(legs[i].spec_input_id() == id);
    }
}

/// The streams of a program are accepted exactly when each has a packet identifier that
/// may be assigned and that no other has, and its source is accepted.
pub proof fn lemma_streams_accepts(streams: Seq<AssembledStream>, context: Seq<char>)
    ensures
        error::first_fault(streams, assembly::stream_check(streams, context), 0) is None <==> {
            &&& forall|i: int|
                #![trigger streams[i]]
                0 <= i < streams.len() ==> {
                    &&& 0x0010 <= streams[i].out_pid <= 0x1FFE
                    &&& assembly::slot_fault(streams[i].source, context) is None
                }
            &&& forall|i: int, j: int|
                #![trigger streams[i], streams[j]]
                0 <= i < j < streams.len() ==> streams[i].out_pid != streams[j].out_pid
        },
{
    let test = assembly::stream_check(streams, context);
    error::lemma_first_fault_none(streams, test, 0);
    assert forall|j: int|
        #![trigger streams[j]]
        0 <= j < streams.len() implies (test(j, streams[j]) is None <==> {
        &&& 0x0010 <= streams[j].out_pid <= 0x1FFE
        &&& forall|i: int| 0 <= i < j ==> (#[trigger] streams[i]).out_pid != streams[j].out_pid
        &&& assembly::slot_fault(streams[j].source, context) is None
    }) by {}
    if error::first_fault(streams, test, 0) is None {
        assert forall|i: int, j: int|
            #![trigger streams[i], streams[j]]
            0 <= i < j < streams.len() implies streams[i].out_pid != streams[j].out_pid by {
            assert(test(j, streams[j]) is None);
        }
    }
}

/// An assembly is accepted exactly when it has as many programs as its kind allows, each
/// with a number other than 0, no two with the same number or the same map, each timed by
/// an input of the flow unless the stream passes through, and with accepted streams.
pub proof fn lemma_assembly_accepts(
    a: FlowAssembly,
    input_ids: Seq<String>,
    flow_id: Seq<char>,
)
    ensures
        assembly::assembly_fault(a, input_ids, flow_id) is None <==> {
            &&& a.kind is Spts ==> a.programs@.len() == 1
            &&& a.kind is Mpts ==> a.programs@.len() > 0
            &&& a.kind is Passthrough ==> a.programs@.len() <= 1
            &&& forall|i: int|
                #![trigger a.programs@[i]]
                0 <= i < a.programs@.len() ==> program_passes(a, input_ids, flow_id, i)
            &&& forall|i: int, j: int|
                #![trigger a.programs@[i], a.programs@[j]]
                0 <= i < j < a.programs@.len() ==> a.programs@[i].program_number
                    != a.programs@[j].program_number && a.programs@[i].pmt_pid
                    != a.programs@[j].pmt_pid
        },
{
    let programs = a.programs@;
    let test = assembly::program_check(a, input_ids, flow_id);
    error::lemma_first_fault_none(programs, test, 0);
    assert forall|j: int|
        #![trigger programs[j]]
        0 <= j < programs.len() implies (test(j, programs[j]) is None <==> {
        &&& program_passes(a, input_ids, flow_id, j)
        &&& forall|i: int|
            0 <= i < j ==> (#[trigger] programs[i]).program_number != programs[j].program_number
                && programs[i].pmt_pid != programs[j].pmt_pid
    }) by {
        lemma_references_in(
            programs[j],
            a,
            input_ids,
            "Flow '"@ + flow_id + "' program "@ + text::dec(programs[j].program_number as nat),
        );
    }
    if assembly::assembly_fault(a, input_ids, flow_id) is None {
        assert forall|i: int, j: int|
            #![trigger programs[i], programs[j]]
            0 <= i < j < programs.len() implies programs[i].program_number
            != programs[j].program_number && programs[i].pmt_pid != programs[j].pmt_pid by {
            assert(test(j, programs[j]) is None);
        }
    }
}

/// What is asked of an assembled program on its own: a number, a clock that the flow has
/// unless the stream passes through, and accepted streams.
pub open spec fn program_passes(
    a: FlowAssembly,
    input_ids: Seq<String>,
    flow_id: Seq<char>,
    i: int,
) -> bool {
    let program = a.programs@[i];
    let context = "Flow '"@ + flow_id + "' program "@ + text::dec(program.program_number as nat);
    &&& program.program_number != 0
    &&& a.kind !is Passthrough && program.pcr_source is Some ==> exists|k: int|
        0 <= k < input_ids.len() && #[trigger] input_ids[k]@ == program.pcr_source->0.input_id@
    &&& a.kind !is Passthrough && program.pcr_source is None ==> a.pcr_source is Some && exists|
        k: int,
    |
        0 <= k < input_ids.len() && #[trigger] input_ids[k]@ == a.pcr_source->0.input_id@
    &&& error::first_fault(
        program.streams@,
        assembly::stream_check(program.streams@, context),
        0,
    ) is None
}

proof fn lemma_references_in(
    program: AssembledProgram,
    a: FlowAssembly,
    input_ids: Seq<String>,
    context: Seq<char>,
)
    ensures
        assembly::reference_fault(program, a, input_ids, context) is None <==> {
            &&& a.kind !is Passthrough && program.pcr_source is Some ==> exists|k: int|
                0 <= k < input_ids.len() && #[trigger] input_ids[k]@
                    == program.pcr_source->0.input_id@
            &&& a.kind !is Passthrough && program.pcr_source is None ==> a.pcr_source is Some
                && exists|k: int|
                0 <= k < input_ids.len() && #[trigger] input_ids[k]@ == a.pcr_source->0.input_id@
        },
{
}

/// In a flow that is accepted both legs of a hitless source that goes by sequence numbers
/// come from inputs that have them: RTP, RIST or SRT.
pub proof fn lemma_sequenced_legs(
    flow: FlowConfig,
    inputs: Seq<InputDefinition>,
    p: int,
    s: int,
    primary: Box<SlotSource>,
    backup: Box<SlotSource>,
    id: Seq<char>,
    def: InputDefinition,
)
    requires
        assembly::sequences_fault(flow, inputs) is None,
        flow.assembly is Some,
        0 <= p < flow.assembly->0.programs@.len(),
        0 <= s < flow.assembly->0.programs@[p].streams@.len(),
        flow.assembly->0.programs@[p].streams@[s].source is Hitless,
        flow.assembly->0.programs@[p].streams@[s].source->Hitless_primary == primary,
        flow.assembly->0.programs@[p].streams@[s].source->Hitless_backup == backup,
        flow.assembly->0.programs@[p].streams@[s].source->mode is SeqAware,
        lookup::input_of(inputs, id) == Some(def),
    ensures
        *primary is Pid && (*primary)->Pid_input_id@ == id ==> def.config is Rtp
            || def.config is Rist || def.config is Srt,
        *primary is Essence && (*primary)->Essence_input_id@ == id ==> def.config is Rtp
            || def.config is Rist || def.config is Srt,
        *backup is Pid && (*backup)->Pid_input_id@ == id ==> def.config is Rtp
            || def.config is Rist || def.config is Srt,
        *backup is Essence && (*backup)->Essence_input_id@ == id ==> def.config is Rtp
            || def.config is Rist || def.config is Srt,
{
    let programs = flow.assembly->0.programs@;
    let outer = assembly::sequenced_program_check(inputs, flow.id@);
    error::lemma_first_fault_none(programs, outer, 0);
    assert(outer(p, programs[p]) is None);
    let streams = programs[p].streams@;
    let inner = assembly::sequenced_stream_check(inputs, flow.id@);
    error::lemma_first_fault_none(streams, inner, 0);
    assert(inner(s, streams[s]) is None);
}

/// Flow groups: group `i` is accepted exactly when it is named, its clock domain is allowed,
/// no earlier group has its identifier, and it has members, each of them a defined flow
/// that it lists once.
pub proof fn lemma_flow_group_accepts(
    groups: Seq<FlowGroupConfig>,
    i: int,
    flows: Seq<FlowConfig>,
)
    ensures
        flows::flow_group_fault(groups, i, flows) is None <==> {
            let g = groups[i];
            &&& g.id@.len() > 0
            &&& text::byte_len(g.id@) <= 64
            &&& g.name@.len() > 0
            &&& text::byte_len(g.name@) <= 256
            &&& g.clock_domain is Some ==> g.clock_domain->0 <= 127
            &&& forall|j: int| 0 <= j < i && j < groups.len() ==> #[trigger] groups[j].id@ != g.id@
            &&& g.flows@.len() > 0
            &&& forall|m: int|
                #![trigger g.flows@[m]]
                0 <= m < g.flows@.len() ==> {
                    &&& text::byte_len(g.flows@[m]@) <= 64
                    &&& exists|k: int|
                        0 <= k < flows.len() && #[trigger] flows[k].id@ == g.flows@[m]@
                }
            &&& forall|l: int, m: int|
                #![trigger g.flows@[l], g.flows@[m]]
                0 <= l < m < g.flows@.len() ==> g.flows@[l]@ != g.flows@[m]@
        },
{
    let g = groups[i];
    let test = flows::member_check(g, flows);
    error::lemma_first_fault_none(g.flows@, test, 0);
    assert forall|m: int|
        #![trigger g.flows@[m]]
        0 <= m < g.flows@.len() implies (test(m, g.flows@[m]) is None <==> {
        &&& text::byte_len(g.flows@[m]@) <= 64
        &&& forall|l: int| 0 <= l < m ==> (#[trigger] g.flows@[l])@ != g.flows@[m]@
        &&& exists|k: int| 0 <= k < flows.len() && #[trigger] flows[k].id@ == g.flows@[m]@
    }) by {}
    if flows::flow_group_fault(groups, i, flows) is None {
        assert forall|l: int, m: int|
            #![trigger g.flows@[l], g.flows@[m]]
            0 <= l < m < g.flows@.len() implies g.flows@[l]@ != g.flows@[m]@ by {
            assert(test(m, g.flows@[m]) is None);
        }
    }
}

/// The memberships of flows are accepted exactly when every flow that names a group names
/// one that is defined and that lists the flow.
pub proof fn lemma_memberships_accepts(flows: Seq<FlowConfig>, groups: Seq<FlowGroupConfig>)
    ensures
        flows::memberships_fault(flows, groups) is None <==> forall|k: int|
            #![trigger flows[k]]
            0 <= k < flows.len() && flows[k].flow_group_id is Some ==> {
                let group = lookup::group_of(groups, flows[k].flow_group_id->0@);
                group is Some && exists|i: int|
                    0 <= i < group->0.flows@.len() && #[trigger] group->0.flows@[i]@
                        == flows[k].id@
            },
{
    let test = flows::membership_check(groups);
    error::lemma_first_fault_none(flows, test, 0);
    assert forall|k: int|
        #![trigger flows[k]]
        0 <= k < flows.len() implies (test(k, flows[k]) is None <==> (
    flows[k].flow_group_id is Some ==> {
        let group = lookup::group_of(groups, flows[k].flow_group_id->0@);
        group is Some && exists|i: int|
            0 <= i < group->0.flows@.len() && #[trigger] group->0.flows@[i]@ == flows[k].id@
    })) by {}
}

/// The clock of a flow is accepted exactly when sender timestamps are taken from SRT and
/// RIST inputs alone, and the wall clock drives no MXL input and no MXL output.
pub proof fn lemma_clock_accepts(config: AppConfig, flow: FlowConfig)
    ensures
        flow.master_clock is None ==> media::clock_fault(config, flow) is None,
        flow.master_clock is Some ==> (media::clock_fault(config, flow) is None <==> {
            let kind = flow.master_clock->0.kind;
            &&& forall|i: int|
                #![trigger flow.input_ids@[i]]
                0 <= i < flow.input_ids@.len() ==> {
                    let def = lookup::input_of(config.inputs@, flow.input_ids@[i]@);
                    &&& kind is SenderTimestamp && def is Some ==> def->0.config is Srt
                        || def->0.config is Rist
                    &&& kind is Wallclock && def is Some ==> !(def->0.config is MxlVideo
                        || def->0.config is MxlAudio || def->0.config is MxlAnc)
                }
            &&& forall|i: int|
                #![trigger flow.output_ids@[i]]
                0 <= i < flow.output_ids@.len() ==> {
                    let output = lookup::output_of(config.outputs@, flow.output_ids@[i]@);
                    kind is Wallclock && output is Some ==> !(output->0 is MxlVideo
                        || output->0 is MxlAudio || output->0 is MxlAnc)
                }
        }),
{
    if flow.master_clock is Some {
        let kind = flow.master_clock->0.kind;
        let ins = media::clocked_input_check(config.inputs@, kind, flow.id@);
        error::lemma_first_fault_none(flow.input_ids@, ins, 0);
        assert forall|i: int|
            #![trigger flow.input_ids@[i]]
            0 <= i < flow.input_ids@.len() implies (ins(i, flow.input_ids@[i]) is None <==> {
            let def = lookup::input_of(config.inputs@, flow.input_ids@[i]@);
            &&& kind is SenderTimestamp && def is Some ==> def->0.config is Srt
                || def->0.config is Rist
            &&& kind is Wallclock && def is Some ==> !(def->0.config is MxlVideo
                || def->0.config is MxlAudio || def->0.config is MxlAnc)
        }) by {}
        let outs = media::clocked_output_check(config.outputs@, kind, flow.id@);
        error::lemma_first_fault_none(flow.output_ids@, outs, 0);
        assert forall|i: int|
            #![trigger flow.output_ids@[i]]
            0 <= i < flow.output_ids@.len() implies (outs(i, flow.output_ids@[i]) is None <==> {
            let output = lookup::output_of(config.outputs@, flow.output_ids@[i]@);
            kind is Wallclock && output is Some ==> !(output->0 is MxlVideo
                || output->0 is MxlAudio || output->0 is MxlAnc)
        }) by {}
    }
}

/// The outputs of a flow are accepted next to its inputs exactly when none of them needs
/// uncompressed audio while one of the inputs encodes audio.
pub proof fn lemma_encoded_outputs_accepts(config: AppConfig, flow: FlowConfig)
    ensures
        media::encoded_outputs_fault(config, flow) is None <==> !((exists|i: int|
            0 <= i < flow.input_ids@.len() && {
                let def = lookup::input_of(
                    config.inputs@,
                    (#[trigger] flow.input_ids@[i])@,
                );
                def is Some && media::is_encoded_audio(def->0.config)
            }) && exists|j: int|
            0 <= j < flow.output_ids@.len() && {
                let output = lookup::output_of(
                    config.outputs@,
                    (#[trigger] flow.output_ids@[j])@,
                );
                output is Some && media::needs_pcm(output->0)
            }),
{
    let test = media::encoded_output_check(config.outputs@, flow.id@);
    error::lemma_first_fault_none(flow.output_ids@, test, 0);
    assert forall|j: int|
        #![trigger flow.output_ids@[j]]
        0 <= j < flow.output_ids@.len() implies (test(j, flow.output_ids@[j]) is None <==> {
        let output = lookup::output_of(config.outputs@, flow.output_ids@[j]@);
        output is Some ==> !media::needs_pcm(output->0)
    }) by {}
    assert forall|i: int|
        #![trigger flow.input_ids@[i]]
        0 <= i < flow.input_ids@.len() implies (media::names_encoded_audio(
        config.inputs@,
        flow.input_ids@[i]@,
    ) <==> {
        let def = lookup::input_of(config.inputs@, flow.input_ids@[i]@);
        def is Some && media::is_encoded_audio(def->0.config)
    }) by {}
}

/// What the flows of a configuration carry is accepted exactly when the clock, the audio
/// and the hitless sources of each flow are.
pub proof fn lemma_carriage_accepts(config: AppConfig)
    ensures
        media::carriage_fault(config) is None <==> forall|k: int|
            #![trigger config.flows@[k]]
            0 <= k < config.flows@.len() ==> {
                &&& media::clock_fault(config, config.flows@[k]) is None
                &&& media::encoded_outputs_fault(config, config.flows@[k]) is None
                &&& assembly::sequences_fault(config.flows@[k], config.inputs@) is None
            },
{
    let test = media::carriage_check(config);
    error::lemma_first_fault_none(config.flows@, test, 0);
    assert forall|k: int|
        #![trigger config.flows@[k]]
        0 <= k < config.flows@.len() implies (test(k, config.flows@[k]) is None <==> {
        &&& media::clock_fault(config, config.flows@[k]) is None
        &&& media::encoded_outputs_fault(config, config.flows@[k]) is None
        &&& assembly::sequences_fault(config.flows@[k], config.inputs@) is None
    }) by {}
}

} // verus!
