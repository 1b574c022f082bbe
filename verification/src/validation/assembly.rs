//! Rules on assembled streams: the programs of a flow that are put together
//! from streams of its inputs.

use vstd::prelude::*;

use crate::error;
use crate::error::{fail, Checks, ConfigError};
use crate::lookup;
use crate::lookup::{find_input, is_listed};
use crate::models::{
    AssembledProgram, AssembledStream, AssemblyKind, FlowAssembly, FlowConfig, HitlessMode,
    InputConfig, InputDefinition, PcrSource, SlotSource, SpliceMode, SwitchLeg,
};
use crate::text;
use crate::validation::bounds;
use crate::validation::bounds::{validate_bounds, validate_set_bounds};
use crate::validation::media;
use crate::validation::media::assignable;

verus! {

// ---------------------------------------------------------------------------
// Sources of streams
// ---------------------------------------------------------------------------

/// Whether `source` is a stream of an input, with no choice among several.
pub open spec fn is_plain(source: SlotSource) -> bool {
    source is Pid || source is Essence
}

fn plain(source: &SlotSource) -> (r: bool)
    ensures
        r == is_plain(*source),
{
    match source {
        SlotSource::Pid { .. } | SlotSource::Essence { .. } => true,
        _ => false,
    }
}

/// Whether one of the first `n` legs of a switch takes its stream from the
/// input `id`.
pub open spec fn has_leg(legs: Seq<SwitchLeg>, n: int, id: Seq<char>) -> bool {
    exists|i: int| 0 <= i < n && i < legs.len() && #[trigger] legs[i].spec_input_id() == id
}

fn finds_leg(legs: &Vec<SwitchLeg>, id: &str) -> (r: bool)
    ensures
        r == has_leg(legs@, legs@.len() as int, id@),
{
    let mut i: usize = 0;
    while i < legs.len()
        invariant
            i <= legs@.len(),
            !has_leg(legs@, i as int, id@),
        decreases legs.len() - i,
    {
        if text::str_eq(legs[i].input_id(), id) {
            return true;
        }
        i = i + 1;
    }
    false
}

/// The rules for the source of a stream. Both legs of a hitless pair are
/// streams of inputs; the settings of the pair are those of its mode. A switch
/// has up to 64 legs and starts with one of them.
pub open spec fn slot_fault(source: SlotSource, context: Seq<char>) -> Option<Seq<char>> {
    match source {
        SlotSource::Hitless {
            primary,
            backup,
            mode,
            stall_ms,
            reorder_window,
            path_differential_ms,
        } => error::check(
            !is_plain(*primary) || !is_plain(*backup),
            context + ": the legs of a hitless source must be pid or essence sources"@,
        ).otherwise(
            error::when(
                mode is PrimaryPreference && stall_ms is Some,
                bounds::bounds_fault(stall_ms->0 as nat, 20, 5000, "stall_ms"@, context),
            ),
        ).otherwise(
            error::check(
                mode is SeqAware && reorder_window is Some && !(64 <= reorder_window->0 <= 4096
                    && reorder_window->0 % 64 == 0),
                context + ": reorder_window must be a multiple of 64 in 64-4096"@,
            ),
        ).otherwise(
            error::when(
                mode is SeqAware,
                bounds::set_bounds_fault(
                    path_differential_ms,
                    5,
                    2000,
                    "path_differential_ms"@,
                    context,
                ),
            ),
        ),
        SlotSource::Switch { legs, initial_input_id, splice_mode, splice_budget_ms } =>
            bounds::bounds_fault(legs@.len(), 1, 64, "number of switch legs"@, context).otherwise(
            error::check(
                !has_leg(legs@, legs@.len() as int, initial_input_id@),
                context + ": initial_input_id '"@ + initial_input_id@
                    + "' is not the input of a switch leg"@,
            ),
        ).otherwise(
            error::when(
                splice_mode is PesAligned,
                bounds::set_bounds_fault(
                    splice_budget_ms,
                    20,
                    5000,
                    "splice_budget_ms"@,
                    context,
                ),
            ),
        ),
        _ => None,
    }
}

/// Checks the source of a stream.
pub fn validate_slot(source: &SlotSource, context: &str) -> (r: Result<(), ConfigError>)
    ensures
        error::is_outcome(r, slot_fault(*source, context@)),
{
    match source {
        SlotSource::Hitless {
            primary,
            backup,
            mode,
            stall_ms,
            reorder_window,
            path_differential_ms,
        } => {
            if !plain(primary) || !plain(backup) {
                return fail(
                    text::cat2(
                        context,
                        ": the legs of a hitless source must be pid or essence sources",
                    ),
                );
            }
            match mode {
                HitlessMode::PrimaryPreference => match *stall_ms {
                    Some(ms) => validate_bounds(ms, 20, 5000, "stall_ms", context),
                    None => Ok(()),
                },
                HitlessMode::SeqAware => {
                    if let Some(n) = *reorder_window {
                        if !(64 <= n && n <= 4096 && n % 64 == 0) {
                            return fail(
                                text::cat2(
                                    context,
                                    ": reorder_window must be a multiple of 64 in 64-4096",
                                ),
                            );
                        }
                    }
                    validate_set_bounds(
                        *path_differential_ms,
                        5,
                        2000,
                        "path_differential_ms",
                        context,
                    )
                },
            }
        },
        SlotSource::Switch { legs, initial_input_id, splice_mode, splice_budget_ms } => {
            validate_bounds(legs.len() as u64, 1, 64, "number of switch legs", context)?;
            if !finds_leg(legs, initial_input_id.as_str()) {
                return fail(
                    text::cat4(
                        context,
                        ": initial_input_id '",
                        initial_input_id.as_str(),
                        "' is not the input of a switch leg",
                    ),
                );
            }
            match splice_mode {
                SpliceMode::PesAligned => validate_set_bounds(
                    *splice_budget_ms,
                    20,
                    5000,
                    "splice_budget_ms",
                    context,
                ),
                SpliceMode::PmtBump => Ok(()),
            }
        },
        _ => Ok(()),
    }
}

// ---------------------------------------------------------------------------
// Streams and programs
// ---------------------------------------------------------------------------

/// Whether one of the first `n` streams is put on the packet identifier `pid`.
pub open spec fn stream_on(streams: Seq<AssembledStream>, n: int, pid: u16) -> bool {
    exists|i: int| 0 <= i < n && i < streams.len() && #[trigger] streams[i].out_pid == pid
}

fn is_stream_on(streams: &Vec<AssembledStream>, n: usize, pid: u16) -> (r: bool)
    requires
        n <= streams@.len(),
    ensures
        r == stream_on(streams@, n as int, pid),
{
    let mut i: usize = 0;
    while i < n
        invariant
            i <= n <= streams@.len(),
            !stream_on(streams@, i as int, pid),
        decreases n - i,
    {
        if streams[i].out_pid == pid {
            return true;
        }
        i = i + 1;
    }
    false
}

/// The check of every stream of a program: a packet identifier of its own that
/// may be assigned, and its source.
pub open spec fn stream_check(streams: Seq<AssembledStream>, context: Seq<char>) -> spec_fn(
    int,
    AssembledStream,
) -> Option<Seq<char>> {
    |i: int, stream: AssembledStream|
        error::check(
            !media::is_assignable(stream.out_pid),
            context + ": out_pid must be 0x0010-0x1FFE"@,
        ).otherwise(
            error::check(
                stream_on(streams, i, stream.out_pid),
                context + ": duplicate out_pid "@ + text::dec(stream.out_pid as nat),
            ),
        ).otherwise(slot_fault(stream.source, context))
}

fn validate_streams(streams: &Vec<AssembledStream>, context: &str) -> (r: Result<(), ConfigError>)
    ensures
        error::is_outcome(r, error::first_fault(streams@, stream_check(streams@, context@), 0)),
{
    let mut i: usize = 0;
    while i < streams.len()
        invariant
            i <= streams@.len(),
            error::first_fault(streams@, stream_check(streams@, context@), 0)
                == error::first_fault(streams@, stream_check(streams@, context@), i as int),
        decreases streams.len() - i,
    {
        let stream = &streams[i];
        if !assignable(stream.out_pid) {
            return fail(text::cat2(context, ": out_pid must be 0x0010-0x1FFE"));
        }
        if is_stream_on(streams, i, stream.out_pid) {
            return fail(
                text::cat3(
                    context,
                    ": duplicate out_pid ",
                    text::dec_string(stream.out_pid as u64).as_str(),
                ),
            );
        }
        validate_slot(&stream.source, context)?;
        i = i + 1;
    }
    Ok(())
}

/// Whether one of the first `n` programs has the number `number`.
pub open spec fn program_numbered(programs: Seq<AssembledProgram>, n: int, number: u16) -> bool {
    exists|i: int|
        0 <= i < n && i < programs.len() && #[trigger] programs[i].program_number == number
}

/// Whether one of the first `n` programs has its map on the packet identifier
/// `pid`.
pub open spec fn program_mapped(programs: Seq<AssembledProgram>, n: int, pid: u16) -> bool {
    exists|i: int| 0 <= i < n && i < programs.len() && #[trigger] programs[i].pmt_pid == pid
}

fn is_program_numbered(programs: &Vec<AssembledProgram>, n: usize, number: u16) -> (r: bool)
    requires
        n <= programs@.len(),
    ensures
        r == program_numbered(programs@, n as int, number),
{
    let mut i: usize = 0;
    while i < n
        invariant
            i <= n <= programs@.len(),
            !program_numbered(programs@, i as int, number),
        decreases n - i,
    {
        if programs[i].program_number == number {
            return true;
        }
        i = i + 1;
    }
    false
}

fn is_program_mapped(programs: &Vec<AssembledProgram>, n: usize, pid: u16) -> (r: bool)
    requires
        n <= programs@.len(),
    ensures
        r == program_mapped(programs@, n as int, pid),
{
    let mut i: usize = 0;
    while i < n
        invariant
            i <= n <= programs@.len(),
            !program_mapped(programs@, i as int, pid),
        decreases n - i,
    {
        if programs[i].pmt_pid == pid {
            return true;
        }
        i = i + 1;
    }
    false
}

/// The clock reference of a program: its own, or that of the assembly.
pub open spec fn reference_of(program: AssembledProgram, assembly: FlowAssembly) -> Option<
    PcrSource,
> {
    if program.pcr_source is Some {
        program.pcr_source
    } else {
        assembly.pcr_source
    }
}

/// The rules for the clock reference of a program, which is a stream of an
/// input of the flow. What is passed through keeps its own clock.
pub open spec fn reference_fault(
    program: AssembledProgram,
    assembly: FlowAssembly,
    input_ids: Seq<String>,
    context: Seq<char>,
) -> Option<Seq<char>> {
    let reference = reference_of(program, assembly);
    error::when(
        !(assembly.kind is Passthrough),
        error::check(reference is None, context + ": pcr_source is required"@).otherwise(
            error::check(
                !lookup::listed(input_ids, input_ids.len() as int, reference->0.input_id@),
                context + ": pcr_source input '"@ + reference->0.input_id@
                    + "' is not an input of the flow"@,
            ),
        ),
    )
}

fn validate_reference(
    program: &AssembledProgram,
    assembly: &FlowAssembly,
    input_ids: &Vec<String>,
    context: &str,
) -> (r: Result<(), ConfigError>)
    ensures
        error::is_outcome(r, reference_fault(*program, *assembly, input_ids@, context@)),
{
    if matches!(assembly.kind, AssemblyKind::Passthrough) {
        return Ok(());
    }
    let reference = match &program.pcr_source {
        Some(own) => own,
        None => match &assembly.pcr_source {
            Some(shared) => shared,
            None => return fail(text::cat2(context, ": pcr_source is required")),
        },
    };
    if !is_listed(input_ids, input_ids.len(), reference.input_id.as_str()) {
        return fail(
            text::cat4(
                context,
                ": pcr_source input '",
                reference.input_id.as_str(),
                "' is not an input of the flow",
            ),
        );
    }
    Ok(())
}

/// The check of every program of an assembly: a number and a map of its own, a
/// clock reference, and its streams.
pub open spec fn program_check(
    assembly: FlowAssembly,
    input_ids: Seq<String>,
    flow_id: Seq<char>,
) -> spec_fn(int, AssembledProgram) -> Option<Seq<char>> {
    |i: int, program: AssembledProgram|
        {
            let context = "Flow '"@ + flow_id + "' program "@ + text::dec(
                program.program_number as nat,
            );
            error::check(
                program.program_number == 0,
                "Flow '"@ + flow_id + "': assembled program_number must be > 0"@,
            ).otherwise(
                error::check(
                    program_numbered(assembly.programs@, i, program.program_number),
                    context + ": duplicate program_number"@,
                ),
            ).otherwise(
                error::check(
                    program_mapped(assembly.programs@, i, program.pmt_pid),
                    context + ": duplicate pmt_pid "@ + text::dec(program.pmt_pid as nat),
                ),
            ).otherwise(reference_fault(program, assembly, input_ids, context)).otherwise(
                error::first_fault(program.streams@, stream_check(program.streams@, context), 0),
            )
        }
}

/// The rules for the assembly of a flow: a single program, or one or more.
/// What is passed through needs none.
pub open spec fn assembly_fault(
    assembly: FlowAssembly,
    input_ids: Seq<String>,
    flow_id: Seq<char>,
) -> Option<Seq<char>> {
    error::check(
        assembly.kind is Spts && assembly.programs@.len() != 1,
        "Flow '"@ + flow_id + "': an spts assembly must have exactly one program"@,
    ).otherwise(
        error::check(
            assembly.kind is Mpts && assembly.programs@.len() == 0,
            "Flow '"@ + flow_id + "': an mpts assembly must have at least one program"@,
        ),
    ).otherwise(
        error::check(
            assembly.kind is Passthrough && assembly.programs@.len() > 1,
            "Flow '"@ + flow_id + "': a passthrough assembly must have at most one program"@,
        ),
    ).otherwise(
        error::first_fault(assembly.programs@, program_check(assembly, input_ids, flow_id), 0),
    )
}

fn validate_programs(assembly: &FlowAssembly, input_ids: &Vec<String>, flow_id: &str) -> (r: Result<
    (),
    ConfigError,
>)
    ensures
        error::is_outcome(
            r,
            error::first_fault(
                assembly.programs@,
                program_check(*assembly, input_ids@, flow_id@),
                0,
            ),
        ),
{
    let mut i: usize = 0;
    while i < assembly.programs.len()
        invariant
            i <= assembly.programs@.len(),
            error::first_fault(
                assembly.programs@,
                program_check(*assembly, input_ids@, flow_id@),
                0,
            ) == error::first_fault(
                assembly.programs@,
                program_check(*assembly, input_ids@, flow_id@),
                i as int,
            ),
        decreases assembly.programs.len() - i,
    {
        let program = &assembly.programs[i];
        if program.program_number == 0 {
            return fail(
                text::cat3("Flow '", flow_id, "': assembled program_number must be > 0"),
            );
        }
        let label = text::cat4(
            "Flow '",
            flow_id,
            "' program ",
            text::dec_string(program.program_number as u64).as_str(),
        );
        let context = label.as_str();
        if is_program_numbered(&assembly.programs, i, program.program_number) {
            return fail(text::cat2(context, ": duplicate program_number"));
        }
        if is_program_mapped(&assembly.programs, i, program.pmt_pid) {
            return fail(
                text::cat3(
                    context,
                    ": duplicate pmt_pid ",
                    text::dec_string(program.pmt_pid as u64).as_str(),
                ),
            );
        }
        validate_reference(program, assembly, input_ids, context)?;
        validate_streams(&program.streams, context)?;
        i = i + 1;
    }
    Ok(())
}

/// Checks the assembly of a flow.
pub fn validate_assembly(assembly: &FlowAssembly, input_ids: &Vec<String>, flow_id: &str) -> (r:
    Result<(), ConfigError>)
    ensures
        error::is_outcome(r, assembly_fault(*assembly, input_ids@, flow_id@)),
{
    let n: usize = assembly.programs.len();
    match assembly.kind {
        AssemblyKind::Spts => {
            if n != 1 {
                return fail(
                    text::cat3(
                        "Flow '",
                        flow_id,
                        "': an spts assembly must have exactly one program",
                    ),
                );
            }
        },
        AssemblyKind::Mpts => {
            if n == 0 {
                return fail(
                    text::cat3(
                        "Flow '",
                        flow_id,
                        "': an mpts assembly must have at least one program",
                    ),
                );
            }
        },
        AssemblyKind::Passthrough => {
            if n > 1 {
                return fail(
                    text::cat3(
                        "Flow '",
                        flow_id,
                        "': a passthrough assembly must have at most one program",
                    ),
                );
            }
        },
    }
    validate_programs(assembly, input_ids, flow_id)
}

// ---------------------------------------------------------------------------
// Sequence numbers
// ---------------------------------------------------------------------------

/// Whether the packets of an input carry sequence numbers: those of RTP, as RIST
/// has them too, and those of SRT.
pub open spec fn has_sequence(input: InputConfig) -> bool {
    input is Rtp || input is Rist || input is Srt
}

/// The input of a leg of a hitless pair.
pub open spec fn leg_input(leg: SlotSource) -> Option<Seq<char>> {
    match leg {
        SlotSource::Pid { input_id, .. } => Some(input_id@),
        SlotSource::Essence { input_id, .. } => Some(input_id@),
        _ => None,
    }
}

/// A leg of a pair that is merged by sequence numbers, which its input carries.
pub open spec fn sequenced_leg_fault(
    leg: SlotSource,
    inputs: Seq<InputDefinition>,
    flow_id: Seq<char>,
) -> Option<Seq<char>> {
    match leg_input(leg) {
        Some(id) => error::check(
            lookup::input_of(inputs, id) is Some && !has_sequence(
                lookup::input_of(inputs, id)->0.config,
            ),
            "Flow '"@ + flow_id + "': input '"@ + id
                + "' carries no sequence numbers for a seq_aware hitless source"@,
        ),
        None => None,
    }
}

fn validate_sequenced_leg(leg: &SlotSource, inputs: &Vec<InputDefinition>, flow_id: &str) -> (r:
    Result<(), ConfigError>)
    ensures
        error::is_outcome(r, sequenced_leg_fault(*leg, inputs@, flow_id@)),
{
    let id = match leg {
        SlotSource::Pid { input_id, .. } => input_id,
        SlotSource::Essence { input_id, .. } => input_id,
        _ => return Ok(()),
    };
    if let Some(def) = find_input(inputs, id.as_str()) {
        match &def.config {
            InputConfig::Rtp(_) | InputConfig::Rist(_) | InputConfig::Srt(_) => {},
            _ => {
                return fail(
                    text::cat5(
                        "Flow '",
                        flow_id,
                        "': input '",
                        id.as_str(),
                        "' carries no sequence numbers for a seq_aware hitless source",
                    ),
                );
            },
        }
    }
    Ok(())
}

/// The check of every stream of a program against the inputs: both legs of a
/// pair that is merged by sequence numbers.
pub open spec fn sequenced_stream_check(
    inputs: Seq<InputDefinition>,
    flow_id: Seq<char>,
) -> spec_fn(int, AssembledStream) -> Option<Seq<char>> {
    |i: int, stream: AssembledStream|
        match stream.source {
            SlotSource::Hitless { primary, backup, mode, .. } => error::when(
                mode is SeqAware,
                sequenced_leg_fault(*primary, inputs, flow_id).otherwise(
                    sequenced_leg_fault(*backup, inputs, flow_id),
                ),
            ),
            _ => None,
        }
}

fn validate_sequenced_streams(
    streams: &Vec<AssembledStream>,
    inputs: &Vec<InputDefinition>,
    flow_id: &str,
) -> (r: Result<(), ConfigError>)
    ensures
        error::is_outcome(
            r,
            error::first_fault(streams@, sequenced_stream_check(inputs@, flow_id@), 0),
        ),
{
    let mut i: usize = 0;
    while i < streams.len()
        invariant
            i <= streams@.len(),
            error::first_fault(streams@, sequenced_stream_check(inputs@, flow_id@), 0)
                == error::first_fault(
                streams@,
                sequenced_stream_check(inputs@, flow_id@),
                i as int,
            ),
        decreases streams.len() - i,
    {
        if let SlotSource::Hitless { primary, backup, mode, .. } = &streams[i].source {
            if matches!(mode, HitlessMode::SeqAware) {
                validate_sequenced_leg(primary, inputs, flow_id)?;
                validate_sequenced_leg(backup, inputs, flow_id)?;
            }
        }
        i = i + 1;
    }
    Ok(())
}

/// The check of every program of an assembly against the inputs.
pub open spec fn sequenced_program_check(
    inputs: Seq<InputDefinition>,
    flow_id: Seq<char>,
) -> spec_fn(int, AssembledProgram) -> Option<Seq<char>> {
    |i: int, program: AssembledProgram|
        error::first_fault(program.streams@, sequenced_stream_check(inputs, flow_id), 0)
}

/// The assembly of a flow against the inputs that it takes its streams from.
pub open spec fn sequences_fault(flow: FlowConfig, inputs: Seq<InputDefinition>) -> Option<
    Seq<char>,
> {
    error::when(
        flow.assembly is Some,
        error::first_fault(
            flow.assembly->0.programs@,
            sequenced_program_check(inputs, flow.id@),
            0,
        ),
    )
}

/// Checks the assembly of a flow against the inputs that it takes its streams
/// from.
pub fn validate_sequences(flow: &FlowConfig, inputs: &Vec<InputDefinition>) -> (r: Result<
    (),
    ConfigError,
>)
    ensures
        error::is_outcome(r, sequences_fault(*flow, inputs@)),
{
    if let Some(assembly) = &flow.assembly {
        let programs = &assembly.programs;
        let mut i: usize = 0;
        while i < programs.len()
            invariant
                i <= programs@.len(),
                flow.assembly is Some,
                *programs == flow.assembly->0.programs,
                error::first_fault(programs@, sequenced_program_check(inputs@, flow.id@), 0)
                    == error::first_fault(
                    programs@,
                    sequenced_program_check(inputs@, flow.id@),
                    i as int,
                ),
            decreases programs.len() - i,
        {
            validate_sequenced_streams(&programs[i].streams, inputs, flow.id.as_str())?;
            i = i + 1;
        }
    }
    Ok(())
}

} // verus!
