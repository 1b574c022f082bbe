//! Validation of the configuration.
//!
//! Every check is stated as a function from the configuration to the message
//! of the first failure, or none; the executable check returns exactly that.

use vstd::prelude::*;

use crate::error;
use crate::error::{fail, Checks, ConfigError};
use crate::lookup;
use crate::lookup::{find_input, find_output, is_listed};
use crate::models::{AppConfig, FlowConfig, InputConfig, InputDefinition, OutputConfig};
use crate::text;

pub mod assembly;
pub mod bonds;
pub mod bounds;
pub mod check_laws;
pub mod config_laws;
pub mod encode;
pub mod encode_laws;
pub mod fields;
pub mod flow_laws;
pub mod flows;
pub mod formats;
pub mod input_laws;
pub mod input_refusals;
pub mod inputs;
pub mod laws;
pub mod media;
pub mod media_laws;
pub mod node;
pub mod node_laws;
pub mod node_refusals;
pub mod output_laws;
pub mod output_refusals;
pub mod outputs;
pub mod port_labels;
pub mod port_laws;
pub mod ports;
pub mod rist;
pub mod sockets;
pub mod srt;
pub mod st2110;
pub mod tunnels;

pub use encode::{validate_audio_encode, validate_transcode_block, validate_video_encode};
pub use flows::validate_flow;
pub use inputs::{validate_input, validate_input_definition};
pub use outputs::{validate_output, validate_output_with_input};
pub use st2110::{
    validate_st2110_ancillary_input, validate_st2110_audio_input, validate_st2110_audio_output,
    St2110Profile,
};
pub use tunnels::validate_tunnel;

verus! {

// ---------------------------------------------------------------------------
// Top-level inputs and outputs
// ---------------------------------------------------------------------------

/// Whether one of the first `n` inputs has the identifier `id`.
pub open spec fn input_defined(inputs: Seq<InputDefinition>, n: int, id: Seq<char>) -> bool {
    exists|i: int| 0 <= i < n && i < inputs.len() && #[trigger] inputs[i].id@ == id
}

/// Whether one of the first `n` outputs has the identifier `id`.
pub open spec fn output_defined(outputs: Seq<OutputConfig>, n: int, id: Seq<char>) -> bool {
    exists|i: int| 0 <= i < n && i < outputs.len() && #[trigger] outputs[i].spec_id() == id
}

fn is_input_defined(inputs: &Vec<InputDefinition>, n: usize, id: &str) -> (r: bool)
    requires
        n <= inputs@.len(),
    ensures
        r == input_defined(inputs@, n as int, id@),
{
    let mut i: usize = 0;
    while i < n
        invariant
            i <= n <= inputs@.len(),
            forall|j: int| 0 <= j < i ==> #[trigger] inputs@[j].id@ != id@,
        decreases n - i,
    {
        if text::str_eq(inputs[i].id.as_str(), id) {
            assert(inputs@[i as int].id@ == id@);
            return true;
        }
        i = i + 1;
    }
    false
}

fn is_output_defined(outputs: &Vec<OutputConfig>, n: usize, id: &str) -> (r: bool)
    requires
        n <= outputs@.len(),
    ensures
        r == output_defined(outputs@, n as int, id@),
{
    let mut i: usize = 0;
    while i < n
        invariant
            i <= n <= outputs@.len(),
            forall|j: int| 0 <= j < i ==> #[trigger] outputs@[j].spec_id() != id@,
        decreases n - i,
    {
        if text::str_eq(outputs[i].id(), id) {
            assert(outputs@[i as int].spec_id() == id@);
            return true;
        }
        i = i + 1;
    }
    false
}

/// The check of every input definition: an identifier that no earlier one has,
/// then its own rules.
pub open spec fn input_check(inputs: Seq<InputDefinition>) -> spec_fn(int, InputDefinition) -> Option<
    Seq<char>,
> {
    |i: int, def: InputDefinition|
        error::check(
            input_defined(inputs, i, def.id@),
            "Duplicate top-level input ID: "@ + def.id@,
        ).otherwise(inputs::input_definition_fault(def))
}

/// All input definitions.
pub open spec fn inputs_fault(inputs: Seq<InputDefinition>) -> Option<Seq<char>> {
    error::first_fault(inputs, input_check(inputs), 0)
}

/// Checks all input definitions.
pub fn validate_inputs(inputs: &Vec<InputDefinition>) -> (r: Result<(), ConfigError>)
    ensures
        error::is_outcome(r, inputs_fault(inputs@)),
{
    let ghost test = input_check(inputs@);
    let mut i: usize = 0;
    while i < inputs.len()
        invariant
            i <= inputs@.len(),
            test == input_check(inputs@),
            error::first_fault(inputs@, test, 0) == error::first_fault(inputs@, test, i as int),
        decreases inputs.len() - i,
    {
        let def = &inputs[i];
        if is_input_defined(inputs, i, def.id.as_str()) {
            return fail(text::cat2("Duplicate top-level input ID: ", def.id.as_str()));
        }
        validate_input_definition(def)?;
        i = i + 1;
    }
    Ok(())
}

/// The check of every output: an identifier that no earlier one has, then its
/// own rules.
pub open spec fn output_check(outputs: Seq<OutputConfig>) -> spec_fn(int, OutputConfig) -> Option<
    Seq<char>,
> {
    |i: int, output: OutputConfig|
        error::check(
            output_defined(outputs, i, output.spec_id()),
            "Duplicate top-level output ID: "@ + output.spec_id(),
        ).otherwise(outputs::output_fault(output, None))
}

/// All outputs, each on its own.
pub open spec fn outputs_fault(outputs: Seq<OutputConfig>) -> Option<Seq<char>> {
    error::first_fault(outputs, output_check(outputs), 0)
}

/// Checks all outputs, each on its own.
pub fn validate_outputs(outputs: &Vec<OutputConfig>) -> (r: Result<(), ConfigError>)
    ensures
        error::is_outcome(r, outputs_fault(outputs@)),
{
    let ghost test = output_check(outputs@);
    let mut i: usize = 0;
    while i < outputs.len()
        invariant
            i <= outputs@.len(),
            test == output_check(outputs@),
            error::first_fault(outputs@, test, 0) == error::first_fault(outputs@, test, i as int),
        decreases outputs.len() - i,
    {
        let output = &outputs[i];
        if is_output_defined(outputs, i, output.id()) {
            return fail(text::cat2("Duplicate top-level output ID: ", output.id()));
        }
        validate_output(output)?;
        i = i + 1;
    }
    Ok(())
}

// ---------------------------------------------------------------------------
// References of flows
// ---------------------------------------------------------------------------

/// Whether one of the first `n` flows uses the input `id`.
pub open spec fn input_taken(flows: Seq<FlowConfig>, n: int, id: Seq<char>) -> bool {
    exists|k: int|
        0 <= k < n && k < flows.len() && #[trigger] lookup::listed(
            flows[k].input_ids@,
            flows[k].input_ids@.len() as int,
            id,
        )
}

/// Whether one of the first `n` flows uses the output `id`.
pub open spec fn output_taken(flows: Seq<FlowConfig>, n: int, id: Seq<char>) -> bool {
    exists|k: int|
        0 <= k < n && k < flows.len() && #[trigger] lookup::listed(
            flows[k].output_ids@,
            flows[k].output_ids@.len() as int,
            id,
        )
}

fn is_input_taken(flows: &Vec<FlowConfig>, n: usize, id: &str) -> (r: bool)
    requires
        n <= flows@.len(),
    ensures
        r == input_taken(flows@, n as int, id@),
{
    let mut k: usize = 0;
    while k < n
        invariant
            k <= n <= flows@.len(),
            forall|j: int|
                0 <= j < k ==> !#[trigger] lookup::listed(
                    flows@[j].input_ids@,
                    flows@[j].input_ids@.len() as int,
                    id@,
                ),
        decreases n - k,
    {
        if is_listed(&flows[k].input_ids, flows[k].input_ids.len(), id) {
            assert(lookup::listed(
                flows@[k as int].input_ids@,
                flows@[k as int].input_ids@.len() as int,
                id@,
            ));
            return true;
        }
        k = k + 1;
    }
    false
}

fn is_output_taken(flows: &Vec<FlowConfig>, n: usize, id: &str) -> (r: bool)
    requires
        n <= flows@.len(),
    ensures
        r == output_taken(flows@, n as int, id@),
{
    let mut k: usize = 0;
    while k < n
        invariant
            k <= n <= flows@.len(),
            forall|j: int|
                0 <= j < k ==> !#[trigger] lookup::listed(
                    flows@[j].output_ids@,
                    flows@[j].output_ids@.len() as int,
                    id@,
                ),
        decreases n - k,
    {
        if is_listed(&flows[k].output_ids, flows[k].output_ids.len(), id) {
            assert(lookup::listed(
                flows@[k as int].output_ids@,
                flows@[k as int].output_ids@.len() as int,
                id@,
            ));
            return true;
        }
        k = k + 1;
    }
    false
}

/// The check of every input that flow number `k` names: named once, defined,
/// and not used by an earlier flow.
pub open spec fn flow_input_check(config: AppConfig, k: int) -> spec_fn(int, String) -> Option<
    Seq<char>,
> {
    let flow = config.flows@[k];
    |i: int, iid: String|
        error::check(
            lookup::listed(flow.input_ids@, i, iid@),
            "Flow '"@ + flow.id@ + "': duplicate input_id reference '"@ + iid@ + "'"@,
        ).otherwise(
            error::check(
                !input_defined(config.inputs@, config.inputs@.len() as int, iid@),
                "Flow '"@ + flow.id@ + "': input_id '"@ + iid@
                    + "' does not reference a defined top-level input"@,
            ),
        ).otherwise(
            error::check(
                input_taken(config.flows@, k, iid@),
                "Flow '"@ + flow.id@ + "': input '"@ + iid@
                    + "' is already assigned to another flow"@,
            ),
        )
}

/// The check of every output that flow number `k` names.
pub open spec fn flow_output_check(config: AppConfig, k: int) -> spec_fn(int, String) -> Option<
    Seq<char>,
> {
    let flow = config.flows@[k];
    |i: int, oid: String|
        error::check(
            lookup::listed(flow.output_ids@, i, oid@),
            "Flow '"@ + flow.id@ + "': duplicate output_id reference '"@ + oid@ + "'"@,
        ).otherwise(
            error::check(
                !output_defined(config.outputs@, config.outputs@.len() as int, oid@),
                "Flow '"@ + flow.id@ + "': output_id '"@ + oid@
                    + "' does not reference a defined top-level output"@,
            ),
        ).otherwise(
            error::check(
                output_taken(config.flows@, k, oid@),
                "Flow '"@ + flow.id@ + "': output '"@ + oid@
                    + "' is already assigned to another flow"@,
            ),
        )
}

/// Whether the input `id` is defined and active.
pub open spec fn is_active_input(inputs: Seq<InputDefinition>, id: Seq<char>) -> bool {
    lookup::input_of(inputs, id) matches Some(def) && def.active
}

/// How many of the first `n` inputs that a flow names are active.
pub open spec fn active_count(ids: Seq<String>, n: int, inputs: Seq<InputDefinition>) -> nat
    decreases n,
{
    if n <= 0 {
        0
    } else {
        active_count(ids, n - 1, inputs) + if is_active_input(inputs, ids[n - 1]@) {
            1nat
        } else {
            0
        }
    }
}

/// Flow number `k` within the configuration: an identifier that no earlier flow
/// has, its own rules, its inputs, at most one of them active, its outputs.
pub open spec fn flow_in_config_fault(config: AppConfig, k: int) -> Option<Seq<char>> {
    let flow = config.flows@[k];
    let active = active_count(flow.input_ids@, flow.input_ids@.len() as int, config.inputs@);
    error::check(
        flows::flow_defined(config.flows@, k, flow.id@),
        "Duplicate flow ID: "@ + flow.id@,
    ).otherwise(flows::flow_fault(flow)).otherwise(
        error::first_fault(flow.input_ids@, flow_input_check(config, k), 0),
    ).otherwise(
        error::check(
            active > 1,
            "Flow '"@ + flow.id@ + "': at most one input may be active at a time, found "@
                + text::dec(active),
        ),
    ).otherwise(error::first_fault(flow.output_ids@, flow_output_check(config, k), 0))
}

fn validate_flow_inputs(config: &AppConfig, k: usize) -> (r: Result<(), ConfigError>)
    requires
        k < config.flows@.len(),
    ensures
        error::is_outcome(
            r,
            error::first_fault(
                config.flows@[k as int].input_ids@,
                flow_input_check(*config, k as int),
                0,
            ),
        ),
{
    let flow = &config.flows[k];
    let ghost test = flow_input_check(*config, k as int);
    let mut i: usize = 0;
    while i < flow.input_ids.len()
        invariant
            k < config.flows@.len(),
            *flow == config.flows@[k as int],
            i <= flow.input_ids@.len(),
            test == flow_input_check(*config, k as int),
            error::first_fault(flow.input_ids@, test, 0) == error::first_fault(
                flow.input_ids@,
                test,
                i as int,
            ),
        decreases flow.input_ids.len() - i,
    {
        let iid = flow.input_ids[i].as_str();
        if is_listed(&flow.input_ids, i, iid) {
            return fail(
                text::cat5(
                    "Flow '",
                    flow.id.as_str(),
                    "': duplicate input_id reference '",
                    iid,
                    "'",
                ),
            );
        }
        if !is_input_defined(&config.inputs, config.inputs.len(), iid) {
            return fail(
                text::cat5(
                    "Flow '",
                    flow.id.as_str(),
                    "': input_id '",
                    iid,
                    "' does not reference a defined top-level input",
                ),
            );
        }
        if is_input_taken(&config.flows, k, iid) {
            return fail(
                text::cat5(
                    "Flow '",
                    flow.id.as_str(),
                    "': input '",
                    iid,
                    "' is already assigned to another flow",
                ),
            );
        }
        i = i + 1;
    }
    Ok(())
}

fn validate_flow_outputs(config: &AppConfig, k: usize) -> (r: Result<(), ConfigError>)
    requires
        k < config.flows@.len(),
    ensures
        error::is_outcome(
            r,
            error::first_fault(
                config.flows@[k as int].output_ids@,
                flow_output_check(*config, k as int),
                0,
            ),
        ),
{
    let flow = &config.flows[k];
    let ghost test = flow_output_check(*config, k as int);
    let mut i: usize = 0;
    while i < flow.output_ids.len()
        invariant
            k < config.flows@.len(),
            *flow == config.flows@[k as int],
            i <= flow.output_ids@.len(),
            test == flow_output_check(*config, k as int),
            error::first_fault(flow.output_ids@, test, 0) == error::first_fault(
                flow.output_ids@,
                test,
                i as int,
            ),
        decreases flow.output_ids.len() - i,
    {
        let oid = flow.output_ids[i].as_str();
        if is_listed(&flow.output_ids, i, oid) {
            return fail(
                text::cat5(
                    "Flow '",
                    flow.id.as_str(),
                    "': duplicate output_id reference '",
                    oid,
                    "'",
                ),
            );
        }
        if !is_output_defined(&config.outputs, config.outputs.len(), oid) {
            return fail(
                text::cat5(
                    "Flow '",
                    flow.id.as_str(),
                    "': output_id '",
                    oid,
                    "' does not reference a defined top-level output",
                ),
            );
        }
        if is_output_taken(&config.flows, k, oid) {
            return fail(
                text::cat5(
                    "Flow '",
                    flow.id.as_str(),
                    "': output '",
                    oid,
                    "' is already assigned to another flow",
                ),
            );
        }
        i = i + 1;
    }
    Ok(())
}

fn count_active(flow: &FlowConfig, inputs: &Vec<InputDefinition>) -> (n: usize)
    ensures
        n == active_count(flow.input_ids@, flow.input_ids@.len() as int, inputs@),
{
    let mut n: usize = 0;
    let mut i: usize = 0;
    while i < flow.input_ids.len()
        invariant
            i <= flow.input_ids@.len(),
            n <= i,
            n == active_count(flow.input_ids@, i as int, inputs@),
        decreases flow.input_ids.len() - i,
    {
        if let Some(def) = find_input(inputs, flow.input_ids[i].as_str()) {
            if def.active {
                n = n + 1;
            }
        }
        i = i + 1;
    }
    n
}

/// Checks flow number `k` within the configuration.
pub fn validate_flow_in_config(config: &AppConfig, k: usize) -> (r: Result<(), ConfigError>)
    requires
        k < config.flows@.len(),
    ensures
        error::is_outcome(r, flow_in_config_fault(*config, k as int)),
{
    let flow = &config.flows[k];
    if flows::is_flow_defined(&config.flows, k, flow.id.as_str()) {
        return fail(text::cat2("Duplicate flow ID: ", flow.id.as_str()));
    }
    validate_flow(flow)?;
    validate_flow_inputs(config, k)?;
    let active: usize = count_active(flow, &config.inputs);
    if active > 1 {
        return fail(
            text::cat4(
                "Flow '",
                flow.id.as_str(),
                "': at most one input may be active at a time, found ",
                text::dec_string(active as u64).as_str(),
            ),
        );
    }
    validate_flow_outputs(config, k)
}

/// The check of every flow.
pub open spec fn flow_check(config: AppConfig) -> spec_fn(int, FlowConfig) -> Option<Seq<char>> {
    |k: int, flow: FlowConfig| flow_in_config_fault(config, k)
}

/// All flows, within the configuration.
pub open spec fn flows_fault(config: AppConfig) -> Option<Seq<char>> {
    error::first_fault(config.flows@, flow_check(config), 0)
}

/// Checks all flows, within the configuration.
pub fn validate_flows(config: &AppConfig) -> (r: Result<(), ConfigError>)
    ensures
        error::is_outcome(r, flows_fault(*config)),
{
    let ghost test = flow_check(*config);
    let mut k: usize = 0;
    while k < config.flows.len()
        invariant
            k <= config.flows@.len(),
            test == flow_check(*config),
            error::first_fault(config.flows@, test, 0) == error::first_fault(
                config.flows@,
                test,
                k as int,
            ),
        decreases config.flows.len() - k,
    {
        validate_flow_in_config(config, k)?;
        k = k + 1;
    }
    Ok(())
}

// ---------------------------------------------------------------------------
// Outputs against the audio that reaches them
// ---------------------------------------------------------------------------

/// The shape (sample rate, bit depth, channels) of the audio of an input that
/// is itself uncompressed audio.
pub open spec fn audio_shape(input: InputConfig) -> Option<(u32, u8, u8)> {
    match input {
        InputConfig::St2110_30(c) | InputConfig::St2110_31(c) => Some(
            (c.sample_rate, c.bit_depth, c.channels),
        ),
        InputConfig::RtpAudio(c) => Some((c.sample_rate, c.bit_depth, c.channels)),
        _ => None,
    }
}

/// The shape of the audio of an input that is itself uncompressed audio.
pub fn upstream_audio_shape(input: &InputConfig) -> (r: Option<(u32, u8, u8)>)
    ensures
        r == audio_shape(*input),
{
    match input {
        InputConfig::St2110_30(c) | InputConfig::St2110_31(c) => Some(
            (c.sample_rate, c.bit_depth, c.channels),
        ),
        InputConfig::RtpAudio(c) => Some((c.sample_rate, c.bit_depth, c.channels)),
        _ => None,
    }
}

/// The shape of the audio that the active input of a flow delivers: that of
/// the first active input that the flow names, from place `from` on.
pub open spec fn upstream_of(ids: Seq<String>, from: int, inputs: Seq<InputDefinition>) -> Option<
    (u32, u8, u8),
>
    decreases ids.len() - from,
{
    if !(0 <= from < ids.len()) {
        None
    } else if is_active_input(inputs, ids[from]@) {
        audio_shape(lookup::input_of(inputs, ids[from]@)->0.config)
    } else {
        upstream_of(ids, from + 1, inputs)
    }
}

fn flow_upstream(flow: &FlowConfig, inputs: &Vec<InputDefinition>) -> (r: Option<(u32, u8, u8)>)
    ensures
        r == upstream_of(flow.input_ids@, 0, inputs@),
{
    let mut i: usize = 0;
    while i < flow.input_ids.len()
        invariant
            i <= flow.input_ids@.len(),
            upstream_of(flow.input_ids@, 0, inputs@) == upstream_of(
                flow.input_ids@,
                i as int,
                inputs@,
            ),
        decreases flow.input_ids.len() - i,
    {
        if let Some(def) = find_input(inputs, flow.input_ids[i].as_str()) {
            if def.active {
                return upstream_audio_shape(&def.config);
            }
        }
        i = i + 1;
    }
    None
}

/// The check of every output of a flow against the audio that reaches it.
pub open spec fn fed_output_check(
    outputs: Seq<OutputConfig>,
    upstream: Option<(u32, u8, u8)>,
) -> spec_fn(int, String) -> Option<Seq<char>> {
    |i: int, oid: String|
        match lookup::output_of(outputs, oid@) {
            Some(output) => outputs::output_fault(output, upstream),
            None => None,
        }
}

/// The outputs of a flow against the audio that reaches them, where the active
/// input is uncompressed audio.
pub open spec fn fed_outputs_fault(config: AppConfig, flow: FlowConfig) -> Option<Seq<char>> {
    let upstream = upstream_of(flow.input_ids@, 0, config.inputs@);
    error::when(
        upstream is Some,
        error::first_fault(flow.output_ids@, fed_output_check(config.outputs@, upstream), 0),
    )
}

fn validate_fed_outputs(config: &AppConfig, flow: &FlowConfig) -> (r: Result<(), ConfigError>)
    ensures
        error::is_outcome(r, fed_outputs_fault(*config, *flow)),
{
    let upstream = flow_upstream(flow, &config.inputs);
    if upstream.is_some() {
        let ghost test = fed_output_check(config.outputs@, upstream);
        let mut i: usize = 0;
        while i < flow.output_ids.len()
            invariant
                i <= flow.output_ids@.len(),
                upstream is Some,
                upstream == upstream_of(flow.input_ids@, 0, config.inputs@),
                test == fed_output_check(config.outputs@, upstream),
                error::first_fault(flow.output_ids@, test, 0) == error::first_fault(
                    flow.output_ids@,
                    test,
                    i as int,
                ),
            decreases flow.output_ids.len() - i,
        {
            if let Some(output) = find_output(&config.outputs, flow.output_ids[i].as_str()) {
                validate_output_with_input(output, upstream)?;
            }
            i = i + 1;
        }
    }
    Ok(())
}

/// The check of every flow's outputs against the audio that reaches them.
pub open spec fn fed_flow_check(config: AppConfig) -> spec_fn(int, FlowConfig) -> Option<Seq<char>> {
    |k: int, flow: FlowConfig| fed_outputs_fault(config, flow)
}

/// All outputs against the audio that reaches them.
pub open spec fn all_fed_outputs_fault(config: AppConfig) -> Option<Seq<char>> {
    error::first_fault(config.flows@, fed_flow_check(config), 0)
}

fn validate_all_fed_outputs(config: &AppConfig) -> (r: Result<(), ConfigError>)
    ensures
        error::is_outcome(r, all_fed_outputs_fault(*config)),
{
    let ghost test = fed_flow_check(*config);
    let mut k: usize = 0;
    while k < config.flows.len()
        invariant
            k <= config.flows@.len(),
            test == fed_flow_check(*config),
            error::first_fault(config.flows@, test, 0) == error::first_fault(
                config.flows@,
                test,
                k as int,
            ),
        decreases config.flows.len() - k,
    {
        validate_fed_outputs(config, &config.flows[k])?;
        k = k + 1;
    }
    Ok(())
}

// ---------------------------------------------------------------------------
// The whole configuration
// ---------------------------------------------------------------------------

/// The rules of a configuration, in the order in which they are checked.
pub open spec fn config_fault(config: AppConfig) -> Option<Seq<char>> {
    node::node_fault(config).otherwise(inputs_fault(config.inputs@)).otherwise(
        outputs_fault(config.outputs@),
    ).otherwise(flows_fault(config)).otherwise(all_fed_outputs_fault(config)).otherwise(
        flows::flow_groups_fault(config.flow_groups@, config.flows@),
    ).otherwise(flows::memberships_fault(config.flows@, config.flow_groups@)).otherwise(
        ports::port_conflicts_fault(config),
    ).otherwise(media::carriage_fault(config))
}

/// Checks the whole configuration: the node's own settings, the inputs, the
/// outputs, the flows with what they name, the outputs against the audio that
/// reaches them, the flow groups, the ports that are bound, and what
/// the flows carry. The error is that of the first check that fails.
pub fn validate_config(config: &AppConfig) -> (r: Result<(), ConfigError>)
    ensures
        error::is_outcome(r, config_fault(*config)),
{
    node::validate_node(config)?;
    validate_inputs(&config.inputs)?;
    validate_outputs(&config.outputs)?;
    validate_flows(config)?;
    validate_all_fed_outputs(config)?;
    flows::validate_flow_groups(&config.flow_groups, &config.flows)?;
    flows::validate_memberships(&config.flows, &config.flow_groups)?;
    ports::validate_port_conflicts(config)?;
    media::validate_carriage(config)
}

} // verus!
