//! What holds of every configuration that passes validation.

use vstd::prelude::*;

use super::{assembly, bonds, flows, media, ports};
use crate::error;
use crate::lookup;
use crate::models::{
    AppConfig, BondPathTransportConfig, BondedInputConfig, BondedOutputConfig, FlowAssembly,
    InputConfig, InputDefinition, OutputConfig,
};
use crate::resolve;
use crate::text;

verus! {

/// What each part of the validation says of a configuration that passes.
proof fn lemma_parts(config: AppConfig)
    requires
        super::config_fault(config) is None,
    ensures
        super::inputs_fault(config.inputs@) is None,
        super::outputs_fault(config.outputs@) is None,
        super::flows_fault(config) is None,
        super::all_fed_outputs_fault(config) is None,
        flows::flow_groups_fault(config.flow_groups@, config.flows@) is None,
        flows::memberships_fault(config.flows@, config.flow_groups@) is None,
        ports::port_conflicts_fault(config) is None,
{
}

proof fn lemma_flow_passes(config: AppConfig, k: int)
    requires
        super::config_fault(config) is None,
        0 <= k < config.flows@.len(),
    ensures
        super::flow_in_config_fault(config, k) is None,
{
    lemma_parts(config);
    error::lemma_first_fault_none(config.flows@, super::flow_check(config), 0);
    assert(super::flow_check(config)(k, config.flows@[k]) is None);
}

/// In an accepted configuration no two inputs share an identifier.
pub proof fn lemma_accepted_input_ids_are_distinct(config: AppConfig, i: int, j: int)
    requires
        super::config_fault(config) is None,
        0 <= i < j < config.inputs@.len(),
    ensures
        config.inputs@[i].id@ != config.inputs@[j].id@,
{
    lemma_parts(config);
    let test = super::input_check(config.inputs@);
    error::lemma_first_fault_none(config.inputs@, test, 0);
    assert(test(j, config.inputs@[j]) is None);
}

/// In an accepted configuration no two outputs share an identifier.
pub proof fn lemma_accepted_output_ids_are_distinct(config: AppConfig, i: int, j: int)
    requires
        super::config_fault(config) is None,
        0 <= i < j < config.outputs@.len(),
    ensures
        config.outputs@[i].spec_id() != config.outputs@[j].spec_id(),
{
    lemma_parts(config);
    let test = super::output_check(config.outputs@);
    error::lemma_first_fault_none(config.outputs@, test, 0);
    assert(test(j, config.outputs@[j]) is None);
}

/// In an accepted configuration no two flows share an identifier.
pub proof fn lemma_accepted_flow_ids_are_distinct(config: AppConfig, i: int, j: int)
    requires
        super::config_fault(config) is None,
        0 <= i < j < config.flows@.len(),
    ensures
        config.flows@[i].id@ != config.flows@[j].id@,
{
    lemma_flow_passes(config, j);
}

/// In an accepted configuration no two flow groups share an identifier.
pub proof fn lemma_accepted_group_ids_are_distinct(config: AppConfig, i: int, j: int)
    requires
        super::config_fault(config) is None,
        0 <= i < j < config.flow_groups@.len(),
    ensures
        config.flow_groups@[i].id@ != config.flow_groups@[j].id@,
{
    lemma_parts(config);
    let test = flows::flow_group_check(config.flow_groups@, config.flows@);
    error::lemma_first_fault_none(config.flow_groups@, test, 0);
    assert(test(j, config.flow_groups@[j]) is None);
}

/// Every flow of an accepted configuration resolves: the inputs and outputs
/// that it names exist.
pub proof fn lemma_accepted_flow_resolves(config: AppConfig, k: int)
    requires
        super::config_fault(config) is None,
        0 <= k < config.flows@.len(),
    ensures
        resolve::resolve_fault(config, config.flows@[k]) is None,
{
    lemma_flow_passes(config, k);
    let flow = config.flows@[k];
    let (ids, test) = (flow.input_ids@, super::flow_input_check(config, k));
    error::lemma_first_fault_none(ids, test, 0);
    let exists_test = resolve::input_exists_check(config.inputs@, flow.id@);
    error::lemma_first_fault_none(ids, exists_test, 0);
    assert forall|i: int| 0 <= i < ids.len() implies (#[trigger] exists_test(i, ids[i])) is None by {
        assert(test(i, ids[i]) is None);
        let p = lookup::input_named(ids[i]@);
        lookup::lemma_find(config.inputs@, p);
        let n = choose|n: int|
            0 <= n < config.inputs@.len() && #[trigger] config.inputs@[n].id@ == ids[i]@;
        assert(p(config.inputs@[n]));
    }
    let (ids, test) = (flow.output_ids@, super::flow_output_check(config, k));
    error::lemma_first_fault_none(ids, test, 0);
    let exists_test = resolve::output_exists_check(config.outputs@, flow.id@);
    error::lemma_first_fault_none(ids, exists_test, 0);
    assert forall|i: int| 0 <= i < ids.len() implies (#[trigger] exists_test(i, ids[i])) is None by {
        assert(test(i, ids[i]) is None);
        let p = lookup::output_named(ids[i]@);
        lookup::lemma_find(config.outputs@, p);
        let n = choose|n: int|
            0 <= n < config.outputs@.len() && #[trigger] config.outputs@[n].spec_id() == ids[i]@;
        assert(p(config.outputs@[n]));
    }
}

/// In an accepted configuration no two flows use the same input.
pub proof fn lemma_accepted_inputs_are_used_once(config: AppConfig, j: int, k: int, id: Seq<char>)
    requires
        super::config_fault(config) is None,
        0 <= j < k < config.flows@.len(),
        lookup::listed(
            config.flows@[j].input_ids@,
            config.flows@[j].input_ids@.len() as int,
            id,
        ),
    ensures
        !lookup::listed(
            config.flows@[k].input_ids@,
            config.flows@[k].input_ids@.len() as int,
            id,
        ),
{
    lemma_flow_passes(config, k);
    let (ids, test) = (config.flows@[k].input_ids@, super::flow_input_check(config, k));
    error::lemma_first_fault_none(ids, test, 0);
    assert forall|i: int| 0 <= i < ids.len() implies #[trigger] ids[i]@ != id by {
        assert(test(i, ids[i]) is None);
        assert(!super::input_taken(config.flows@, k, ids[i]@));
        if ids[i]@ == id {
            assert(super::input_taken(config.flows@, k, id));
        }
    }
}

/// In an accepted configuration no two flows use the same output.
pub proof fn lemma_accepted_outputs_are_used_once(config: AppConfig, j: int, k: int, id: Seq<char>)
    requires
        super::config_fault(config) is None,
        0 <= j < k < config.flows@.len(),
        lookup::listed(
            config.flows@[j].output_ids@,
            config.flows@[j].output_ids@.len() as int,
            id,
        ),
    ensures
        !lookup::listed(
            config.flows@[k].output_ids@,
            config.flows@[k].output_ids@.len() as int,
            id,
        ),
{
    lemma_flow_passes(config, k);
    let (ids, test) = (config.flows@[k].output_ids@, super::flow_output_check(config, k));
    error::lemma_first_fault_none(ids, test, 0);
    assert forall|i: int| 0 <= i < ids.len() implies #[trigger] ids[i]@ != id by {
        assert(test(i, ids[i]) is None);
        assert(!super::output_taken(config.flows@, k, ids[i]@));
        if ids[i]@ == id {
            assert(super::output_taken(config.flows@, k, id));
        }
    }
}

/// Active inputs at two places count as two.
proof fn lemma_two_active(config: AppConfig, k: int, i: int, j: int, n: int)
    requires
        0 <= k < config.flows@.len(),
        0 <= i < j < n <= config.flows@[k].input_ids@.len(),
        super::is_active_input(config.inputs@, config.flows@[k].input_ids@[i]@),
        super::is_active_input(config.inputs@, config.flows@[k].input_ids@[j]@),
    ensures
        super::active_count(config.flows@[k].input_ids@, n, config.inputs@) >= 2,
    decreases n,
{
    if n > j + 1 {
        lemma_two_active(config, k, i, j, n - 1);
    } else {
        lemma_one_active(config, k, i, j);
    }
}

proof fn lemma_one_active(config: AppConfig, k: int, i: int, n: int)
    requires
        0 <= k < config.flows@.len(),
        0 <= i < n <= config.flows@[k].input_ids@.len(),
        super::is_active_input(config.inputs@, config.flows@[k].input_ids@[i]@),
    ensures
        super::active_count(config.flows@[k].input_ids@, n, config.inputs@) >= 1,
    decreases n,
{
    if n > i + 1 {
        lemma_one_active(config, k, i, n - 1);
    }
}

/// In an accepted configuration at most one input of a flow is active.
pub proof fn lemma_accepted_flow_has_one_active_input(config: AppConfig, k: int, i: int, j: int)
    requires
        super::config_fault(config) is None,
        0 <= k < config.flows@.len(),
        0 <= i < j < config.flows@[k].input_ids@.len(),
    ensures
        !(super::is_active_input(config.inputs@, config.flows@[k].input_ids@[i]@)
            && super::is_active_input(config.inputs@, config.flows@[k].input_ids@[j]@)),
{
    lemma_flow_passes(config, k);
    if super::is_active_input(config.inputs@, config.flows@[k].input_ids@[i]@)
        && super::is_active_input(config.inputs@, config.flows@[k].input_ids@[j]@) {
        lemma_two_active(config, k, i, j, config.flows@[k].input_ids@.len() as int);
    }
}

/// In an accepted configuration the flow that uses an input is the one that a
/// search by that input finds.
pub proof fn lemma_accepted_input_finds_its_flow(config: AppConfig, k: int, id: Seq<char>)
    requires
        super::config_fault(config) is None,
        0 <= k < config.flows@.len(),
        resolve::uses_input(id)(config.flows@[k]),
    ensures
        lookup::find(config.flows@, resolve::uses_input(id)) == Some(config.flows@[k]),
{
    let p = resolve::uses_input(id);
    lookup::lemma_find(config.flows@, p);
    let found = lookup::find(config.flows@, p)->0;
    let n = choose|n: int| 0 <= n < config.flows@.len() && config.flows@[n] == found;
    if n < k {
        lemma_accepted_inputs_are_used_once(config, n, k, id);
    } else if k < n {
        lemma_accepted_inputs_are_used_once(config, k, n, id);
    }
}

/// In an accepted configuration the flow that uses an output is the one that a
/// search by that output finds.
pub proof fn lemma_accepted_output_finds_its_flow(config: AppConfig, k: int, id: Seq<char>)
    requires
        super::config_fault(config) is None,
        0 <= k < config.flows@.len(),
        resolve::uses_output(id)(config.flows@[k]),
    ensures
        lookup::find(config.flows@, resolve::uses_output(id)) == Some(config.flows@[k]),
{
    let p = resolve::uses_output(id);
    lookup::lemma_find(config.flows@, p);
    let found = lookup::find(config.flows@, p)->0;
    let n = choose|n: int| 0 <= n < config.flows@.len() && config.flows@[n] == found;
    if n < k {
        lemma_accepted_outputs_are_used_once(config, n, k, id);
    } else if k < n {
        lemma_accepted_outputs_are_used_once(config, k, n, id);
    }
}

/// The first active input from `from` on, where only the one at `i` can be
/// active.
proof fn lemma_only_active(inputs: Seq<&InputDefinition>, i: int, from: int)
    requires
        0 <= from <= i < inputs.len(),
        inputs[i].active,
        forall|j: int| 0 <= j < inputs.len() && j != i ==> !(#[trigger] inputs[j]).active,
    ensures
        resolve::first_active(inputs, from) == Some(*inputs[i]),
    decreases i - from,
{
    if from < i {
        lemma_only_active(inputs, i, from + 1);
    }
}

/// An active input of a flow of an accepted configuration is the active input
/// of the resolved flow, wherever it stands in the list.
pub proof fn lemma_accepted_active_input_is_found(
    config: AppConfig,
    k: int,
    inputs: Seq<&InputDefinition>,
    i: int,
)
    requires
        super::config_fault(config) is None,
        0 <= k < config.flows@.len(),
        inputs.len() == config.flows@[k].input_ids@.len(),
        resolve::resolves_inputs(config.inputs@, config.flows@[k].input_ids@, inputs),
        0 <= i < inputs.len(),
        inputs[i].active,
    ensures
        resolve::first_active(inputs, 0) == Some(*inputs[i]),
{
    let ids = config.flows@[k].input_ids@;
    assert(super::is_active_input(config.inputs@, ids[i]@));
    assert forall|j: int| 0 <= j < inputs.len()
        && j != i implies !(#[trigger] inputs[j]).active by {
        if inputs[j].active {
            assert(super::is_active_input(config.inputs@, ids[j]@));
            if i < j {
                lemma_accepted_flow_has_one_active_input(config, k, i, j);
            } else {
                lemma_accepted_flow_has_one_active_input(config, k, j, i);
            }
        }
    }
    lemma_only_active(inputs, i, 0);
}

/// Every member of a flow group of an accepted configuration is a flow, and
/// occurs in the group once.
pub proof fn lemma_accepted_members_exist(config: AppConfig, n: int, i: int)
    requires
        super::config_fault(config) is None,
        0 <= n < config.flow_groups@.len(),
        0 <= i < config.flow_groups@[n].flows@.len(),
    ensures
        flows::flow_defined(
            config.flows@,
            config.flows@.len() as int,
            config.flow_groups@[n].flows@[i]@,
        ),
        !lookup::listed(config.flow_groups@[n].flows@, i, config.flow_groups@[n].flows@[i]@),
{
    lemma_parts(config);
    let test = flows::flow_group_check(config.flow_groups@, config.flows@);
    error::lemma_first_fault_none(config.flow_groups@, test, 0);
    assert(test(n, config.flow_groups@[n]) is None);
    let g = config.flow_groups@[n];
    let member_test = flows::member_check(g, config.flows@);
    error::lemma_first_fault_none(g.flows@, member_test, 0);
    assert(member_test(i, g.flows@[i]) is None);
}

/// A flow of an accepted configuration that names a group is a member of it.
pub proof fn lemma_accepted_memberships_agree(config: AppConfig, k: int)
    requires
        super::config_fault(config) is None,
        0 <= k < config.flows@.len(),
        config.flows@[k].flow_group_id is Some,
    ensures
        lookup::group_of(config.flow_groups@, config.flows@[k].flow_group_id->0@) matches Some(g)
            && lookup::listed(g.flows@, g.flows@.len() as int, config.flows@[k].id@),
{
    lemma_parts(config);
    let test = flows::membership_check(config.flow_groups@);
    error::lemma_first_fault_none(config.flows@, test, 0);
    assert(test(k, config.flows@[k]) is None);
}

/// No two components of an accepted configuration bind the same local port.
pub proof fn lemma_accepted_ports_do_not_collide(config: AppConfig, i: int, j: int)
    requires
        super::config_fault(config) is None,
        0 <= i < ports::config_bindings(config).len(),
        0 <= j < ports::config_bindings(config).len(),
        i != j,
    ensures
        !ports::collide(ports::config_bindings(config)[i], ports::config_bindings(config)[j]),
{
    lemma_parts(config);
    ports::lemma_accepted_ports_are_disjoint(config, i, j);
}

proof fn lemma_input_passes(config: AppConfig, i: int)
    requires
        super::config_fault(config) is None,
        0 <= i < config.inputs@.len(),
    ensures
        media::input_media_fault(config.inputs@[i].config) is None,
{
    lemma_parts(config);
    let test = super::input_check(config.inputs@);
    error::lemma_first_fault_none(config.inputs@, test, 0);
    assert(test(i, config.inputs@[i]) is None);
}

proof fn lemma_output_passes(config: AppConfig, i: int)
    requires
        super::config_fault(config) is None,
        0 <= i < config.outputs@.len(),
    ensures
        media::output_media_fault(config.outputs@[i]) is None,
{
    lemma_parts(config);
    let test = super::output_check(config.outputs@);
    error::lemma_first_fault_none(config.outputs@, test, 0);
    assert(test(i, config.outputs@[i]) is None);
}

/// In an accepted configuration every relayed leg of a bonded input carries
/// exactly one layer of encryption: the bond's or its own.
pub proof fn lemma_accepted_input_legs_are_encrypted_once(
    config: AppConfig,
    i: int,
    bond: BondedInputConfig,
    j: int,
)
    requires
        super::config_fault(config) is None,
        0 <= i < config.inputs@.len(),
        config.inputs@[i].config == InputConfig::Bonded(bond),
        0 <= j < bond.paths@.len(),
    ensures
        bond.paths@[j].transport matches BondPathTransportConfig::Relay {
            tunnel_encryption_key,
            ..
        } ==> (tunnel_encryption_key is Some != bond.encryption_key is Some),
{
    lemma_input_passes(config, i);
    let test = bonds::relay_check(bond.encryption_key is Some, "Bonded input"@);
    error::lemma_first_fault_none(bond.paths@, test, 0);
    assert(test(j, bond.paths@[j]) is None);
}

/// In an accepted configuration every relayed leg of a bonded output carries
/// exactly one layer of encryption: the bond's or its own.
pub proof fn lemma_accepted_output_legs_are_encrypted_once(
    config: AppConfig,
    i: int,
    bond: BondedOutputConfig,
    j: int,
)
    requires
        super::config_fault(config) is None,
        0 <= i < config.outputs@.len(),
        config.outputs@[i] == OutputConfig::Bonded(bond),
        0 <= j < bond.paths@.len(),
    ensures
        bond.paths@[j].transport matches BondPathTransportConfig::Relay {
            tunnel_encryption_key,
            ..
        } ==> (tunnel_encryption_key is Some != bond.encryption_key is Some),
{
    lemma_output_passes(config, i);
    let context = "Output '"@ + config.outputs@[i].spec_id() + "'"@;
    let test = bonds::relay_check(bond.encryption_key is Some, context);
    error::lemma_first_fault_none(bond.paths@, test, 0);
    assert(test(j, bond.paths@[j]) is None);
}

/// In an accepted configuration the overrides of inputs and outputs assign no
/// packet identifier that is reserved.
pub proof fn lemma_accepted_overrides_are_assignable(config: AppConfig, i: int)
    requires
        super::config_fault(config) is None,
    ensures
        0 <= i < config.inputs@.len() ==> (media::input_overrides(
            config.inputs@[i].config,
        ) matches Some(m) ==> media::all_assign(m@)),
        0 <= i < config.outputs@.len() ==> (media::output_overrides(
            config.outputs@[i],
        ) matches Some(m) ==> media::all_assign(m@)),
{
    if 0 <= i < config.inputs@.len() {
        lemma_input_passes(config, i);
    }
    if 0 <= i < config.outputs@.len() {
        lemma_output_passes(config, i);
    }
}

/// In an accepted configuration no two legs of a bonded input share an
/// identifier.
pub proof fn lemma_accepted_input_legs_are_distinct(
    config: AppConfig,
    i: int,
    bond: BondedInputConfig,
    j: int,
    k: int,
)
    requires
        super::config_fault(config) is None,
        0 <= i < config.inputs@.len(),
        config.inputs@[i].config == InputConfig::Bonded(bond),
        0 <= j < k < bond.paths@.len(),
    ensures
        bond.paths@[j].id != bond.paths@[k].id,
{
    lemma_input_passes(config, i);
    let test = bonds::leg_check(bond.paths@, bond.fec, false, "Bonded input"@);
    error::lemma_first_fault_none(bond.paths@, test, 0);
    assert(test(k, bond.paths@[k]) is None);
}

/// In an accepted configuration no two legs of a bonded output share an
/// identifier.
pub proof fn lemma_accepted_output_legs_are_distinct(
    config: AppConfig,
    i: int,
    bond: BondedOutputConfig,
    j: int,
    k: int,
)
    requires
        super::config_fault(config) is None,
        0 <= i < config.outputs@.len(),
        config.outputs@[i] == OutputConfig::Bonded(bond),
        0 <= j < k < bond.paths@.len(),
    ensures
        bond.paths@[j].id != bond.paths@[k].id,
{
    lemma_output_passes(config, i);
    let context = "Output '"@ + config.outputs@[i].spec_id() + "'"@;
    let test = bonds::leg_check(bond.paths@, bond.fec, true, context);
    error::lemma_first_fault_none(bond.paths@, test, 0);
    assert(test(k, bond.paths@[k]) is None);
}

/// In an accepted configuration no two programs that a flow assembles share a
/// number or the packet identifier of their map.
pub proof fn lemma_accepted_programs_are_distinct(
    config: AppConfig,
    f: int,
    assembled: FlowAssembly,
    j: int,
    k: int,
)
    requires
        super::config_fault(config) is None,
        0 <= f < config.flows@.len(),
        config.flows@[f].assembly == Some(assembled),
        0 <= j < k < assembled.programs@.len(),
    ensures
        assembled.programs@[j].program_number != assembled.programs@[k].program_number,
        assembled.programs@[j].pmt_pid != assembled.programs@[k].pmt_pid,
{
    lemma_program_passes(config, f, assembled, k);
}

proof fn lemma_program_passes(config: AppConfig, f: int, assembled: FlowAssembly, k: int)
    requires
        super::config_fault(config) is None,
        0 <= f < config.flows@.len(),
        config.flows@[f].assembly == Some(assembled),
        0 <= k < assembled.programs@.len(),
    ensures
        assembly::program_check(assembled, config.flows@[f].input_ids@, config.flows@[f].id@)(
            k,
            assembled.programs@[k],
        ) is None,
{
    lemma_flow_passes(config, f);
    let flow = config.flows@[f];
    assert(media::flow_media_fault(flow) is None);
    let test = assembly::program_check(assembled, flow.input_ids@, flow.id@);
    error::lemma_first_fault_none(assembled.programs@, test, 0);
    assert(test(k, assembled.programs@[k]) is None);
}

/// In an accepted configuration no two streams of a program that a flow
/// assembles share a packet identifier.
pub proof fn lemma_accepted_streams_are_distinct(
    config: AppConfig,
    f: int,
    assembled: FlowAssembly,
    p: int,
    j: int,
    k: int,
)
    requires
        super::config_fault(config) is None,
        0 <= f < config.flows@.len(),
        config.flows@[f].assembly == Some(assembled),
        0 <= p < assembled.programs@.len(),
        0 <= j < k < assembled.programs@[p].streams@.len(),
    ensures
        assembled.programs@[p].streams@[j].out_pid != assembled.programs@[p].streams@[k].out_pid,
{
    lemma_program_passes(config, f, assembled, p);
    let program = assembled.programs@[p];
    let context = "Flow '"@ + config.flows@[f].id@ + "' program "@ + text::dec(
        program.program_number as nat,
    );
    let test = assembly::stream_check(program.streams@, context);
    error::lemma_first_fault_none(program.streams@, test, 0);
    assert(test(k, program.streams@[k]) is None);
}

} // verus!
