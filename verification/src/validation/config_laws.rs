//! What the acceptance of a whole configuration comes down to.

use vstd::prelude::*;
use vstd::utf8::*;

use super::{flow_laws, flows, inputs, media, node, outputs, port_laws, ports};
use crate::addr;
use crate::error;
use crate::lookup;
use crate::models::{AppConfig, InputConfig, InputDefinition, OutputConfig};
use crate::number;
use crate::text;

verus! {

/// A configuration is accepted exactly when the node's own settings, the inputs, the
/// outputs, the flows, the outputs next to the audio that reaches them, the groups, the
/// memberships, the ports and what the flows carry all are.
pub proof fn lemma_config_accepts(config: AppConfig)
    ensures
        super::config_fault(config) is None <==> {
            &&& node::node_fault(config) is None
            &&& super::inputs_fault(config.inputs@) is None
            &&& super::outputs_fault(config.outputs@) is None
            &&& super::flows_fault(config) is None
            &&& super::all_fed_outputs_fault(config) is None
            &&& flows::flow_groups_fault(config.flow_groups@, config.flows@) is None
            &&& flows::memberships_fault(config.flows@, config.flow_groups@) is None
            &&& ports::port_conflicts_fault(config) is None
            &&& media::carriage_fault(config) is None
        },
{
}

/// The inputs are accepted exactly when no two share an identifier and each is accepted.
pub proof fn lemma_inputs_accepts(defs: Seq<InputDefinition>)
    ensures
        super::inputs_fault(defs) is None <==> {
            &&& forall|i: int, j: int|
                #![trigger defs[i], defs[j]]
                0 <= i < j < defs.len() ==> defs[i].id@ != defs[j].id@
            &&& forall|i: int|
                #![trigger defs[i]]
                0 <= i < defs.len() ==> inputs::input_definition_fault(defs[i]) is None
        },
{
    let test = super::input_check(defs);
    error::lemma_first_fault_none(defs, test, 0);
    assert forall|j: int|
        #![trigger defs[j]]
        0 <= j < defs.len() implies (test(j, defs[j]) is None <==> {
        &&& forall|i: int| 0 <= i < j ==> (#[trigger] defs[i]).id@ != defs[j].id@
        &&& inputs::input_definition_fault(defs[j]) is None
    }) by {}
    if super::inputs_fault(defs) is None {
        assert forall|i: int, j: int|
            #![trigger defs[i], defs[j]]
            0 <= i < j < defs.len() implies defs[i].id@ != defs[j].id@ by {
            assert(test(j, defs[j]) is None);
        }
    }
}

/// The outputs are accepted exactly when no two share an identifier and each is accepted
/// on its own.
pub proof fn lemma_outputs_accepts(defs: Seq<OutputConfig>)
    ensures
        super::outputs_fault(defs) is None <==> {
            &&& forall|i: int, j: int|
                #![trigger defs[i], defs[j]]
                0 <= i < j < defs.len() ==> defs[i].spec_id() != defs[j].spec_id()
            &&& forall|i: int|
                #![trigger defs[i]]
                0 <= i < defs.len() ==> outputs::output_fault(defs[i], None) is None
        },
{
    let test = super::output_check(defs);
    error::lemma_first_fault_none(defs, test, 0);
    assert forall|j: int|
        #![trigger defs[j]]
        0 <= j < defs.len() implies (test(j, defs[j]) is None <==> {
        &&& forall|i: int| 0 <= i < j ==> (#[trigger] defs[i]).spec_id() != defs[j].spec_id()
        &&& outputs::output_fault(defs[j], None) is None
    }) by {}
    if super::outputs_fault(defs) is None {
        assert forall|i: int, j: int|
            #![trigger defs[i], defs[j]]
            0 <= i < j < defs.len() implies defs[i].spec_id() != defs[j].spec_id() by {
            assert(test(j, defs[j]) is None);
        }
    }
}

/// Whether the inputs that flow `k` names are named once, defined, and used by no earlier
/// flow.
pub open spec fn input_references_hold(config: AppConfig, k: int) -> bool {
    let ids = config.flows@[k].input_ids@;
    forall|i: int|
        #![trigger ids[i]]
        0 <= i < ids.len() ==> {
            &&& forall|j: int| 0 <= j < i ==> (#[trigger] ids[j])@ != ids[i]@
            &&& exists|n: int| 0 <= n < config.inputs@.len() && #[trigger] config.inputs@[n].id@
                == ids[i]@
            &&& forall|f: int, m: int|
                #![trigger config.flows@[f].input_ids@[m]]
                0 <= f < k && f < config.flows@.len() && 0 <= m
                    < config.flows@[f].input_ids@.len() ==> config.flows@[f].input_ids@[m]@
                    != ids[i]@
        }
}

/// Whether the outputs that flow `k` names are named once, defined, and used by no earlier
/// flow.
pub open spec fn output_references_hold(config: AppConfig, k: int) -> bool {
    let ids = config.flows@[k].output_ids@;
    forall|i: int|
        #![trigger ids[i]]
        0 <= i < ids.len() ==> {
            &&& forall|j: int| 0 <= j < i ==> (#[trigger] ids[j])@ != ids[i]@
            &&& exists|n: int|
                0 <= n < config.outputs@.len() && #[trigger] config.outputs@[n].spec_id() == ids[i]@
            &&& forall|f: int, m: int|
                #![trigger config.flows@[f].output_ids@[m]]
                0 <= f < k && f < config.flows@.len() && 0 <= m
                    < config.flows@[f].output_ids@.len() ==> config.flows@[f].output_ids@[m]@
                    != ids[i]@
        }
}

proof fn lemma_input_taken(config: AppConfig, k: int, id: Seq<char>)
    ensures
        super::input_taken(config.flows@, k, id) <==> exists|f: int, m: int|
            #![trigger config.flows@[f].input_ids@[m]]
            0 <= f < k && f < config.flows@.len() && 0 <= m < config.flows@[f].input_ids@.len()
                && config.flows@[f].input_ids@[m]@ == id,
{
    let fs = config.flows@;
    if super::input_taken(fs, k, id) {
        let f = choose|f: int|
            0 <= f < k && f < fs.len() && #[trigger] lookup::listed(
                fs[f].input_ids@,
                fs[f].input_ids@.len() as int,
                id,
            );
        let m = choose|m: int|
            0 <= m < fs[f].input_ids@.len() && m < fs[f].input_ids@.len() && #[trigger] fs[
                f
            ].input_ids@[m]@ == id;
        assert(fs[f].input_ids@[m]@ == id);
    }
    if exists|f: int, m: int|
        #![trigger fs[f].input_ids@[m]]
        0 <= f < k && f < fs.len() && 0 <= m < fs[f].input_ids@.len() && fs[f].input_ids@[m]@ == id {
        let (f, m) = choose|f: int, m: int|
            #![trigger fs[f].input_ids@[m]]
            0 <= f < k && f < fs.len() && 0 <= m < fs[f].input_ids@.len() && fs[f].input_ids@[m]@
                == id;
        assert(lookup::listed(fs[f].input_ids@, fs[f].input_ids@.len() as int, id));
    }
}

proof fn lemma_output_taken(config: AppConfig, k: int, id: Seq<char>)
    ensures
        super::output_taken(config.flows@, k, id) <==> exists|f: int, m: int|
            #![trigger config.flows@[f].output_ids@[m]]
            0 <= f < k && f < config.flows@.len() && 0 <= m < config.flows@[f].output_ids@.len()
                && config.flows@[f].output_ids@[m]@ == id,
{
    let fs = config.flows@;
    if super::output_taken(fs, k, id) {
        let f = choose|f: int|
            0 <= f < k && f < fs.len() && #[trigger] lookup::listed(
                fs[f].output_ids@,
                fs[f].output_ids@.len() as int,
                id,
            );
        let m = choose|m: int|
            0 <= m < fs[f].output_ids@.len() && m < fs[f].output_ids@.len() && #[trigger] fs[
                f
            ].output_ids@[m]@ == id;
        assert(fs[f].output_ids@[m]@ == id);
    }
    if exists|f: int, m: int|
        #![trigger fs[f].output_ids@[m]]
        0 <= f < k && f < fs.len() && 0 <= m < fs[f].output_ids@.len() && fs[f].output_ids@[m]@
            == id {
        let (f, m) = choose|f: int, m: int|
            #![trigger fs[f].output_ids@[m]]
            0 <= f < k && f < fs.len() && 0 <= m < fs[f].output_ids@.len() && fs[f].output_ids@[m]@
                == id;
        assert(lookup::listed(fs[f].output_ids@, fs[f].output_ids@.len() as int, id));
    }
}

proof fn lemma_input_references(config: AppConfig, k: int)
    requires
        0 <= k < config.flows@.len(),
    ensures
        error::first_fault(
            config.flows@[k].input_ids@,
            super::flow_input_check(config, k),
            0,
        ) is None <==> input_references_hold(config, k),
{
    let ids = config.flows@[k].input_ids@;
    let test = super::flow_input_check(config, k);
    error::lemma_first_fault_none(ids, test, 0);
    assert forall|i: int|
        #![trigger ids[i]]
        0 <= i < ids.len() implies (test(i, ids[i]) is None <==> {
        &&& forall|j: int| 0 <= j < i ==> (#[trigger] ids[j])@ != ids[i]@
        &&& exists|n: int| 0 <= n < config.inputs@.len() && #[trigger] config.inputs@[n].id@
            == ids[i]@
        &&& forall|f: int, m: int|
            #![trigger config.flows@[f].input_ids@[m]]
            0 <= f < k && f < config.flows@.len() && 0 <= m < config.flows@[f].input_ids@.len()
                ==> config.flows@[f].input_ids@[m]@ != ids[i]@
    }) by {
        lemma_input_taken(config, k, ids[i]@);
    }
}

proof fn lemma_output_references(config: AppConfig, k: int)
    requires
        0 <= k < config.flows@.len(),
    ensures
        error::first_fault(
            config.flows@[k].output_ids@,
            super::flow_output_check(config, k),
            0,
        ) is None <==> output_references_hold(config, k),
{
    let ids = config.flows@[k].output_ids@;
    let test = super::flow_output_check(config, k);
    error::lemma_first_fault_none(ids, test, 0);
    assert forall|i: int|
        #![trigger ids[i]]
        0 <= i < ids.len() implies (test(i, ids[i]) is None <==> {
        &&& forall|j: int| 0 <= j < i ==> (#[trigger] ids[j])@ != ids[i]@
        &&& exists|n: int|
            0 <= n < config.outputs@.len() && #[trigger] config.outputs@[n].spec_id() == ids[i]@
        &&& forall|f: int, m: int|
            #![trigger config.flows@[f].output_ids@[m]]
            0 <= f < k && f < config.flows@.len() && 0 <= m < config.flows@[f].output_ids@.len()
                ==> config.flows@[f].output_ids@[m]@ != ids[i]@
    }) by {
        lemma_output_taken(config, k, ids[i]@);
    }
}

/// Whether the input that a flow names at place `i` is defined and active.
pub open spec fn names_active_input(config: AppConfig, k: int, i: int) -> bool {
    let def = lookup::input_of(config.inputs@, config.flows@[k].input_ids@[i]@);
    def is Some && def->0.active
}

proof fn lemma_active_places(config: AppConfig, k: int, n: int)
    requires
        0 <= k < config.flows@.len(),
        0 <= n <= config.flows@[k].input_ids@.len(),
    ensures
        ({
            let count = super::active_count(config.flows@[k].input_ids@, n, config.inputs@);
            &&& count == 0 <==> forall|i: int|
                0 <= i < n ==> !(#[trigger] names_active_input(config, k, i))
            &&& count <= 1 <==> forall|i: int, j: int|
                0 <= i < j < n ==> !(#[trigger] names_active_input(config, k, i)
                    && #[trigger] names_active_input(config, k, j))
        }),
    decreases n,
{
    if n > 0 {
        lemma_active_places(config, k, n - 1);
        let before = super::active_count(config.flows@[k].input_ids@, n - 1, config.inputs@);
        let last = names_active_input(config, k, n - 1);
        assert(last <==> super::is_active_input(
            config.inputs@,
            config.flows@[k].input_ids@[n - 1]@,
        ));
        if last && before > 0 {
            let i = choose|i: int| 0 <= i < n - 1 && names_active_input(config, k, i);
            assert(names_active_input(config, k, i) && names_active_input(config, k, n - 1));
        }
    }
}

/// A flow is accepted within the configuration exactly when no earlier flow has its
/// identifier, it is accepted on its own, its references hold, and at most one of the
/// inputs that it names is active.
pub proof fn lemma_flow_in_config_accepts(config: AppConfig, k: int)
    requires
        0 <= k < config.flows@.len(),
    ensures
        super::flow_in_config_fault(config, k) is None <==> {
            &&& forall|j: int| 0 <= j < k ==> (#[trigger] config.flows@[j]).id@
                != config.flows@[k].id@
            &&& flows::flow_fault(config.flows@[k]) is None
            &&& input_references_hold(config, k)
            &&& output_references_hold(config, k)
            &&& forall|i: int, j: int|
                0 <= i < j < config.flows@[k].input_ids@.len() ==> !(
                #[trigger] names_active_input(config, k, i) && #[trigger] names_active_input(
                    config,
                    k,
                    j,
                ))
        },
{
    let flow = config.flows@[k];
    lemma_input_references(config, k);
    lemma_output_references(config, k);
    lemma_active_places(config, k, flow.input_ids@.len() as int);
    assert(flows::flow_defined(config.flows@, k, flow.id@) <==> exists|j: int|
        0 <= j < k && (#[trigger] config.flows@[j]).id@ == flow.id@) by {
        if exists|j: int| 0 <= j < k && (#[trigger] config.flows@[j]).id@ == flow.id@ {
            let j = choose|j: int| 0 <= j < k && (#[trigger] config.flows@[j]).id@ == flow.id@;
            assert(config.flows@[j].id@ == flow.id@);
        }
    }
}

/// The flows are accepted exactly when each is accepted within the configuration.
pub proof fn lemma_flows_accepts(config: AppConfig)
    ensures
        super::flows_fault(config) is None <==> forall|k: int|
            #![trigger config.flows@[k]]
            0 <= k < config.flows@.len() ==> super::flow_in_config_fault(config, k) is None,
{
    let test = super::flow_check(config);
    error::lemma_first_fault_none(config.flows@, test, 0);
    assert forall|k: int|
        #![trigger config.flows@[k]]
        0 <= k < config.flows@.len() implies (test(k, config.flows@[k]) is None
        <==> super::flow_in_config_fault(config, k) is None) by {}
}

/// The audio that reaches the outputs of a flow is that of the first active input that the
/// flow names, where that is ST 2110 or RTP audio, by its rate, depth and channels.
pub proof fn lemma_upstream_is_the_active_input(
    ids: Seq<String>,
    from: int,
    n: int,
    defs: Seq<InputDefinition>,
)
    requires
        0 <= from <= n <= ids.len(),
        forall|i: int|
            from <= i < n ==> !super::is_active_input(defs, (#[trigger] ids[i])@),
        n < ids.len() ==> super::is_active_input(defs, ids[n]@),
    ensures
        n == ids.len() ==> super::upstream_of(ids, from, defs) is None,
        n < ids.len() ==> super::upstream_of(ids, from, defs) == match lookup::input_of(
            defs,
            ids[n]@,
        )->0.config {
            InputConfig::St2110_30(c) => Some((c.sample_rate, c.bit_depth, c.channels)),
            InputConfig::St2110_31(c) => Some((c.sample_rate, c.bit_depth, c.channels)),
            InputConfig::RtpAudio(c) => Some((c.sample_rate, c.bit_depth, c.channels)),
            _ => None,
        },
    decreases n - from,
{
    if from < n {
        assert(!super::is_active_input(defs, ids[from]@));
        lemma_upstream_is_the_active_input(ids, from + 1, n, defs);
    }
}

/// The outputs of a flow whose active input is uncompressed audio are accepted exactly when
/// each of them that is defined is accepted for the shape of that audio.
pub proof fn lemma_fed_outputs_accepts(config: AppConfig)
    ensures
        super::all_fed_outputs_fault(config) is None <==> forall|k: int, i: int|
            #![trigger config.flows@[k].output_ids@[i]]
            0 <= k < config.flows@.len() && 0 <= i < config.flows@[k].output_ids@.len() ==> {
                let upstream = super::upstream_of(config.flows@[k].input_ids@, 0, config.inputs@);
                let output = lookup::output_of(
                    config.outputs@,
                    config.flows@[k].output_ids@[i]@,
                );
                upstream is Some && output is Some ==> outputs::output_fault(
                    output->0,
                    upstream,
                ) is None
            },
{
    let test = super::fed_flow_check(config);
    error::lemma_first_fault_none(config.flows@, test, 0);
    assert forall|k: int|
        #![trigger config.flows@[k]]
        0 <= k < config.flows@.len() implies (test(k, config.flows@[k]) is None <==> forall|i: int|
        #![trigger config.flows@[k].output_ids@[i]]
        0 <= i < config.flows@[k].output_ids@.len() ==> {
            let upstream = super::upstream_of(config.flows@[k].input_ids@, 0, config.inputs@);
            let output = lookup::output_of(config.outputs@, config.flows@[k].output_ids@[i]@);
            upstream is Some && output is Some ==> outputs::output_fault(
                output->0,
                upstream,
            ) is None
        }) by {
        let ids = config.flows@[k].output_ids@;
        let upstream = super::upstream_of(config.flows@[k].input_ids@, 0, config.inputs@);
        let inner = super::fed_output_check(config.outputs@, upstream);
        error::lemma_first_fault_none(ids, inner, 0);
        assert forall|i: int|
            #![trigger ids[i]]
            0 <= i < ids.len() implies (inner(i, ids[i]) is None <==> {
            let output = lookup::output_of(config.outputs@, ids[i]@);
            output is Some ==> outputs::output_fault(output->0, upstream) is None
        }) by {}
    }
    if super::all_fed_outputs_fault(config) is None {
        assert forall|k: int, i: int|
            #![trigger config.flows@[k].output_ids@[i]]
            0 <= k < config.flows@.len() && 0 <= i < config.flows@[k].output_ids@.len() implies ({
            let upstream = super::upstream_of(config.flows@[k].input_ids@, 0, config.inputs@);
            let output = lookup::output_of(config.outputs@, config.flows@[k].output_ids@[i]@);
            upstream is Some && output is Some ==> outputs::output_fault(
                output->0,
                upstream,
            ) is None
        }) by {
            assert(test(k, config.flows@[k]) is None);
        }
    }
}

/// The flow groups are accepted exactly when each is.
pub proof fn lemma_flow_groups_accepts(config: AppConfig)
    ensures
        flows::flow_groups_fault(config.flow_groups@, config.flows@) is None <==> forall|i: int|
            #![trigger config.flow_groups@[i]]
            0 <= i < config.flow_groups@.len() ==> flows::flow_group_fault(
                config.flow_groups@,
                i,
                config.flows@,
            ) is None,
{
    let test = flows::flow_group_check(config.flow_groups@, config.flows@);
    error::lemma_first_fault_none(config.flow_groups@, test, 0);
    assert forall|i: int|
        #![trigger config.flow_groups@[i]]
        0 <= i < config.flow_groups@.len() implies (test(i, config.flow_groups@[i]) is None
        <==> flows::flow_group_fault(config.flow_groups@, i, config.flows@) is None) by {}
}

/// The message of a refused configuration is that of the first part that is refused: the
/// node's own settings, the inputs, the outputs, the flows, the outputs next to their
/// audio, the groups, the memberships, the ports, and what the flows carry.
pub proof fn lemma_first_part_decides(config: AppConfig)
    ensures
        node::node_fault(config) is Some
            ==> super::config_fault(config) == node::node_fault(config),
        node::node_fault(config) is None && super::inputs_fault(config.inputs@) is Some
            ==> super::config_fault(config) == super::inputs_fault(config.inputs@),
        node::node_fault(config) is None && super::inputs_fault(config.inputs@) is None
            && super::outputs_fault(config.outputs@) is Some ==> super::config_fault(config)
            == super::outputs_fault(config.outputs@),
        node::node_fault(config) is None && super::inputs_fault(config.inputs@) is None
            && super::outputs_fault(config.outputs@) is None && super::flows_fault(config) is Some
            ==> super::config_fault(config) == super::flows_fault(config),
{
}

proof fn lemma_listener_family(host: Seq<char>, port: u16)
    requires
        host.len() > 0,
        is_ascii_chars(host),
    ensures
        addr::socket_of(host + ":"@ + text::dec(port as nat)) matches Some(at) ==> (at.ip is V6
            <==> host[0] == '['),
{
    reveal_strlit(":");
    number::lemma_decimal_bytes(port as nat);
    let s = host + ":"@ + text::dec(port as nat);
    assert forall|i: int| 0 <= i < s.len() implies '\0' <= #[trigger] s[i] <= '\u{7f}' by {
        if i < host.len() {
            assert(s[i] == host[i]);
        } else if i > host.len() {
            assert(s[i] == text::dec(port as nat)[i - host.len() - 1]);
        }
    }
    addr::lemma_brackets_mean_ipv6(s);
    assert(s[0] == host[0]);
}

/// The two loopback addresses do not keep each other from the same port.
proof fn lemma_default_ports(config: AppConfig)
    requires
        call_ensures(AppConfig::default, (), config),
    ensures
        ports::port_conflicts_fault(config) is None,
{
    let list = config.server.listen_addrs->0@;
    let label = "Edge API server"@;
    let port = config.server.listen_port;
    reveal_strlit("127.0.0.1");
    reveal_strlit("[::1]");
    lemma_listener_family(list[0]@, port);
    lemma_listener_family(list[1]@, port);
    let first = ports::listening(
        addr::socket_of(list[0]@ + ":"@ + text::dec(port as nat)),
        ports::Proto::Tcp,
        true,
        label,
    );
    let second = ports::listening(
        addr::socket_of(list[1]@ + ":"@ + text::dec(port as nat)),
        ports::Proto::Tcp,
        true,
        label,
    );
    reveal_with_fuel(ports::listener_bindings, 3);
    let bs = ports::config_bindings(config);
    assert(ports::listener_bindings(list, 2, port, true, label) =~= first + second);
    assert(bs =~= first + second);
    port_laws::lemma_refused_ports_collide(config);
}

/// A node that is not configured is accepted.
pub proof fn lemma_default_config_is_accepted(config: AppConfig)
    requires
        call_ensures(AppConfig::default, (), config),
    ensures
        super::config_fault(config) is None,
{
    lemma_default_ports(config);
    lemma_config_accepts(config);
    lemma_inputs_accepts(config.inputs@);
    lemma_outputs_accepts(config.outputs@);
    lemma_flows_accepts(config);
    lemma_fed_outputs_accepts(config);
    lemma_flow_groups_accepts(config);
    flow_laws::lemma_memberships_accepts(config.flows@, config.flow_groups@);
    flow_laws::lemma_carriage_accepts(config);
}

} // verus!
