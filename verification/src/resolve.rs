//! Flows with the definitions that they name.

use vstd::prelude::*;

use crate::error;
use crate::error::{Checks, ConfigError};
use crate::lookup;
use crate::lookup::{find_input, find_output, is_listed};
use crate::models::{AppConfig, FlowConfig, InputDefinition, OutputConfig};
use crate::text;

verus! {

/// A flow with its references replaced by the definitions.
#[derive(Debug)]
pub struct ResolvedFlow<'a> {
    /// The flow itself.
    pub config: &'a FlowConfig,
    /// The inputs, in the order in which the flow names them. At most one of
    /// them is active in a valid configuration.
    pub inputs: Vec<&'a InputDefinition>,
    /// The outputs, passive ones among them.
    pub outputs: Vec<&'a OutputConfig>,
}

/// The first active input from place `from` on.
pub open spec fn first_active(inputs: Seq<&InputDefinition>, from: int) -> Option<InputDefinition>
    decreases inputs.len() - from,
{
    if !(0 <= from < inputs.len()) {
        None
    } else if inputs[from].active {
        Some(*inputs[from])
    } else {
        first_active(inputs, from + 1)
    }
}

impl<'a> ResolvedFlow<'a> {
    /// The active input, if there is one.
    pub fn active_input(&self) -> (r: Option<&'a InputDefinition>)
        ensures
            r is Some <==> first_active(self.inputs@, 0) is Some,
            r matches Some(d) ==> first_active(self.inputs@, 0) == Some(*d),
    {
        let mut i: usize = 0;
        while i < self.inputs.len()
            invariant
                i <= self.inputs@.len(),
                first_active(self.inputs@, 0) == first_active(self.inputs@, i as int),
            decreases self.inputs.len() - i,
        {
            if self.inputs[i].active {
                return Some(self.inputs[i]);
            }
            i = i + 1;
        }
        None
    }
}

/// The check that an input exists.
pub open spec fn input_exists_check(inputs: Seq<InputDefinition>, flow_id: Seq<char>) -> spec_fn(
    int,
    String,
) -> Option<Seq<char>> {
    |i: int, id: String|
        error::check(
            lookup::input_of(inputs, id@) is None,
            "Flow '"@ + flow_id + "' references input '"@ + id@ + "' which does not exist"@,
        )
}

/// The check that an output exists.
pub open spec fn output_exists_check(outputs: Seq<OutputConfig>, flow_id: Seq<char>) -> spec_fn(
    int,
    String,
) -> Option<Seq<char>> {
    |i: int, id: String|
        error::check(
            lookup::output_of(outputs, id@) is None,
            "Flow '"@ + flow_id + "' references output '"@ + id@ + "' which does not exist"@,
        )
}

/// Everything that a flow names must exist.
pub open spec fn resolve_fault(config: AppConfig, flow: FlowConfig) -> Option<Seq<char>> {
    error::first_fault(
        flow.input_ids@,
        input_exists_check(config.inputs@, flow.id@),
        0,
    ).otherwise(
        error::first_fault(flow.output_ids@, output_exists_check(config.outputs@, flow.id@), 0),
    )
}

/// Whether `inputs` are the definitions that the first identifiers of `ids`
/// name.
pub open spec fn resolves_inputs(
    defs: Seq<InputDefinition>,
    ids: Seq<String>,
    inputs: Seq<&InputDefinition>,
) -> bool {
    &&& inputs.len() <= ids.len()
    &&& forall|i: int|
        0 <= i < inputs.len() ==> lookup::input_of(defs, ids[i]@) == Some(*#[trigger] inputs[i])
}

/// Whether `outputs` are the definitions that the first identifiers of `ids`
/// name.
pub open spec fn resolves_outputs(
    defs: Seq<OutputConfig>,
    ids: Seq<String>,
    outputs: Seq<&OutputConfig>,
) -> bool {
    &&& outputs.len() <= ids.len()
    &&& forall|i: int|
        0 <= i < outputs.len() ==> lookup::output_of(defs, ids[i]@) == Some(*#[trigger] outputs[i])
}

/// The property of naming the input `id`.
pub open spec fn uses_input(id: Seq<char>) -> spec_fn(FlowConfig) -> bool {
    |f: FlowConfig| lookup::listed(f.input_ids@, f.input_ids@.len() as int, id)
}

/// The property of naming the output `id`.
pub open spec fn uses_output(id: Seq<char>) -> spec_fn(FlowConfig) -> bool {
    |f: FlowConfig| lookup::listed(f.output_ids@, f.output_ids@.len() as int, id)
}

impl AppConfig {
    fn resolve_inputs<'a>(&'a self, flow: &FlowConfig) -> (r: Result<
        Vec<&'a InputDefinition>,
        ConfigError,
    >)
        ensures
            error::is_outcome(
                r,
                error::first_fault(
                    flow.input_ids@,
                    input_exists_check(self.inputs@, flow.id@),
                    0,
                ),
            ),
            r matches Ok(v) ==> v@.len() == flow.input_ids@.len() && resolves_inputs(
                self.inputs@,
                flow.input_ids@,
                v@,
            ),
    {
        let ghost test = input_exists_check(self.inputs@, flow.id@);
        let mut inputs: Vec<&'a InputDefinition> = Vec::new();
        let mut i: usize = 0;
        while i < flow.input_ids.len()
            invariant
                i <= flow.input_ids@.len(),
                test == input_exists_check(self.inputs@, flow.id@),
                error::first_fault(flow.input_ids@, test, 0) == error::first_fault(
                    flow.input_ids@,
                    test,
                    i as int,
                ),
                inputs@.len() == i,
                resolves_inputs(self.inputs@, flow.input_ids@, inputs@),
            decreases flow.input_ids.len() - i,
        {
            let id = flow.input_ids[i].as_str();
            match find_input(&self.inputs, id) {
                Some(def) => {
                    inputs.push(def);
                },
                None => {
                    return Err(
                        ConfigError {
                            message: text::cat5(
                                "Flow '",
                                flow.id.as_str(),
                                "' references input '",
                                id,
                                "' which does not exist",
                            ),
                        },
                    );
                },
            }
            i = i + 1;
        }
        Ok(inputs)
    }

    fn resolve_outputs<'a>(&'a self, flow: &FlowConfig) -> (r: Result<
        Vec<&'a OutputConfig>,
        ConfigError,
    >)
        ensures
            error::is_outcome(
                r,
                error::first_fault(
                    flow.output_ids@,
                    output_exists_check(self.outputs@, flow.id@),
                    0,
                ),
            ),
            r matches Ok(v) ==> v@.len() == flow.output_ids@.len() && resolves_outputs(
                self.outputs@,
                flow.output_ids@,
                v@,
            ),
    {
        let ghost test = output_exists_check(self.outputs@, flow.id@);
        let mut outputs: Vec<&'a OutputConfig> = Vec::new();
        let mut i: usize = 0;
        while i < flow.output_ids.len()
            invariant
                i <= flow.output_ids@.len(),
                test == output_exists_check(self.outputs@, flow.id@),
                error::first_fault(flow.output_ids@, test, 0) == error::first_fault(
                    flow.output_ids@,
                    test,
                    i as int,
                ),
                outputs@.len() == i,
                resolves_outputs(self.outputs@, flow.output_ids@, outputs@),
            decreases flow.output_ids.len() - i,
        {
            let id = flow.output_ids[i].as_str();
            match find_output(&self.outputs, id) {
                Some(output) => {
                    outputs.push(output);
                },
                None => {
                    return Err(
                        ConfigError {
                            message: text::cat5(
                                "Flow '",
                                flow.id.as_str(),
                                "' references output '",
                                id,
                                "' which does not exist",
                            ),
                        },
                    );
                },
            }
            i = i + 1;
        }
        Ok(outputs)
    }

    /// Replaces the references of a flow by the definitions that they name. It
    /// fails on the first reference that names nothing.
    pub fn resolve_flow<'a>(&'a self, flow: &'a FlowConfig) -> (r: Result<
        ResolvedFlow<'a>,
        ConfigError,
    >)
        ensures
            error::is_outcome(r, resolve_fault(*self, *flow)),
            r matches Ok(resolved) ==> {
                &&& *resolved.config == *flow
                &&& resolved.inputs@.len() == flow.input_ids@.len()
                &&& resolved.outputs@.len() == flow.output_ids@.len()
                &&& resolves_inputs(self.inputs@, flow.input_ids@, resolved.inputs@)
                &&& resolves_outputs(self.outputs@, flow.output_ids@, resolved.outputs@)
            },
    {
        let inputs = match self.resolve_inputs(flow) {
            Ok(v) => v,
            Err(e) => {
                return Err(e);
            },
        };
        let outputs = match self.resolve_outputs(flow) {
            Ok(v) => v,
            Err(e) => {
                return Err(e);
            },
        };
        Ok(ResolvedFlow { config: flow, inputs, outputs })
    }

    /// The first flow that names the input `input_id`.
    pub fn flow_using_input<'a>(&'a self, input_id: &str) -> (r: Option<&'a FlowConfig>)
        ensures
            r is Some <==> lookup::find(self.flows@, uses_input(input_id@)) is Some,
            r matches Some(f) ==> lookup::find(self.flows@, uses_input(input_id@)) == Some(*f),
    {
        let ghost p = uses_input(input_id@);
        let mut i: usize = 0;
        assert(self.flows@.skip(0) =~= self.flows@);
        while i < self.flows.len()
            invariant
                i <= self.flows@.len(),
                p == uses_input(input_id@),
                lookup::find(self.flows@, p) == lookup::find(self.flows@.skip(i as int), p),
            decreases self.flows.len() - i,
        {
            assert(self.flows@.skip(i as int).skip(1) =~= self.flows@.skip(i + 1));
            if is_listed(&self.flows[i].input_ids, self.flows[i].input_ids.len(), input_id) {
                return Some(&self.flows[i]);
            }
            i = i + 1;
        }
        None
    }

    /// The first flow that names the output `output_id`.
    pub fn flow_using_output<'a>(&'a self, output_id: &str) -> (r: Option<&'a FlowConfig>)
        ensures
            r is Some <==> lookup::find(self.flows@, uses_output(output_id@)) is Some,
            r matches Some(f) ==> lookup::find(self.flows@, uses_output(output_id@)) == Some(*f),
    {
        let ghost p = uses_output(output_id@);
        let mut i: usize = 0;
        assert(self.flows@.skip(0) =~= self.flows@);
        while i < self.flows.len()
            invariant
                i <= self.flows@.len(),
                p == uses_output(output_id@),
                lookup::find(self.flows@, p) == lookup::find(self.flows@.skip(i as int), p),
            decreases self.flows.len() - i,
        {
            assert(self.flows@.skip(i as int).skip(1) =~= self.flows@.skip(i + 1));
            if is_listed(&self.flows[i].output_ids, self.flows[i].output_ids.len(), output_id) {
                return Some(&self.flows[i]);
            }
            i = i + 1;
        }
        None
    }
}

// ---------------------------------------------------------------------------
// Laws
// ---------------------------------------------------------------------------

/// The active input of a resolved flow is the first that is active, and there is none
/// where none is.
pub proof fn lemma_first_active_input(inputs: Seq<&InputDefinition>, from: int, n: int)
    requires
        0 <= from <= n <= inputs.len(),
        forall|i: int| from <= i < n ==> !(#[trigger] inputs[i]).active,
    ensures
        n == inputs.len() ==> first_active(inputs, from) is None,
        n < inputs.len() && inputs[n].active ==> first_active(inputs, from) == Some(*inputs[n]),
    decreases n - from,
{
    if from < n {
        assert(!inputs[from].active);
        lemma_first_active_input(inputs, from + 1, n);
    }
}

/// A flow resolves exactly when every input and every output that it names is defined.
pub proof fn lemma_flow_resolves_where_all_is_defined(config: AppConfig, flow: FlowConfig)
    ensures
        resolve_fault(config, flow) is None <==> {
            &&& forall|i: int|
                #![trigger flow.input_ids@[i]]
                0 <= i < flow.input_ids@.len() ==> exists|n: int|
                    0 <= n < config.inputs@.len() && (#[trigger] config.inputs@[n]).id@
                        == flow.input_ids@[i]@
            &&& forall|i: int|
                #![trigger flow.output_ids@[i]]
                0 <= i < flow.output_ids@.len() ==> exists|n: int|
                    0 <= n < config.outputs@.len() && (#[trigger] config.outputs@[n]).spec_id()
                        == flow.output_ids@[i]@
        },
{
    let ins = input_exists_check(config.inputs@, flow.id@);
    error::lemma_first_fault_none(flow.input_ids@, ins, 0);
    assert forall|i: int|
        #![trigger flow.input_ids@[i]]
        0 <= i < flow.input_ids@.len() implies (ins(i, flow.input_ids@[i]) is None <==> exists|
        n: int,
    |
        0 <= n < config.inputs@.len() && (#[trigger] config.inputs@[n]).id@
            == flow.input_ids@[i]@) by {
        let p = lookup::input_named(flow.input_ids@[i]@);
        lookup::lemma_find(config.inputs@, p);
        assert forall|n: int| 0 <= n < config.inputs@.len() implies (p(
            #[trigger] config.inputs@[n],
        ) <==> config.inputs@[n].id@ == flow.input_ids@[i]@) by {}
    }
    let outs = output_exists_check(config.outputs@, flow.id@);
    error::lemma_first_fault_none(flow.output_ids@, outs, 0);
    assert forall|i: int|
        #![trigger flow.output_ids@[i]]
        0 <= i < flow.output_ids@.len() implies (outs(i, flow.output_ids@[i]) is None <==> exists|
        n: int,
    |
        0 <= n < config.outputs@.len() && (#[trigger] config.outputs@[n]).spec_id()
            == flow.output_ids@[i]@) by {
        let p = lookup::output_named(flow.output_ids@[i]@);
        lookup::lemma_find(config.outputs@, p);
        assert forall|n: int| 0 <= n < config.outputs@.len() implies (p(
            #[trigger] config.outputs@[n],
        ) <==> config.outputs@[n].spec_id() == flow.output_ids@[i]@) by {}
    }
}

/// A flow is found by an input, or by an output, that it names: the first flow that names
/// it, and none where none does.
pub proof fn lemma_first_user_is_found(flows: Seq<FlowConfig>, id: Seq<char>, n: int)
    requires
        0 <= n <= flows.len(),
    ensures
        (forall|k: int, i: int|
            #![trigger flows[k].input_ids@[i]]
            0 <= k < n && 0 <= i < flows[k].input_ids@.len() ==> flows[k].input_ids@[i]@ != id) && (
        n < flows.len() ==> exists|i: int|
            0 <= i < flows[n].input_ids@.len() && #[trigger] flows[n].input_ids@[i]@ == id)
            ==> lookup::find(flows, uses_input(id)) == (if n < flows.len() {
            Some(flows[n])
        } else {
            None
        }),
        (forall|k: int, i: int|
            #![trigger flows[k].output_ids@[i]]
            0 <= k < n && 0 <= i < flows[k].output_ids@.len() ==> flows[k].output_ids@[i]@ != id)
            && (n < flows.len() ==> exists|i: int|
            0 <= i < flows[n].output_ids@.len() && #[trigger] flows[n].output_ids@[i]@ == id)
            ==> lookup::find(flows, uses_output(id)) == (if n < flows.len() {
            Some(flows[n])
        } else {
            None
        }),
{
    if (forall|k: int, i: int|
        #![trigger flows[k].input_ids@[i]]
        0 <= k < n && 0 <= i < flows[k].input_ids@.len() ==> flows[k].input_ids@[i]@ != id) && (n
        < flows.len() ==> exists|i: int|
        0 <= i < flows[n].input_ids@.len() && #[trigger] flows[n].input_ids@[i]@ == id) {
        lookup::lemma_find_first(flows, uses_input(id), n);
    }
    if (forall|k: int, i: int|
        #![trigger flows[k].output_ids@[i]]
        0 <= k < n && 0 <= i < flows[k].output_ids@.len() ==> flows[k].output_ids@[i]@ != id) && (n
        < flows.len() ==> exists|i: int|
        0 <= i < flows[n].output_ids@.len() && #[trigger] flows[n].output_ids@[i]@ == id) {
        lookup::lemma_find_first(flows, uses_output(id), n);
    }
}

} // verus!
