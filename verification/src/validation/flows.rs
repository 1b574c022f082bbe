//! Checks of flows and flow groups.

use vstd::prelude::*;

use crate::binary;
use crate::error;
use crate::error::{fail, Checks, ConfigError};
use crate::lookup;
use crate::lookup::{find_group, is_listed};
use crate::models::{BandwidthLimitConfig, FlowConfig, FlowGroupConfig};
use crate::text;
use crate::validation::fields;
use crate::validation::fields::{
    validate_clock_domain, validate_id, validate_name, validate_program_number,
};
use crate::validation::media;
use crate::validation::media::validate_flow_media;

verus! {

/// The check of every reference of a flow. `kind` is `input_id` or `output_id`.
pub open spec fn reference_check(flow_id: Seq<char>, kind: Seq<char>) -> spec_fn(int, String) -> Option<
    Seq<char>,
> {
    |i: int, id: String|
        error::check(
            id@.len() == 0,
            "Flow '"@ + flow_id + "': "@ + kind + "s must not contain empty strings"@,
        ).otherwise(
            error::check(
                text::byte_len(id@) > 64,
                "Flow '"@ + flow_id + "': "@ + kind + " '"@ + id@
                    + "' must be at most 64 characters"@,
            ),
        )
}

/// The references of a flow: none empty, none too long.
pub open spec fn references_fault(ids: Vec<String>, flow_id: Seq<char>, kind: Seq<char>) -> Option<
    Seq<char>,
> {
    error::first_fault(ids@, reference_check(flow_id, kind), 0)
}

/// Checks the references of a flow.
pub fn validate_references(ids: &Vec<String>, flow_id: &str, kind: &str) -> (r: Result<
    (),
    ConfigError,
>)
    ensures
        error::is_outcome(r, references_fault(*ids, flow_id@, kind@)),
{
    let mut i: usize = 0;
    while i < ids.len()
        invariant
            i <= ids@.len(),
            error::first_fault(ids@, reference_check(flow_id@, kind@), 0) == error::first_fault(
                ids@,
                reference_check(flow_id@, kind@),
                i as int,
            ),
        decreases ids.len() - i,
    {
        let id = ids[i].as_str();
        if id.is_empty() {
            return fail(
                text::cat5("Flow '", flow_id, "': ", kind, "s must not contain empty strings"),
            );
        }
        if text::byte_count(id) > 64 {
            return fail(
                text::cat7(
                    "Flow '",
                    flow_id,
                    "': ",
                    kind,
                    " '",
                    id,
                    "' must be at most 64 characters",
                ),
            );
        }
        i = i + 1;
    }
    Ok(())
}

/// The rules for the bandwidth limit of a flow: positive and at most 10
/// Gbps, with a grace period of 1 to 60 seconds.
pub open spec fn bandwidth_limit_fault(
    bw: BandwidthLimitConfig,
    flow_id: Seq<char>,
) -> Option<Seq<char>> {
    error::check(
        binary::le(bw.max_bitrate_mbps.bits, 0),
        "Flow '"@ + flow_id + "': bandwidth_limit max_bitrate_mbps must be positive, got "@
            + bw.max_bitrate_mbps.text@,
    ).otherwise(
        error::check(
            binary::lt(binary::TEN_THOUSAND, bw.max_bitrate_mbps.bits),
            "Flow '"@ + flow_id
                + "': bandwidth_limit max_bitrate_mbps must be at most 10000 (10 Gbps), got "@
                + bw.max_bitrate_mbps.text@,
        ),
    ).otherwise(
        error::check(
            bw.grace_period_secs < 1,
            "Flow '"@ + flow_id + "': bandwidth_limit grace_period_secs must be at least 1, got "@
                + text::dec(bw.grace_period_secs as nat),
        ),
    ).otherwise(
        error::check(
            bw.grace_period_secs > 60,
            "Flow '"@ + flow_id + "': bandwidth_limit grace_period_secs must be at most 60, got "@
                + text::dec(bw.grace_period_secs as nat),
        ),
    )
}

/// Checks the bandwidth limit of a flow: positive and at most 10 Gbps, with a grace period of 1
/// to 60 seconds.
pub fn validate_bandwidth_limit(
    bw: &BandwidthLimitConfig,
    flow_id: &str,
) -> (r: Result<(), ConfigError>)
    ensures
        error::is_outcome(r, bandwidth_limit_fault(*bw, flow_id@)),
{
    if binary::at_most(bw.max_bitrate_mbps.bits, 0) {
        return fail(
            text::cat4(
                "Flow '",
                flow_id,
                "': bandwidth_limit max_bitrate_mbps must be positive, got ",
                bw.max_bitrate_mbps.text.as_str(),
            ),
        );
    }
    if binary::less_than(binary::TEN_THOUSAND, bw.max_bitrate_mbps.bits) {
        return fail(
            text::cat4(
                "Flow '",
                flow_id,
                "': bandwidth_limit max_bitrate_mbps must be at most 10000 (10 Gbps), got ",
                bw.max_bitrate_mbps.text.as_str(),
            ),
        );
    }
    if bw.grace_period_secs < 1 {
        return fail(text::cat4(
            "Flow '",
            flow_id,
            "': bandwidth_limit grace_period_secs must be at least 1, got ",
            text::dec_string(bw.grace_period_secs as u64).as_str(),
        ));
    }
    if bw.grace_period_secs > 60 {
        return fail(text::cat4(
            "Flow '",
            flow_id,
            "': bandwidth_limit grace_period_secs must be at most 60, got ",
            text::dec_string(bw.grace_period_secs as u64).as_str(),
        ));
    }
    Ok(())
}

/// The rules for a flow on its own.
pub open spec fn flow_fault(flow: FlowConfig) -> Option<Seq<char>> {
    error::check(flow.id@.len() == 0, "Flow ID cannot be empty"@).otherwise(
        error::check(text::byte_len(flow.id@) > 64, "Flow ID must be at most 64 characters"@),
    ).otherwise(
        error::check(flow.name@.len() == 0, "Flow name cannot be empty"@),
    ).otherwise(
        error::check(
            text::byte_len(flow.name@) > 256,
            "Flow name must be at most 256 characters"@,
        ),
    ).otherwise(
        fields::program_number_fault(
            flow.thumbnail_program_number,
            "Flow '"@ + flow.id@ + "' thumbnail"@,
        ),
    ).otherwise(
        error::when(
            flow.flow_group_id is Some,
            error::check(
                flow.flow_group_id->0@.len() == 0,
                "Flow '"@ + flow.id@ + "': flow_group_id must not be an empty string"@,
            ).otherwise(
                error::check(
                    text::byte_len(flow.flow_group_id->0@) > 64,
                    "Flow '"@ + flow.id@ + "': flow_group_id must be at most 64 characters"@,
                ),
            ),
        ),
    ).otherwise(
        fields::clock_domain_fault(flow.clock_domain, "Flow '"@ + flow.id@ + "'"@),
    ).otherwise(
        references_fault(flow.input_ids, flow.id@, "input_id"@),
    ).otherwise(
        references_fault(flow.output_ids, flow.id@, "output_id"@),
    ).otherwise(
        error::when(
            flow.bandwidth_limit is Some,
            bandwidth_limit_fault(flow.bandwidth_limit->0, flow.id@),
        ),
    ).otherwise(
        media::flow_media_fault(flow),
    )
}

/// Checks a flow on its own. Whether the inputs and outputs that it names exist, and whether
/// they are free, is checked for the configuration as a whole.
pub fn validate_flow(flow: &FlowConfig) -> (r: Result<(), ConfigError>)
    ensures
        error::is_outcome(r, flow_fault(*flow)),
{
    if flow.id.as_str().is_empty() {
        return fail("Flow ID cannot be empty".to_owned());
    }
    if text::byte_count(flow.id.as_str()) > 64 {
        return fail("Flow ID must be at most 64 characters".to_owned());
    }
    if flow.name.as_str().is_empty() {
        return fail("Flow name cannot be empty".to_owned());
    }
    if text::byte_count(flow.name.as_str()) > 256 {
        return fail("Flow name must be at most 256 characters".to_owned());
    }
    validate_program_number(
        flow.thumbnail_program_number,
        text::cat3("Flow '", flow.id.as_str(), "' thumbnail").as_str(),
    )?;
    if let Some(gid) = &flow.flow_group_id {
        if gid.as_str().is_empty() {
            return fail(text::cat3(
                "Flow '",
                flow.id.as_str(),
                "': flow_group_id must not be an empty string",
            ));
        }
        if text::byte_count(gid.as_str()) > 64 {
            return fail(text::cat3(
                "Flow '",
                flow.id.as_str(),
                "': flow_group_id must be at most 64 characters",
            ));
        }
    }
    validate_clock_domain(
        flow.clock_domain,
        text::cat3("Flow '", flow.id.as_str(), "'").as_str(),
    )?;
    validate_references(&flow.input_ids, flow.id.as_str(), "input_id")?;
    validate_references(&flow.output_ids, flow.id.as_str(), "output_id")?;
    if let Some(bw) = &flow.bandwidth_limit {
        validate_bandwidth_limit(bw, flow.id.as_str())?;
    }
    validate_flow_media(flow)
}

// ---------------------------------------------------------------------------
// Flow groups
// ---------------------------------------------------------------------------

/// Whether one of the first `n` flows has the identifier `id`.
pub open spec fn flow_defined(flows: Seq<FlowConfig>, n: int, id: Seq<char>) -> bool {
    exists|i: int| 0 <= i < n && i < flows.len() && #[trigger] flows[i].id@ == id
}

/// See [`flow_defined`].
pub fn is_flow_defined(flows: &Vec<FlowConfig>, n: usize, id: &str) -> (r: bool)
    requires
        n <= flows@.len(),
    ensures
        r == flow_defined(flows@, n as int, id@),
{
    let mut i: usize = 0;
    while i < n
        invariant
            i <= n <= flows@.len(),
            forall|j: int| 0 <= j < i ==> #[trigger] flows@[j].id@ != id@,
        decreases n - i,
    {
        if text::str_eq(flows[i].id.as_str(), id) {
            assert(flows@[i as int].id@ == id@);
            return true;
        }
        i = i + 1;
    }
    false
}

/// Whether one of the first `n` groups has the identifier `id`.
pub open spec fn group_defined(groups: Seq<FlowGroupConfig>, n: int, id: Seq<char>) -> bool {
    exists|i: int| 0 <= i < n && i < groups.len() && #[trigger] groups[i].id@ == id
}

fn is_group_defined(groups: &Vec<FlowGroupConfig>, n: usize, id: &str) -> (r: bool)
    requires
        n <= groups@.len(),
    ensures
        r == group_defined(groups@, n as int, id@),
{
    let mut i: usize = 0;
    while i < n
        invariant
            i <= n <= groups@.len(),
            forall|j: int| 0 <= j < i ==> #[trigger] groups@[j].id@ != id@,
        decreases n - i,
    {
        if text::str_eq(groups[i].id.as_str(), id) {
            assert(groups@[i as int].id@ == id@);
            return true;
        }
        i = i + 1;
    }
    false
}

/// The check of every member of a flow group.
pub open spec fn member_check(g: FlowGroupConfig, flows: Seq<FlowConfig>) -> spec_fn(
    int,
    String,
) -> Option<Seq<char>> {
    |i: int, fid: String|
        error::check(
            text::byte_len(fid@) > 64,
            "Flow group '"@ + g.id@ + "': member flow ID '"@ + fid@ + "' is too long (max 64)"@,
        ).otherwise(
            error::check(
                lookup::listed(g.flows@, i, fid@),
                "Flow group '"@ + g.id@ + "': duplicate member flow ID '"@ + fid@ + "'"@,
            ),
        ).otherwise(
            error::check(
                !flow_defined(flows, flows.len() as int, fid@),
                "Flow group '"@ + g.id@ + "': member flow ID '"@ + fid@
                    + "' does not reference a defined flow"@,
            ),
        )
}

/// Flow group number `i`: identifier, name and clock domain; an identifier that
/// no earlier group has; at least one member; members that are distinct flows
/// of the configuration.
pub open spec fn flow_group_fault(
    groups: Seq<FlowGroupConfig>,
    i: int,
    flows: Seq<FlowConfig>,
) -> Option<Seq<char>> {
    let g = groups[i];
    fields::id_fault(g.id@, "Flow group"@).otherwise(
        fields::name_fault(g.name@, "Flow group"@),
    ).otherwise(
        fields::clock_domain_fault(g.clock_domain, "Flow group '"@ + g.id@ + "'"@),
    ).otherwise(
        error::check(
            group_defined(groups, i, g.id@),
            "Duplicate flow group ID: "@ + g.id@,
        ),
    ).otherwise(
        error::check(
            g.flows@.len() == 0,
            "Flow group '"@ + g.id@ + "' must reference at least one flow"@,
        ),
    ).otherwise(error::first_fault(g.flows@, member_check(g, flows), 0))
}

fn validate_members(g: &FlowGroupConfig, flows: &Vec<FlowConfig>) -> (r: Result<(), ConfigError>)
    ensures
        error::is_outcome(r, error::first_fault(g.flows@, member_check(*g, flows@), 0)),
{
    let mut i: usize = 0;
    while i < g.flows.len()
        invariant
            i <= g.flows@.len(),
            error::first_fault(g.flows@, member_check(*g, flows@), 0) == error::first_fault(
                g.flows@,
                member_check(*g, flows@),
                i as int,
            ),
        decreases g.flows.len() - i,
    {
        let fid = g.flows[i].as_str();
        if text::byte_count(fid) > 64 {
            return fail(
                text::cat5(
                    "Flow group '",
                    g.id.as_str(),
                    "': member flow ID '",
                    fid,
                    "' is too long (max 64)",
                ),
            );
        }
        if is_listed(&g.flows, i, fid) {
            return fail(
                text::cat5(
                    "Flow group '",
                    g.id.as_str(),
                    "': duplicate member flow ID '",
                    fid,
                    "'",
                ),
            );
        }
        if !is_flow_defined(flows, flows.len(), fid) {
            return fail(
                text::cat5(
                    "Flow group '",
                    g.id.as_str(),
                    "': member flow ID '",
                    fid,
                    "' does not reference a defined flow",
                ),
            );
        }
        i = i + 1;
    }
    Ok(())
}

/// Checks flow group number `i`.
pub fn validate_flow_group(groups: &Vec<FlowGroupConfig>, i: usize, flows: &Vec<FlowConfig>) -> (r:
    Result<(), ConfigError>)
    requires
        i < groups@.len(),
    ensures
        error::is_outcome(r, flow_group_fault(groups@, i as int, flows@)),
{
    let g = &groups[i];
    validate_id(g.id.as_str(), "Flow group")?;
    validate_name(g.name.as_str(), "Flow group")?;
    validate_clock_domain(
        g.clock_domain,
        text::cat3("Flow group '", g.id.as_str(), "'").as_str(),
    )?;
    if is_group_defined(groups, i, g.id.as_str()) {
        return fail(text::cat2("Duplicate flow group ID: ", g.id.as_str()));
    }
    if g.flows.is_empty() {
        return fail(
            text::cat3(
                "Flow group '",
                g.id.as_str(),
                "' must reference at least one flow",
            ),
        );
    }
    validate_members(g, flows)
}

/// The check of every flow group.
pub open spec fn flow_group_check(groups: Seq<FlowGroupConfig>, flows: Seq<FlowConfig>) -> spec_fn(
    int,
    FlowGroupConfig,
) -> Option<Seq<char>> {
    |i: int, g: FlowGroupConfig| flow_group_fault(groups, i, flows)
}

/// All flow groups.
pub open spec fn flow_groups_fault(groups: Seq<FlowGroupConfig>, flows: Seq<FlowConfig>) -> Option<
    Seq<char>,
> {
    error::first_fault(groups, flow_group_check(groups, flows), 0)
}

/// Checks all flow groups.
pub fn validate_flow_groups(groups: &Vec<FlowGroupConfig>, flows: &Vec<FlowConfig>) -> (r: Result<
    (),
    ConfigError,
>)
    ensures
        error::is_outcome(r, flow_groups_fault(groups@, flows@)),
{
    let ghost test = flow_group_check(groups@, flows@);
    let mut i: usize = 0;
    while i < groups.len()
        invariant
            i <= groups@.len(),
            test == flow_group_check(groups@, flows@),
            error::first_fault(groups@, test, 0) == error::first_fault(groups@, test, i as int),
        decreases groups.len() - i,
    {
        validate_flow_group(groups, i, flows)?;
        i = i + 1;
    }
    Ok(())
}

/// The check that a flow belongs to the group that it names.
pub open spec fn membership_check(groups: Seq<FlowGroupConfig>) -> spec_fn(int, FlowConfig) -> Option<
    Seq<char>,
> {
    |i: int, flow: FlowConfig|
        {
            let group = lookup::group_of(groups, flow.flow_group_id->0@);
            error::when(
                flow.flow_group_id is Some,
                error::check(
                    group is None,
                    "Flow '"@ + flow.id@ + "' references flow_group_id '"@ + flow.flow_group_id->0@
                        + "' which is not defined"@,
                ).otherwise(
                    error::check(
                        !lookup::listed(
                            group->0.flows@,
                            group->0.flows@.len() as int,
                            flow.id@,
                        ),
                        "Flow '"@ + flow.id@ + "' references flow_group_id '"@
                            + flow.flow_group_id->0@ + "' but is not a member of that group"@,
                    ),
                ),
            )
        }
}

/// Every flow that names a group must be a member of it.
pub open spec fn memberships_fault(flows: Seq<FlowConfig>, groups: Seq<FlowGroupConfig>) -> Option<
    Seq<char>,
> {
    error::first_fault(flows, membership_check(groups), 0)
}

/// Checks that every flow that names a group is a member of it.
pub fn validate_memberships(flows: &Vec<FlowConfig>, groups: &Vec<FlowGroupConfig>) -> (r: Result<
    (),
    ConfigError,
>)
    ensures
        error::is_outcome(r, memberships_fault(flows@, groups@)),
{
    let ghost test = membership_check(groups@);
    let mut i: usize = 0;
    while i < flows.len()
        invariant
            i <= flows@.len(),
            test == membership_check(groups@),
            error::first_fault(flows@, test, 0) == error::first_fault(flows@, test, i as int),
        decreases flows.len() - i,
    {
        let flow = &flows[i];
        if let Some(gid) = &flow.flow_group_id {
            match find_group(groups, gid.as_str()) {
                Some(group) => {
                    if !is_listed(&group.flows, group.flows.len(), flow.id.as_str()) {
                        return fail(
                            text::cat5(
                                "Flow '",
                                flow.id.as_str(),
                                "' references flow_group_id '",
                                gid.as_str(),
                                "' but is not a member of that group",
                            ),
                        );
                    }
                },
                None => {
                    return fail(
                        text::cat5(
                            "Flow '",
                            flow.id.as_str(),
                            "' references flow_group_id '",
                            gid.as_str(),
                            "' which is not defined",
                        ),
                    );
                },
            }
        }
        i = i + 1;
    }
    Ok(())
}

} // verus!
