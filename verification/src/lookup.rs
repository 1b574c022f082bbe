//! Finding definitions by identifier.

use vstd::prelude::*;

use crate::models::{FlowGroupConfig, InputDefinition, OutputConfig};
use crate::text;

verus! {

/// The first element that has the property `p`.
pub open spec fn find<A>(s: Seq<A>, p: spec_fn(A) -> bool) -> Option<A>
    decreases s.len(),
{
    if s.len() == 0 {
        None
    } else if p(s[0]) {
        Some(s[0])
    } else {
        find(s.skip(1), p)
    }
}

/// An element is found exactly when there is one, and what is found is one.
pub proof fn lemma_find<A>(s: Seq<A>, p: spec_fn(A) -> bool)
    ensures
        find(s, p) is Some <==> exists|i: int| 0 <= i < s.len() && p(#[trigger] s[i]),
        find(s, p) matches Some(a) ==> p(a) && s.contains(a),
    decreases s.len(),
{
    if s.len() > 0 {
        if p(s[0]) {
            assert(s.contains(s[0]));
        } else {
            let t = s.skip(1);
            lemma_find(t, p);
            if find(t, p) is Some {
                let i = choose|i: int| 0 <= i < t.len() && p(#[trigger] t[i]);
                assert(s[i + 1] == t[i]);
                let a = find(t, p)->0;
                let k = choose|k: int| 0 <= k < t.len() && t[k] == a;
                assert(s[k + 1] == a);
            }
            if exists|i: int| 0 <= i < s.len() && p(#[trigger] s[i]) {
                let i = choose|i: int| 0 <= i < s.len() && p(#[trigger] s[i]);
                assert(t[i - 1] == s[i]);
            }
        }
    }
}

/// The property of having the identifier `id`.
pub open spec fn input_named(id: Seq<char>) -> spec_fn(InputDefinition) -> bool {
    |d: InputDefinition| d.id@ == id
}

/// The property of having the identifier `id`.
pub open spec fn output_named(id: Seq<char>) -> spec_fn(OutputConfig) -> bool {
    |o: OutputConfig| o.spec_id() == id
}

/// The property of having the identifier `id`.
pub open spec fn group_named(id: Seq<char>) -> spec_fn(FlowGroupConfig) -> bool {
    |g: FlowGroupConfig| g.id@ == id
}

/// The input definition `id`.
pub open spec fn input_of(inputs: Seq<InputDefinition>, id: Seq<char>) -> Option<InputDefinition> {
    find(inputs, input_named(id))
}

/// The output `id`.
pub open spec fn output_of(outputs: Seq<OutputConfig>, id: Seq<char>) -> Option<OutputConfig> {
    find(outputs, output_named(id))
}

/// The flow group `id`.
pub open spec fn group_of(groups: Seq<FlowGroupConfig>, id: Seq<char>) -> Option<FlowGroupConfig> {
    find(groups, group_named(id))
}

/// Whether `id` occurs among the first `n` of a list of identifiers.
pub open spec fn listed(ids: Seq<String>, n: int, id: Seq<char>) -> bool {
    exists|i: int| 0 <= i < n && i < ids.len() && #[trigger] ids[i]@ == id
}

/// Finds an input definition by its identifier.
pub fn find_input<'a>(inputs: &'a Vec<InputDefinition>, id: &str) -> (r: Option<&'a InputDefinition>)
    ensures
        r is Some <==> input_of(inputs@, id@) is Some,
        r matches Some(d) ==> input_of(inputs@, id@) == Some(*d),
{
    let mut i: usize = 0;
    assert(inputs@.skip(0) =~= inputs@);
    while i < inputs.len()
        invariant
            i <= inputs@.len(),
            input_of(inputs@, id@) == find(inputs@.skip(i as int), input_named(id@)),
        decreases inputs.len() - i,
    {
        assert(inputs@.skip(i as int).skip(1) =~= inputs@.skip(i + 1));
        if text::str_eq(inputs[i].id.as_str(), id) {
            return Some(&inputs[i]);
        }
        i = i + 1;
    }
    None
}

/// Finds an output by its identifier.
pub fn find_output<'a>(outputs: &'a Vec<OutputConfig>, id: &str) -> (r: Option<&'a OutputConfig>)
    ensures
        r is Some <==> output_of(outputs@, id@) is Some,
        r matches Some(o) ==> output_of(outputs@, id@) == Some(*o),
{
    let mut i: usize = 0;
    assert(outputs@.skip(0) =~= outputs@);
    while i < outputs.len()
        invariant
            i <= outputs@.len(),
            output_of(outputs@, id@) == find(outputs@.skip(i as int), output_named(id@)),
        decreases outputs.len() - i,
    {
        assert(outputs@.skip(i as int).skip(1) =~= outputs@.skip(i + 1));
        if text::str_eq(outputs[i].id(), id) {
            return Some(&outputs[i]);
        }
        i = i + 1;
    }
    None
}

/// Finds a flow group by its identifier.
pub fn find_group<'a>(groups: &'a Vec<FlowGroupConfig>, id: &str) -> (r: Option<&'a FlowGroupConfig>)
    ensures
        r is Some <==> group_of(groups@, id@) is Some,
        r matches Some(g) ==> group_of(groups@, id@) == Some(*g),
{
    let mut i: usize = 0;
    assert(groups@.skip(0) =~= groups@);
    while i < groups.len()
        invariant
            i <= groups@.len(),
            group_of(groups@, id@) == find(groups@.skip(i as int), group_named(id@)),
        decreases groups.len() - i,
    {
        assert(groups@.skip(i as int).skip(1) =~= groups@.skip(i + 1));
        if text::str_eq(groups[i].id.as_str(), id) {
            return Some(&groups[i]);
        }
        i = i + 1;
    }
    None
}

/// Whether `id` occurs among the first `n` of a list of identifiers.
pub fn is_listed(ids: &Vec<String>, n: usize, id: &str) -> (r: bool)
    requires
        n <= ids@.len(),
    ensures
        r == listed(ids@, n as int, id@),
{
    let mut i: usize = 0;
    while i < n
        invariant
            i <= n <= ids@.len(),
            forall|j: int| 0 <= j < i ==> #[trigger] ids@[j]@ != id@,
        decreases n - i,
    {
        if text::str_eq(ids[i].as_str(), id) {
            assert(ids@[i as int]@ == id@);
            return true;
        }
        i = i + 1;
    }
    false
}

/// The first element with the property is the one that is found.
pub proof fn lemma_find_first<A>(s: Seq<A>, p: spec_fn(A) -> bool, n: int)
    requires
        0 <= n <= s.len(),
        forall|i: int| 0 <= i < n ==> !p(#[trigger] s[i]),
    ensures
        n == s.len() ==> find(s, p) is None,
        n < s.len() && p(s[n]) ==> find(s, p) == Some(s[n]),
    decreases n,
{
    if n > 0 {
        assert(!p(s[0]));
        let t = s.skip(1);
        assert forall|i: int| 0 <= i < n - 1 implies !p(#[trigger] t[i]) by {
            assert(t[i] == s[i + 1]);
        }
        lemma_find_first(t, p, n - 1);
    }
}

/// A search by identifier gives the first input that has it, and none where none has it.
pub proof fn lemma_first_input_is_found(inputs: Seq<InputDefinition>, id: Seq<char>, n: int)
    requires
        0 <= n <= inputs.len(),
        forall|i: int| 0 <= i < n ==> (#[trigger] inputs[i]).id@ != id,
    ensures
        n == inputs.len() ==> input_of(inputs, id) is None,
        n < inputs.len() && inputs[n].id@ == id ==> input_of(inputs, id) == Some(inputs[n]),
{
    lemma_find_first(inputs, input_named(id), n);
}

/// A search by identifier gives the first output that has it, and none where none has it.
pub proof fn lemma_first_output_is_found(outputs: Seq<OutputConfig>, id: Seq<char>, n: int)
    requires
        0 <= n <= outputs.len(),
        forall|i: int| 0 <= i < n ==> (#[trigger] outputs[i]).spec_id() != id,
    ensures
        n == outputs.len() ==> output_of(outputs, id) is None,
        n < outputs.len() && outputs[n].spec_id() == id ==> output_of(outputs, id) == Some(
            outputs[n],
        ),
{
    lemma_find_first(outputs, output_named(id), n);
}

/// A search by identifier gives the first group that has it, and none where none has it.
pub proof fn lemma_first_group_is_found(groups: Seq<FlowGroupConfig>, id: Seq<char>, n: int)
    requires
        0 <= n <= groups.len(),
        forall|i: int| 0 <= i < n ==> (#[trigger] groups[i]).id@ != id,
    ensures
        n == groups.len() ==> group_of(groups, id) is None,
        n < groups.len() && groups[n].id@ == id ==> group_of(groups, id) == Some(groups[n]),
{
    lemma_find_first(groups, group_named(id), n);
}

} // verus!
