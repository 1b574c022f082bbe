//! Validation errors, and how the outcome of a series of checks is stated.

use vstd::prelude::*;

verus! {

/// Why a configuration was rejected.
#[derive(Debug, Clone, PartialEq, Eq)]
pub struct ConfigError {
    pub message: String,
}

impl ConfigError {
    /// The message.
    pub fn to_string(&self) -> (r: String)
        ensures
            r@ == self.message@,
    {
        self.message.clone()
    }
}

/// The outcome of a check, as a value: the message of the failure, or none.
pub open spec fn fault_of<T>(r: Result<T, ConfigError>) -> Option<Seq<char>> {
    match r {
        Ok(_) => None,
        Err(e) => Some(e.message@),
    }
}

/// Whether `r` is the outcome `fault`.
pub open spec fn is_outcome<T>(r: Result<T, ConfigError>, fault: Option<Seq<char>>) -> bool {
    fault_of(r) == fault
}

/// The outcome of a single check: it fails with `message` where `bad` holds.
pub open spec fn check(bad: bool, message: Seq<char>) -> Option<Seq<char>> {
    if bad {
        Some(message)
    } else {
        None
    }
}

/// Checks that are made only where `cond` holds.
pub open spec fn when(cond: bool, outcome: Option<Seq<char>>) -> Option<Seq<char>> {
    if cond {
        outcome
    } else {
        None
    }
}

/// Checks in a row: the first that fails decides.
pub trait Checks: Sized {
    spec fn otherwise(self, next: Self) -> Self;
}

impl Checks for Option<Seq<char>> {
    open spec fn otherwise(self, next: Option<Seq<char>>) -> Option<Seq<char>> {
        if self is Some {
            self
        } else {
            next
        }
    }
}

/// The outcome for a list: that of the first element that fails.
pub open spec fn first_fault<A>(s: Seq<A>, f: spec_fn(int, A) -> Option<Seq<char>>, from: int) -> Option<
    Seq<char>,
>
    decreases s.len() - from,
{
    if 0 <= from < s.len() {
        f(from, s[from]).otherwise(first_fault(s, f, from + 1))
    } else {
        None
    }
}

/// A list passes exactly when each of its elements does.
pub proof fn lemma_first_fault_none<A>(s: Seq<A>, f: spec_fn(int, A) -> Option<Seq<char>>, from: int)
    requires
        0 <= from,
    ensures
        first_fault(s, f, from) is None <==> forall|i: int|
            from <= i < s.len() ==> (#[trigger] f(i, s[i])) is None,
    decreases s.len() - from,
{
    if from < s.len() {
        lemma_first_fault_none(s, f, from + 1);
        if first_fault(s, f, from) is None {
            assert forall|i: int| from <= i < s.len() implies (#[trigger] f(i, s[i])) is None by {
                if i == from {
                }
            }
        }
    }
}

/// Fails with the given message.
pub fn fail(message: String) -> (r: Result<(), ConfigError>)
    ensures
        is_outcome(r, Some(message@)),
{
    Err(ConfigError { message })
}

} // verus!
