//! The rule by which a plan is carried out: one step at a time, in order,
//! and not one step further once a step has failed.

use vstd::prelude::*;
use crate::artifact::PackagingFailed;
use crate::steps::Step;

verus! {

/// What to do next with a plan.
#[derive(Clone, Copy, Debug, PartialEq, Eq)]
pub enum Decision {
    /// Perform the step at `index`, and come back with its outcome.
    Perform { index: usize },
    /// Every step has succeeded.
    Finished,
    /// The step at `failed` did not succeed; nothing more is performed.
    Aborted { failed: usize },
}

/// Every one of the first `n` outcomes is a success.
pub open spec fn all_succeeded(outcomes: Seq<bool>, n: int) -> bool {
    forall|k: int| 0 <= k < n && k < outcomes.len() ==> outcomes[k]
}

/// `i` is the first failure among the outcomes.
pub open spec fn first_failure(outcomes: Seq<bool>, i: int) -> bool {
    0 <= i < outcomes.len() && !outcomes[i] && all_succeeded(outcomes, i)
}

/// `v` is what follows for a plan of `len` steps whose first steps ended as
/// `outcomes` say, in order.
pub open spec fn follows(v: Decision, len: nat, outcomes: Seq<bool>) -> bool {
    match v {
        Decision::Aborted { failed } => first_failure(outcomes, failed as int),
        Decision::Perform { index } => all_succeeded(outcomes, outcomes.len() as int) && index
            == outcomes.len() && index < len,
        Decision::Finished => all_succeeded(outcomes, outcomes.len() as int) && outcomes.len()
            >= len,
    }
}

/// Decides what to do with `plan` after the outcomes so far.
pub fn next_step(plan: &Vec<Step>, outcomes: &Vec<bool>) -> (r: Decision)
    ensures
        follows(r, plan@.len(), outcomes@),
{
    let mut i: usize = 0;
    while i < outcomes.len()
        invariant
            i <= outcomes.len(),
            all_succeeded(outcomes@, i as int),
        decreases outcomes.len() - i,
    {
        if !outcomes[i] {
            return Decision::Aborted { failed: i };
        }
        i += 1;
    }
    if outcomes.len() < plan.len() {
        Decision::Perform { index: outcomes.len() }
    } else {
        Decision::Finished
    }
}

/// The outcomes settle what follows: no two different decisions do.
pub proof fn decision_is_determined(a: Decision, b: Decision, len: nat, outcomes: Seq<bool>)
    requires
        follows(a, len, outcomes),
        follows(b, len, outcomes),
    ensures
        a == b,
{
    if a is Aborted && b is Aborted {
        let i = a->failed as int;
        let j = b->failed as int;
        if i < j {
            assert(outcomes[i]);
        } else if j < i {
            assert(outcomes[j]);
        }
    }
}

/// A step is performed only after every step before it has succeeded: once
/// one has failed, no later step is ever asked for.
pub proof fn performed_only_after_success(v: Decision, len: nat, outcomes: Seq<bool>, k: int)
    requires
        follows(v, len, outcomes),
        v is Perform,
        0 <= k < v->index,
    ensures
        k < outcomes.len() && outcomes[k],
{
}

/// The failure that a failed step of a packaging plan amounts to.
pub fn failure_of(step: &Step) -> (r: PackagingFailed)
    ensures
        r == if step@ is Rename {
            PackagingFailed::RenameFailed
        } else {
            PackagingFailed::StepFailed
        },
{
    match step {
        Step::Rename { .. } => PackagingFailed::RenameFailed,
        _ => PackagingFailed::StepFailed,
    }
}

} // verus!
