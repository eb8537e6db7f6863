use vstd::prelude::*;
use crate::key::Pubkey;
use crate::state::Enrollment;

verus! {

/// The part of an enrollment that marks where it stands: when the course was
/// completed, and which credential asset it records.
pub struct Lifecycle {
    pub completed_at: Option<i64>,
    pub credential: Option<Pubkey>,
}

/// Where `e` stands.
pub open spec fn lifecycle(e: Enrollment) -> Lifecycle {
    Lifecycle { completed_at: e.completed_at, credential: e.credential_asset }
}

/// Where an enrollment stands when `enroll` writes it.
pub open spec fn fresh_lifecycle() -> Lifecycle {
    Lifecycle { completed_at: None, credential: None }
}

/// An accepted instruction that writes an enrollment after `enroll`:
/// `complete_lesson`, `finalize_course` at a time, or `issue_credential` for an asset.
pub enum Step {
    Lesson,
    Finalize(i64),
    Issue(Pubkey),
}

/// The instruction is accepted only from this standing.
pub open spec fn step_allowed(l: Lifecycle, s: Step) -> bool {
    match s {
        Step::Lesson => l.completed_at is None,
        Step::Finalize(_) => l.completed_at is None,
        Step::Issue(asset) => {
            &&& l.completed_at is Some
            &&& (l.credential is None || l.credential == Some(asset))
        },
    }
}

/// The standing after the instruction.
pub open spec fn take_step(l: Lifecycle, s: Step) -> Lifecycle {
    match s {
        Step::Lesson => l,
        Step::Finalize(now) => Lifecycle { completed_at: Some(now), ..l },
        Step::Issue(asset) => Lifecycle { credential: Some(asset), ..l },
    }
}

/// The standing of an enrollment after `enroll` and then `steps`.
pub open spec fn run(steps: Seq<Step>) -> Lifecycle
    decreases steps.len(),
{
    if steps.len() == 0 {
        fresh_lifecycle()
    } else {
        take_step(run(steps.drop_last()), steps.last())
    }
}

/// Every instruction in `steps` was accepted where it came.
pub open spec fn valid_history(steps: Seq<Step>) -> bool
    decreases steps.len(),
{
    steps.len() == 0 || (valid_history(steps.drop_last()) && step_allowed(
        run(steps.drop_last()),
        steps.last(),
    ))
}

/// A completed standing comes from a finalization in the history.
pub proof fn lemma_completion_has_finalize(steps: Seq<Step>)
    requires
        run(steps).completed_at is Some,
    ensures
        exists|i: int| 0 <= i < steps.len() && #[trigger] steps[i] is Finalize,
    decreases steps.len(),
{
    if steps.len() > 0 {
        let prefix = steps.drop_last();
        if steps.last() is Finalize {
            assert(steps[steps.len() - 1] is Finalize);
        } else {
            lemma_completion_has_finalize(prefix);
            let i = choose|i: int| 0 <= i < prefix.len() && #[trigger] prefix[i] is Finalize;
            assert(steps[i] == prefix[i]);
        }
    }
}

/// A recorded credential comes from a finalization followed by an issue for
/// that very asset.
pub proof fn lemma_credential_has_finalize_then_issue(steps: Seq<Step>, asset: Pubkey)
    requires
        valid_history(steps),
        run(steps).credential == Some(asset),
    ensures
        exists|i: int, j: int|
            0 <= i < j < steps.len() && #[trigger] steps[i] is Finalize && #[trigger] steps[j]
                == Step::Issue(asset),
    decreases steps.len(),
{
    let prefix = steps.drop_last();
    let last_index = steps.len() - 1;
    if steps.last() == Step::Issue(asset) {
        lemma_completion_has_finalize(prefix);
        let i = choose|i: int| 0 <= i < prefix.len() && #[trigger] prefix[i] is Finalize;
        assert(steps[i] == prefix[i]);
        assert(steps[last_index] == Step::Issue(asset));
    } else {
        lemma_credential_has_finalize_then_issue(prefix, asset);
        let (i, j) = choose|i: int, j: int|
            0 <= i < j < prefix.len() && #[trigger] prefix[i] is Finalize && #[trigger] prefix[j]
                == Step::Issue(asset);
        assert(steps[i] == prefix[i]);
        assert(steps[j] == prefix[j]);
    }
}

} // verus!
