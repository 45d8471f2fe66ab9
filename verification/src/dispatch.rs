//! The verification pipeline as a transition function.
//!
//! The semantic validator and the chain state service are outside services.
//! The pipeline's decisions are made here: given the stage a request is in
//! and what a service answered, [`step`] says which stage comes next and
//! which service to call. Whoever drives the pipeline makes the call and
//! hands the answer back as the next [`Event`].
//!
//! ```text
//! Received -> SemanticValidating -> ContextuallyValidating -> Committing -> Committed
//!                    |                     |         |             |
//!                    v                     v         v             v
//!                 Rejected              Rejected  Evaluated     Rejected
//! ```
//!
//! `E` is the error type of the services. An error is never looked into: it
//! is stored in the rejection as it came.

use crate::policy::Plan;
use crate::request::Request;
use std::sync::Arc;
use vstd::prelude::*;
use zebra_chain::block::Block;

verus! {

/// The service whose refusal ended the pipeline.
#[derive(Clone, Copy, Debug, PartialEq, Eq, Structural)]
pub enum RejectKind {
    /// The block failed the semantic validator's checks.
    SemanticInvalid,
    /// The block failed validation against the current chain state.
    ContextuallyInvalid,
    /// The block was valid, but the chain state could not apply it.
    CommitFailed,
}

/// Where a request stands in the pipeline.
#[derive(Clone, Debug, PartialEq, Eq)]
pub enum Stage<E> {
    /// Nothing has been done yet.
    Received,
    /// The semantic validator has been asked.
    SemanticValidating,
    /// The chain state has been asked for contextual validation.
    ContextuallyValidating,
    /// The chain state has been asked to commit the block.
    Committing,
    /// A service refused the block; `error` is what that service returned.
    Rejected { kind: RejectKind, error: E },
    /// The block is part of the chain state.
    Committed,
    /// The block passed validation and was not to be committed.
    Evaluated,
}

/// What happened since the last step.
#[derive(Debug, PartialEq, Eq)]
pub enum Event<E> {
    /// The request entered the pipeline.
    Submitted,
    /// The semantic validator answered.
    Semantic(Result<(), E>),
    /// The chain state answered a contextual validation.
    Contextual(Result<(), E>),
    /// The chain state answered a commit.
    Commit(Result<(), E>),
}

/// A call to one of the services, with its arguments.
#[derive(Clone, Debug, PartialEq, Eq)]
pub enum Call {
    /// Semantic validation of `block`.
    ValidateSemantics { block: Arc<Block>, full_semantic_checks: bool, check_proof_of_work: bool },
    /// Validation of `block` against the current chain state.
    ValidateContext { block: Arc<Block> },
    /// Commitment of `block` to the chain state.
    Commit { block: Arc<Block> },
}

/// The result of a step: the stage the request is in now, and the call to
/// make, if any.
#[derive(Clone, Debug, PartialEq, Eq)]
pub struct Transition<E> {
    pub stage: Stage<E>,
    pub call: Option<Call>,
}

impl<E> Stage<E> {
    /// A stage that no event leads out of.
    pub open spec fn spec_is_terminal(&self) -> bool {
        self is Rejected || self is Committed || self is Evaluated
    }

    /// Returns `true` for `Rejected`, `Committed` and `Evaluated`.
    #[verifier::when_used_as_spec(spec_is_terminal)]
    pub fn is_terminal(&self) -> (res: bool)
        ensures
            res == self.spec_is_terminal(),
    {
        match self {
            Stage::Received => false,
            Stage::SemanticValidating => false,
            Stage::ContextuallyValidating => false,
            Stage::Committing => false,
            Stage::Rejected { .. } => true,
            Stage::Committed => true,
            Stage::Evaluated => true,
        }
    }

    /// How far along the pipeline a stage is. Every transition leads to a
    /// stage of higher rank.
    pub open spec fn rank(&self) -> nat {
        match self {
            Stage::Received => 0,
            Stage::SemanticValidating => 1,
            Stage::ContextuallyValidating => 2,
            Stage::Committing => 3,
            Stage::Rejected { .. } => 4,
            Stage::Committed => 4,
            Stage::Evaluated => 4,
        }
    }
}

/// The stage after a service's answer: on success `on_ok` with its call, on
/// failure a rejection of the given kind that holds the service's error.
pub open spec fn after_answer<E>(
    answer: Result<(), E>,
    kind: RejectKind,
    on_ok: Transition<E>,
) -> Transition<E> {
    match answer {
        Ok(_) => on_ok,
        Err(error) => Transition { stage: Stage::Rejected { kind, error }, call: None },
    }
}

/// The transition table. `None` where `event` is not the one that `stage`
/// waits for; terminal stages wait for none.
pub open spec fn next<E>(plan: Plan, block: Arc<Block>, stage: Stage<E>, event: Event<E>) -> Option<
    Transition<E>,
> {
    match (stage, event) {
        (Stage::Received, Event::Submitted) => Some(
            Transition {
                stage: Stage::SemanticValidating,
                call: Some(
                    Call::ValidateSemantics {
                        block,
                        full_semantic_checks: plan.full_semantic_checks,
                        check_proof_of_work: plan.check_proof_of_work,
                    },
                ),
            },
        ),
        (Stage::SemanticValidating, Event::Semantic(answer)) => Some(
            after_answer(
                answer,
                RejectKind::SemanticInvalid,
                Transition {
                    stage: Stage::ContextuallyValidating,
                    call: Some(Call::ValidateContext { block }),
                },
            ),
        ),
        (Stage::ContextuallyValidating, Event::Contextual(answer)) => Some(
            after_answer(
                answer,
                RejectKind::ContextuallyInvalid,
                if plan.commit_on_success {
                    Transition { stage: Stage::Committing, call: Some(Call::Commit { block }) }
                } else {
                    Transition { stage: Stage::Evaluated, call: None }
                },
            ),
        ),
        (Stage::Committing, Event::Commit(answer)) => Some(
            after_answer(
                answer,
                RejectKind::CommitFailed,
                Transition { stage: Stage::Committed, call: None },
            ),
        ),
        _ => None,
    }
}

/// One step of the pipeline for `request`.
///
/// Returns the next stage and the call to make where `event` is the one that
/// `stage` waits for, and `None` where it is not: then the request stays in
/// `stage`.
pub fn step<E>(request: &Request, stage: &Stage<E>, event: Event<E>) -> (res: Option<Transition<E>>)
    ensures
        res == next(request.spec_plan(), request.spec_block(), *stage, event),
{
    let plan = request.plan();
    match stage {
        Stage::Received => match event {
            Event::Submitted => Some(
                Transition {
                    stage: Stage::SemanticValidating,
                    call: Some(
                        Call::ValidateSemantics {
                            block: request.block(),
                            full_semantic_checks: plan.full_semantic_checks,
                            check_proof_of_work: plan.check_proof_of_work,
                        },
                    ),
                },
            ),
            _ => None,
        },
        Stage::SemanticValidating => match event {
            Event::Semantic(Ok(_)) => Some(
                Transition {
                    stage: Stage::ContextuallyValidating,
                    call: Some(Call::ValidateContext { block: request.block() }),
                },
            ),
            Event::Semantic(Err(error)) => Some(rejected(RejectKind::SemanticInvalid, error)),
            _ => None,
        },
        Stage::ContextuallyValidating => match event {
            Event::Contextual(Ok(_)) => if plan.commit_on_success {
                Some(
                    Transition {
                        stage: Stage::Committing,
                        call: Some(Call::Commit { block: request.block() }),
                    },
                )
            } else {
                Some(Transition { stage: Stage::Evaluated, call: None })
            },
            Event::Contextual(Err(error)) => Some(rejected(RejectKind::ContextuallyInvalid, error)),
            _ => None,
        },
        Stage::Committing => match event {
            Event::Commit(Ok(_)) => Some(Transition { stage: Stage::Committed, call: None }),
            Event::Commit(Err(error)) => Some(rejected(RejectKind::CommitFailed, error)),
            _ => None,
        },
        Stage::Rejected { .. } => None,
        Stage::Committed => None,
        Stage::Evaluated => None,
    }
}

/// The end of the pipeline on a service's refusal.
fn rejected<E>(kind: RejectKind, error: E) -> (res: Transition<E>)
    ensures
        res == (Transition { stage: Stage::Rejected { kind, error }, call: None }),
{
    Transition { stage: Stage::Rejected { kind, error }, call: None }
}

/// Every transition moves forward: the new stage has a higher rank than the
/// old one, so no stage is entered twice.
pub proof fn lemma_step_advances<E>(plan: Plan, block: Arc<Block>, stage: Stage<E>, event: Event<E>)
    requires
        next(plan, block, stage, event) is Some,
    ensures
        next(plan, block, stage, event)->0.stage.rank() > stage.rank(),
{
}

/// Nothing leads out of a terminal stage, and every other stage waits for
/// exactly one kind of event.
pub proof fn lemma_awaited_event<E>(plan: Plan, block: Arc<Block>, stage: Stage<E>, event: Event<E>)
    ensures
        (next(plan, block, stage, event) is Some) <==> (match stage {
            Stage::Received => event is Submitted,
            Stage::SemanticValidating => event is Semantic,
            Stage::ContextuallyValidating => event is Contextual,
            Stage::Committing => event is Commit,
            Stage::Rejected { .. } => false,
            Stage::Committed => false,
            Stage::Evaluated => false,
        }),
        stage.spec_is_terminal() ==> next(plan, block, stage, event) is None,
{
}

/// A transition names a call exactly when the pipeline goes on, and the call
/// is the one that the new stage waits for, on the request's own block.
pub proof fn lemma_call_fits_stage<E>(
    plan: Plan,
    block: Arc<Block>,
    stage: Stage<E>,
    event: Event<E>,
)
    requires
        next(plan, block, stage, event) is Some,
    ensures
        ({
            let t = next(plan, block, stage, event)->0;
            t.call == match t.stage {
                Stage::SemanticValidating => Some(
                    Call::ValidateSemantics {
                        block,
                        full_semantic_checks: plan.full_semantic_checks,
                        check_proof_of_work: plan.check_proof_of_work,
                    },
                ),
                Stage::ContextuallyValidating => Some(Call::ValidateContext { block }),
                Stage::Committing => Some(Call::Commit { block }),
                _ => None,
            }
        }),
        !(next(plan, block, stage, event)->0.stage is Received),
{
}

/// A rejection holds the error that the service returned, unchanged, and its
/// kind names the service that was asked: a step ends in a rejection of
/// `kind` with `error` exactly where the service of that kind was awaited and
/// answered with `error`.
pub proof fn lemma_error_passes_unchanged<E>(
    plan: Plan,
    block: Arc<Block>,
    stage: Stage<E>,
    event: Event<E>,
    kind: RejectKind,
    error: E,
)
    ensures
        (next(plan, block, stage, event) == Some(
            Transition { stage: Stage::Rejected { kind, error }, call: None },
        )) <==> (match kind {
            RejectKind::SemanticInvalid => stage is SemanticValidating && event
                == Event::Semantic(Err(error)),
            RejectKind::ContextuallyInvalid => stage is ContextuallyValidating && event
                == Event::Contextual(Err(error)),
            RejectKind::CommitFailed => stage is Committing && event == Event::Commit(
                Err(error),
            ),
        }),
        next(plan, block, stage, event) matches Some(t) ==> (t.stage is Rejected ==> t.call
            is None),
{
}

/// After a successful contextual validation the block is committed if the
/// plan says so, and only then; otherwise the pipeline ends in `Evaluated`
/// with no further call.
pub proof fn lemma_commit_follows_plan<E>(plan: Plan, block: Arc<Block>)
    ensures
        next::<E>(plan, block, Stage::ContextuallyValidating, Event::Contextual(Ok(()))) == Some(
            if plan.commit_on_success {
                Transition::<E> { stage: Stage::Committing, call: Some(Call::Commit { block }) }
            } else {
                Transition::<E> { stage: Stage::Evaluated, call: None }
            },
        ),
{
}

} // verus!
