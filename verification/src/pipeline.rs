//! The pipeline run to its end, for services that answer at once.
//!
//! [`process`] takes the three entry points of the services as functions and
//! makes the calls that [`step`] asks for until a terminal stage is reached.
//! A caller whose services answer later drives [`step`] itself.

use crate::dispatch::{step, Call, Event, RejectKind, Stage};
use crate::policy::Plan;
use crate::request::Request;
use crate::run::fits_plan;
use std::sync::Arc;
use vstd::prelude::*;
use zebra_chain::block::Block;

verus! {

/// `answer` is an answer that the semantic validator can give for `block`
/// under `plan`.
pub open spec fn semantic_answers<E, S: Fn(Arc<Block>, bool, bool) -> Result<(), E>>(
    semantic: S,
    plan: Plan,
    block: Arc<Block>,
    answer: Result<(), E>,
) -> bool {
    call_ensures(semantic, (block, plan.full_semantic_checks, plan.check_proof_of_work), answer)
}

/// The terminal stages that the services' answers allow for a request.
///
/// A rejection holds the error of the first service that refused, and every
/// service asked before it accepted. `Committed` needs all three services to
/// accept and a plan that commits; `Evaluated` needs both validations to
/// accept and a plan that does not commit.
pub open spec fn ends_in<
    E,
    S: Fn(Arc<Block>, bool, bool) -> Result<(), E>,
    C: Fn(Arc<Block>) -> Result<(), E>,
    K: Fn(Arc<Block>) -> Result<(), E>,
>(plan: Plan, block: Arc<Block>, semantic: S, contextual: C, commit: K, stage: Stage<E>) -> bool {
    let semantic_ok = semantic_answers(semantic, plan, block, Ok(()));
    let contextual_ok = call_ensures(contextual, (block,), Ok(()));
    match stage {
        Stage::Rejected { kind: RejectKind::SemanticInvalid, error } => semantic_answers(
            semantic,
            plan,
            block,
            Err(error),
        ),
        Stage::Rejected { kind: RejectKind::ContextuallyInvalid, error } => semantic_ok
            && call_ensures(contextual, (block,), Err(error)),
        Stage::Rejected { kind: RejectKind::CommitFailed, error } => plan.commit_on_success
            && semantic_ok && contextual_ok && call_ensures(commit, (block,), Err(error)),
        Stage::Committed => plan.commit_on_success && semantic_ok && contextual_ok && call_ensures(
            commit,
            (block,),
            Ok(()),
        ),
        Stage::Evaluated => !plan.commit_on_success && semantic_ok && contextual_ok,
        _ => false,
    }
}

/// What holds between two steps of [`process`]: `event` is the answer that
/// `stage` waits for, given by the service that was asked, and every service
/// asked before accepted.
pub open spec fn awaits<
    E,
    S: Fn(Arc<Block>, bool, bool) -> Result<(), E>,
    C: Fn(Arc<Block>) -> Result<(), E>,
    K: Fn(Arc<Block>) -> Result<(), E>,
>(
    plan: Plan,
    block: Arc<Block>,
    semantic: S,
    contextual: C,
    commit: K,
    stage: Stage<E>,
    event: Event<E>,
) -> bool {
    let semantic_ok = semantic_answers(semantic, plan, block, Ok(()));
    let contextual_ok = call_ensures(contextual, (block,), Ok(()));
    match (stage, event) {
        (Stage::Received, Event::Submitted) => true,
        (Stage::SemanticValidating, Event::Semantic(answer)) => semantic_answers(
            semantic,
            plan,
            block,
            answer,
        ),
        (Stage::ContextuallyValidating, Event::Contextual(answer)) => semantic_ok && call_ensures(
            contextual,
            (block,),
            answer,
        ),
        (Stage::Committing, Event::Commit(answer)) => plan.commit_on_success && semantic_ok
            && contextual_ok && call_ensures(commit, (block,), answer),
        _ => false,
    }
}

/// Runs `request` through the pipeline.
///
/// Asks the semantic validator, then the chain state for contextual
/// validation, then, where the request's plan commits, the chain state for
/// the commit. The first refusal ends the run. The result is the terminal
/// stage that the services' answers lead to.
pub fn process<
    E,
    S: Fn(Arc<Block>, bool, bool) -> Result<(), E>,
    C: Fn(Arc<Block>) -> Result<(), E>,
    K: Fn(Arc<Block>) -> Result<(), E>,
>(request: &Request, semantic: S, contextual: C, commit: K) -> (res: Stage<E>)
    requires
        call_requires(
            semantic,
            (
                request.spec_block(),
                request.spec_plan().full_semantic_checks,
                request.spec_plan().check_proof_of_work,
            ),
        ),
        call_requires(contextual, (request.spec_block(),)),
        request.spec_plan().commit_on_success ==> call_requires(commit, (request.spec_block(),)),
    ensures
        res.spec_is_terminal(),
        ends_in(request.spec_plan(), request.spec_block(), semantic, contextual, commit, res),
{
    let ghost plan = request.spec_plan();
    let ghost block = request.spec_block();
    let mut stage: Stage<E> = Stage::Received;
    let mut event: Event<E> = Event::Submitted;
    loop
        invariant_except_break
            awaits(plan, block, semantic, contextual, commit, stage, event),
        invariant
            plan == request.spec_plan(),
            block == request.spec_block(),
            call_requires(semantic, (block, plan.full_semantic_checks, plan.check_proof_of_work)),
            call_requires(contextual, (block,)),
            plan.commit_on_success ==> call_requires(commit, (block,)),
        ensures
            stage.spec_is_terminal(),
            ends_in(plan, block, semantic, contextual, commit, stage),
        decreases 4 - stage.rank(),
    {
        proof {
            // An accepting answer holds the unit value and nothing else.
            match event {
                Event::Semantic(Ok(unit)) => assert(unit == ()),
                Event::Contextual(Ok(unit)) => assert(unit == ()),
                Event::Commit(Ok(unit)) => assert(unit == ()),
                _ => {},
            }
        }
        let transition = step(request, &stage, event);
        match transition {
            None => {
                // `awaits` leaves no stage with an event that it does not take.
                assert(false);
                break ;
            },
            Some(t) => {
                stage = t.stage;
                match t.call {
                    None => {
                        break ;
                    },
                    Some(Call::ValidateSemantics { block, full_semantic_checks, check_proof_of_work }) => {
                        event = Event::Semantic(
                            semantic(block, full_semantic_checks, check_proof_of_work),
                        );
                    },
                    Some(Call::ValidateContext { block }) => {
                        event = Event::Contextual(contextual(block));
                    },
                    Some(Call::Commit { block }) => {
                        event = Event::Commit(commit(block));
                    },
                }
            },
        }
    }
    stage
}

/// Whatever the services answer, a run ends in a stage that fits the plan:
/// a request that is not to be committed ends as `Evaluated` or rejected by
/// one of the validations, and one that is to be committed never ends as
/// `Evaluated`.
pub proof fn lemma_end_fits_plan<
    E,
    S: Fn(Arc<Block>, bool, bool) -> Result<(), E>,
    C: Fn(Arc<Block>) -> Result<(), E>,
    K: Fn(Arc<Block>) -> Result<(), E>,
>(plan: Plan, block: Arc<Block>, semantic: S, contextual: C, commit: K, stage: Stage<E>)
    requires
        ends_in(plan, block, semantic, contextual, commit, stage),
    ensures
        stage.spec_is_terminal(),
        fits_plan(plan, stage),
        !plan.commit_on_success ==> !(stage is Committed),
        plan.commit_on_success ==> !(stage is Evaluated),
{
}

} // verus!
