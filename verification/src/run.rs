//! What holds of every run of the pipeline.
//!
//! A run starts in `Received` and takes the events in the order in which
//! they arrive. An event that the current stage does not wait for changes
//! nothing. The theorems here speak of every sequence of events, and so of
//! every way in which the services can answer.

use crate::dispatch::{next, Call, Event, RejectKind, Stage};
use crate::policy::Plan;
use crate::request::{Intent, Request};
use std::sync::Arc;
use vstd::prelude::*;
use zebra_chain::block::Block;

verus! {

/// The stage that a request is in after `events`.
pub open spec fn stage_after<E>(plan: Plan, block: Arc<Block>, events: Seq<Event<E>>) -> Stage<E>
    decreases events.len(),
{
    if events.len() == 0 {
        Stage::Received
    } else {
        let before = stage_after(plan, block, events.drop_last());
        match next(plan, block, before, events.last()) {
            Some(t) => t.stage,
            None => before,
        }
    }
}

/// The calls that were made during `events`, first call first.
pub open spec fn calls_during<E>(plan: Plan, block: Arc<Block>, events: Seq<Event<E>>) -> Seq<Call>
    decreases events.len(),
{
    if events.len() == 0 {
        Seq::empty()
    } else {
        let before = stage_after(plan, block, events.drop_last());
        let calls = calls_during(plan, block, events.drop_last());
        match next(plan, block, before, events.last()) {
            Some(t) => match t.call {
                Some(call) => calls.push(call),
                None => calls,
            },
            None => calls,
        }
    }
}

/// The call to the semantic validator that `plan` asks for.
pub open spec fn semantic_call(plan: Plan, block: Arc<Block>) -> Call {
    Call::ValidateSemantics {
        block,
        full_semantic_checks: plan.full_semantic_checks,
        check_proof_of_work: plan.check_proof_of_work,
    }
}

/// The calls that lie behind a request in `stage`: one to the semantic
/// validator first, then one for contextual validation, then one commit, as
/// far as the stage has come.
pub open spec fn calls_behind<E>(plan: Plan, block: Arc<Block>, stage: Stage<E>) -> Seq<Call> {
    let semantic = semantic_call(plan, block);
    let contextual = Call::ValidateContext { block };
    let commit = Call::Commit { block };
    match stage {
        Stage::Received => seq![],
        Stage::SemanticValidating => seq![semantic],
        Stage::ContextuallyValidating => seq![semantic, contextual],
        Stage::Committing => seq![semantic, contextual, commit],
        Stage::Committed => seq![semantic, contextual, commit],
        Stage::Evaluated => seq![semantic, contextual],
        Stage::Rejected { kind, .. } => match kind {
            RejectKind::SemanticInvalid => seq![semantic],
            RejectKind::ContextuallyInvalid => seq![semantic, contextual],
            RejectKind::CommitFailed => seq![semantic, contextual, commit],
        },
    }
}

/// The stages that a request with `plan` can be in: one that commits is
/// never `Evaluated`, and one that does not commit never gets to the commit.
pub open spec fn fits_plan<E>(plan: Plan, stage: Stage<E>) -> bool {
    match stage {
        Stage::Committing => plan.commit_on_success,
        Stage::Committed => plan.commit_on_success,
        Stage::Rejected { kind, .. } => kind == RejectKind::CommitFailed ==> plan.commit_on_success,
        Stage::Evaluated => !plan.commit_on_success,
        _ => true,
    }
}

/// Whatever the services answer, the stage of a run fits the plan, and the
/// calls made so far are those that lie behind the stage: each service was
/// asked at most once, in the pipeline's order, on the request's block, and
/// none was asked after a refusal.
pub proof fn lemma_run_invariant<E>(plan: Plan, block: Arc<Block>, events: Seq<Event<E>>)
    ensures
        fits_plan(plan, stage_after(plan, block, events)),
        calls_during(plan, block, events) == calls_behind(
            plan,
            block,
            stage_after(plan, block, events),
        ),
    decreases events.len(),
{
    if events.len() > 0 {
        lemma_run_invariant(plan, block, events.drop_last());
        let before = stage_after(plan, block, events.drop_last());
        let calls = calls_during(plan, block, events.drop_last());
        match next(plan, block, before, events.last()) {
            Some(t) => {
                assert(calls_during(plan, block, events) =~= calls_behind(plan, block, t.stage));
            },
            None => {},
        }
    }
}

/// A request that is not to be committed never reaches the commit: in no run
/// is it in `Committing` or `Committed`, nor rejected by a failed commit,
/// and no call made for it is a commit.
pub proof fn lemma_evaluation_never_commits<E>(
    plan: Plan,
    block: Arc<Block>,
    events: Seq<Event<E>>,
)
    requires
        !plan.commit_on_success,
    ensures
        !(stage_after(plan, block, events) is Committing),
        !(stage_after(plan, block, events) is Committed),
        !(stage_after(plan, block, events) matches Stage::Rejected {
            kind: RejectKind::CommitFailed,
            ..
        }),
        forall|i: int|
            0 <= i < calls_during(plan, block, events).len() ==> !(#[trigger] calls_during(
                plan,
                block,
                events,
            )[i] is Commit),
{
    lemma_run_invariant(plan, block, events);
}

/// A proposal never changes the chain state: whatever the services answer
/// and in whatever order the answers arrive, a request with the intent
/// `CheckProposal` is never in `Committing` or `Committed`, and no call made
/// for it is a commit.
pub proof fn lemma_proposal_never_commits<E>(request: Request, events: Seq<Event<E>>)
    requires
        request.spec_intent() == Intent::CheckProposal,
    ensures
        !(stage_after(request.spec_plan(), request.spec_block(), events) is Committing),
        !(stage_after(request.spec_plan(), request.spec_block(), events) is Committed),
        forall|i: int|
            0 <= i < calls_during(request.spec_plan(), request.spec_block(), events).len() ==> !(
            #[trigger] calls_during(request.spec_plan(), request.spec_block(), events)[i]
                is Commit),
{
    lemma_evaluation_never_commits(request.spec_plan(), request.spec_block(), events);
}

/// Proof of work is checked exactly for `Commit`: the first call of every
/// run is the one to the semantic validator, and it asks for the proof of
/// work to be checked if and only if the request's intent is `Commit`.
pub proof fn lemma_proof_of_work_checked_on_commit_only<E>(
    request: Request,
    events: Seq<Event<E>>,
)
    requires
        calls_during(request.spec_plan(), request.spec_block(), events).len() > 0,
    ensures
        calls_during(request.spec_plan(), request.spec_block(), events)[0] == (
        Call::ValidateSemantics {
            block: request.spec_block(),
            full_semantic_checks: request.spec_intent() != Intent::TinyCash,
            check_proof_of_work: request.spec_intent() == Intent::Commit,
        }),
        forall|i: int|
            0 < i < calls_during(request.spec_plan(), request.spec_block(), events).len() ==> !(
            #[trigger] calls_during(request.spec_plan(), request.spec_block(), events)[i]
                is ValidateSemantics),
{
    lemma_run_invariant(request.spec_plan(), request.spec_block(), events);
}

/// A request that is to be committed never ends as merely evaluated, and it
/// is committed only after both validations were asked for.
pub proof fn lemma_commit_never_evaluates<E>(plan: Plan, block: Arc<Block>, events: Seq<Event<E>>)
    requires
        plan.commit_on_success,
    ensures
        !(stage_after(plan, block, events) is Evaluated),
        stage_after(plan, block, events) is Committed ==> calls_during(plan, block, events)
            == seq![semantic_call(plan, block), Call::ValidateContext { block }, Call::Commit { block }],
{
    lemma_run_invariant(plan, block, events);
}

/// After a semantic rejection the chain state was never asked: the one call
/// made is the one to the semantic validator.
pub proof fn lemma_semantic_rejection_spares_state<E>(
    plan: Plan,
    block: Arc<Block>,
    events: Seq<Event<E>>,
)
    requires
        stage_after(plan, block, events) matches Stage::Rejected {
            kind: RejectKind::SemanticInvalid,
            ..
        },
    ensures
        calls_during(plan, block, events) == seq![semantic_call(plan, block)],
{
    lemma_run_invariant(plan, block, events);
}

/// A stage, once reached, is never left for an earlier one, and a terminal
/// stage is never left at all.
pub proof fn lemma_run_moves_forward<E>(
    plan: Plan,
    block: Arc<Block>,
    events: Seq<Event<E>>,
    event: Event<E>,
)
    ensures
        stage_after(plan, block, events.push(event)).rank() >= stage_after(
            plan,
            block,
            events,
        ).rank(),
        stage_after(plan, block, events).spec_is_terminal() ==> stage_after(
            plan,
            block,
            events.push(event),
        ) == stage_after(plan, block, events),
        stage_after(plan, block, events.push(event)) != stage_after(plan, block, events)
            ==> stage_after(plan, block, events.push(event)).rank() > stage_after(
            plan,
            block,
            events,
        ).rank(),
{
    assert(events.push(event).drop_last() =~= events);
    assert(events.push(event).last() == event);
}

/// The run in which every service accepts: the request ends in `Committed`
/// where its plan commits and in `Evaluated` where it does not. A commit's
/// answer that arrives for a request in `Evaluated` changes nothing.
pub proof fn lemma_all_ok_run<E>(plan: Plan, block: Arc<Block>)
    ensures
        stage_after::<E>(
            plan,
            block,
            seq![
                Event::Submitted,
                Event::Semantic(Ok(())),
                Event::Contextual(Ok(())),
                Event::Commit(Ok(())),
            ],
        ) == if plan.commit_on_success {
            Stage::<E>::Committed
        } else {
            Stage::<E>::Evaluated
        },
{
    let e0 = Seq::<Event<E>>::empty();
    let e1 = e0.push(Event::Submitted);
    let e2 = e1.push(Event::Semantic(Ok(())));
    let e3 = e2.push(Event::Contextual(Ok(())));
    let e4 = e3.push(Event::Commit(Ok(())));
    assert(e1.drop_last() =~= e0);
    assert(e2.drop_last() =~= e1);
    assert(e3.drop_last() =~= e2);
    assert(e4.drop_last() =~= e3);
    assert(stage_after(plan, block, e0) == Stage::<E>::Received);
    assert(stage_after(plan, block, e1) == Stage::<E>::SemanticValidating);
    assert(stage_after(plan, block, e2) == Stage::<E>::ContextuallyValidating);
    assert(stage_after(plan, block, e3) == if plan.commit_on_success {
        Stage::<E>::Committing
    } else {
        Stage::<E>::Evaluated
    });
    assert(stage_after(plan, block, e4) == if plan.commit_on_success {
        Stage::<E>::Committed
    } else {
        Stage::<E>::Evaluated
    });
    assert(e4 =~= seq![
        Event::Submitted,
        Event::Semantic(Ok(())),
        Event::Contextual(Ok(())),
        Event::Commit(Ok(())),
    ]);
}

} // verus!
