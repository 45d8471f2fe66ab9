//! The validation plan that follows from a request's intent.
//!
//! Every consumer asks the resolver here instead of deriving its own rules
//! from the intent, so that the mapping from intent to checks is written
//! down once.

use crate::request::{Intent, Request};
use std::sync::Arc;
use vstd::prelude::*;
use zebra_chain::block::Block;

verus! {

/// Which checks run on a block, and whether it is committed afterwards.
#[derive(Clone, Copy, Debug, PartialEq, Eq, Structural)]
pub struct Plan {
    /// The semantic validator checks the block's proof of work.
    pub check_proof_of_work: bool,
    /// The block is committed to the chain state once it has passed
    /// validation.
    pub commit_on_success: bool,
    /// The semantic validator runs all of its checks; where this is false it
    /// asks for nothing that only a proof of work could give.
    pub full_semantic_checks: bool,
}

impl Intent {
    /// The plan for an intent: proof of work is checked for `Commit` only,
    /// every intent but `CheckProposal` commits, and every intent but
    /// `TinyCash` gets the full semantic checks.
    pub open spec fn spec_plan(self) -> Plan {
        Plan {
            check_proof_of_work: self == Intent::Commit,
            commit_on_success: self != Intent::CheckProposal,
            full_semantic_checks: self != Intent::TinyCash,
        }
    }

    /// Resolves the plan for this intent.
    #[verifier::when_used_as_spec(spec_plan)]
    pub fn plan(self) -> (res: Plan)
        ensures
            res == self.spec_plan(),
    {
        match self {
            Intent::Commit => Plan {
                check_proof_of_work: true,
                commit_on_success: true,
                full_semantic_checks: true,
            },
            Intent::CheckProposal => Plan {
                check_proof_of_work: false,
                commit_on_success: false,
                full_semantic_checks: true,
            },
            Intent::TinyCash => Plan {
                check_proof_of_work: false,
                commit_on_success: true,
                full_semantic_checks: false,
            },
        }
    }
}

impl Request {
    /// The plan of a request is the plan of its intent.
    pub open spec fn spec_plan(&self) -> Plan {
        self.spec_intent().spec_plan()
    }

    /// Resolves the plan for this request.
    #[verifier::when_used_as_spec(spec_plan)]
    pub fn plan(&self) -> (res: Plan)
        ensures
            res == self.spec_plan(),
    {
        self.intent().plan()
    }
}

/// Two requests with the same intent resolve to the same plan, whatever
/// blocks they carry.
pub proof fn lemma_plan_follows_intent(a: Request, b: Request)
    requires
        a.spec_intent() == b.spec_intent(),
    ensures
        a.spec_plan() == b.spec_plan(),
{
}

/// Two requests built from the same block with the same intent are the same
/// request, and resolve to the same plan: the plan of the intent.
pub proof fn lemma_construction_is_repeatable(
    intent: Intent,
    block: Arc<Block>,
    first: Request,
    second: Request,
)
    requires
        first == Request::spec_new(intent, block),
        second == Request::spec_new(intent, block),
    ensures
        first == second,
        first.spec_plan() == second.spec_plan(),
        first.spec_plan() == intent.spec_plan(),
{
}

/// A request gives back the block and the intent that it was built from.
pub proof fn lemma_request_keeps_its_parts(intent: Intent, block: Arc<Block>)
    ensures
        Request::spec_new(intent, block).spec_intent() == intent,
        Request::spec_new(intent, block).spec_block() == block,
{
}

/// Each field of the plan, by intent: proof of work is checked for `Commit`
/// and for no other intent, `CheckProposal` is the one intent that does not
/// commit, and `TinyCash` the one that does without the full semantic checks.
pub proof fn lemma_plan_by_intent(intent: Intent)
    ensures
        intent.spec_plan().check_proof_of_work <==> intent == Intent::Commit,
        intent.spec_plan().commit_on_success <==> intent != Intent::CheckProposal,
        intent.spec_plan().full_semantic_checks <==> intent != Intent::TinyCash,
{
}

/// Where the proposal intent is left out of the domain, no request is a
/// proposal: of `Commit` and `TinyCash` neither is one, and both commit.
pub proof fn lemma_no_proposal_among_committing_intents(request: Request)
    requires
        request is Commit || request is TinyCash,
    ensures
        request.spec_intent() != Intent::CheckProposal,
        request.spec_plan().commit_on_success,
{
}

} // verus!
