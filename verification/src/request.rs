//! Block verifier request type.
//!
//! A [`Request`] pairs a shared handle to a block with the caller's
//! [`Intent`]. The intent alone decides which checks run and whether the
//! block is committed; the block is carried through untouched.

use std::sync::Arc;
use vstd::prelude::*;
use zebra_chain::block::Block;

verus! {

/// `zebra_chain::block::Block`, declared so that it can stand in fields and
/// signatures. Nothing in this crate looks inside a block: the verifier
/// treats it as an opaque value.
#[verifier::external_type_specification]
#[verifier::external_body]
pub struct ExBlock(Block);

/// What the caller wants done with a block.
#[derive(Clone, Copy, Debug, PartialEq, Eq, Structural)]
pub enum Intent {
    /// Full semantic validation, contextual validation, then commitment.
    Commit,
    /// Semantic validation without the proof-of-work check, contextual
    /// validation, and no commitment.
    CheckProposal,
    /// Partial semantic validation without the proof-of-work check,
    /// contextual validation, then commitment.
    TinyCash,
}

/// A request to the chain or block verifier.
#[derive(Debug, Clone, PartialEq, Eq)]
pub enum Request {
    /// Performs semantic validation, then asks the state to perform
    /// contextual validation and commit the block.
    Commit(Arc<Block>),
    /// Performs semantic validation but skips checking proof of work, then
    /// asks the state to perform contextual validation. Does not commit the
    /// block to the state.
    CheckProposal(Arc<Block>),
    /// Performs partial semantic validation but skips checking proof of
    /// work. It then asks the state to do contextual validation and commits
    /// the block.
    TinyCash(Arc<Block>),
}

/// `Arc::clone` from std: a second handle to the allocation that `block`
/// points to. The contract claims that the new handle holds the same block;
/// the verifier does not tell two handles to one allocation apart.
#[verifier::external_body]
fn share(block: &Arc<Block>) -> (res: Arc<Block>)
    ensures
        res == *block,
{
    Arc::clone(block)
}

impl Request {
    /// The request that carries `block` with the given intent.
    pub open spec fn spec_new(intent: Intent, block: Arc<Block>) -> Request {
        match intent {
            Intent::Commit => Request::Commit(block),
            Intent::CheckProposal => Request::CheckProposal(block),
            Intent::TinyCash => Request::TinyCash(block),
        }
    }

    /// The intent that the request was made with.
    pub open spec fn spec_intent(&self) -> Intent {
        match self {
            Request::Commit(_) => Intent::Commit,
            Request::CheckProposal(_) => Intent::CheckProposal,
            Request::TinyCash(_) => Intent::TinyCash,
        }
    }

    /// The block that the request was made with.
    pub open spec fn spec_block(&self) -> Arc<Block> {
        match self {
            Request::Commit(block) => *block,
            Request::CheckProposal(block) => *block,
            Request::TinyCash(block) => *block,
        }
    }

    /// Builds a request from a block handle and exactly one intent.
    #[verifier::when_used_as_spec(spec_new)]
    pub fn new(intent: Intent, block: Arc<Block>) -> (res: Request)
        ensures
            res == Request::spec_new(intent, block),
            res.spec_intent() == intent,
            res.spec_block() == block,
    {
        match intent {
            Intent::Commit => Request::Commit(block),
            Intent::CheckProposal => Request::CheckProposal(block),
            Intent::TinyCash => Request::TinyCash(block),
        }
    }

    /// Returns the intent of the request.
    #[verifier::when_used_as_spec(spec_intent)]
    pub fn intent(&self) -> (res: Intent)
        ensures
            res == self.spec_intent(),
    {
        match self {
            Request::Commit(_) => Intent::Commit,
            Request::CheckProposal(_) => Intent::CheckProposal,
            Request::TinyCash(_) => Intent::TinyCash,
        }
    }

    /// Returns inner block.
    ///
    /// The result is a new handle to the block that the request holds, not a
    /// copy of the block.
    #[verifier::when_used_as_spec(spec_block)]
    pub fn block(&self) -> (res: Arc<Block>)
        ensures
            res == self.spec_block(),
    {
        share(
            match self {
                Request::Commit(block) => block,
                Request::CheckProposal(block) => block,
                Request::TinyCash(block) => block,
            },
        )
    }

    /// Returns `true` if the request is a proposal.
    pub fn is_proposal(&self) -> (res: bool)
        ensures
            res <==> self.spec_intent() == Intent::CheckProposal,
    {
        match self {
            Request::Commit(_) => false,
            Request::CheckProposal(_) => true,
            Request::TinyCash(_) => false,
        }
    }

    /// Returns `true` if the request is a tinycash request.
    pub fn is_tinycash(&self) -> (res: bool)
        ensures
            res <==> self.spec_intent() == Intent::TinyCash,
    {
        match self {
            Request::Commit(_) => false,
            Request::CheckProposal(_) => false,
            Request::TinyCash(_) => true,
        }
    }
}

} // verus!
