//! The plan resolved from an intent.

use std::sync::Arc;

use block_request::policy::Plan;
use block_request::request::{Intent, Request};
use zebra_chain::block::genesis::regtest_genesis_block;
use zebra_chain::block::Block;

fn other_block() -> Arc<Block> {
    let genesis = regtest_genesis_block();
    let mut header = *genesis.header;
    header.version = 7;
    Arc::new(Block { header: Arc::new(header), transactions: genesis.transactions.clone() })
}

#[test]
fn plan_of_commit() {
    assert_eq!(
        Intent::Commit.plan(),
        Plan { check_proof_of_work: true, commit_on_success: true, full_semantic_checks: true }
    );
}

#[test]
fn plan_of_check_proposal() {
    assert_eq!(
        Intent::CheckProposal.plan(),
        Plan { check_proof_of_work: false, commit_on_success: false, full_semantic_checks: true }
    );
}

#[test]
fn plan_of_tinycash() {
    assert_eq!(
        Intent::TinyCash.plan(),
        Plan { check_proof_of_work: false, commit_on_success: true, full_semantic_checks: false }
    );
}

#[test]
fn proof_of_work_is_checked_for_commit_only() {
    for intent in [Intent::Commit, Intent::CheckProposal, Intent::TinyCash] {
        assert_eq!(intent.plan().check_proof_of_work, intent == Intent::Commit);
    }
}

#[test]
fn every_intent_but_the_proposal_commits() {
    for intent in [Intent::Commit, Intent::CheckProposal, Intent::TinyCash] {
        assert_eq!(intent.plan().commit_on_success, intent != Intent::CheckProposal);
    }
}

#[test]
fn every_intent_but_tinycash_gets_full_checks() {
    for intent in [Intent::Commit, Intent::CheckProposal, Intent::TinyCash] {
        assert_eq!(intent.plan().full_semantic_checks, intent != Intent::TinyCash);
    }
}

#[test]
fn no_two_intents_share_a_plan() {
    assert_ne!(Intent::Commit.plan(), Intent::CheckProposal.plan());
    assert_ne!(Intent::Commit.plan(), Intent::TinyCash.plan());
    assert_ne!(Intent::CheckProposal.plan(), Intent::TinyCash.plan());
}

#[test]
fn request_plan_is_the_plan_of_its_intent() {
    let block = regtest_genesis_block();
    for intent in [Intent::Commit, Intent::CheckProposal, Intent::TinyCash] {
        assert_eq!(Request::new(intent, Arc::clone(&block)).plan(), intent.plan());
    }
    assert_eq!(Request::Commit(Arc::clone(&block)).plan(), Intent::Commit.plan());
    assert_eq!(Request::CheckProposal(Arc::clone(&block)).plan(), Intent::CheckProposal.plan());
    assert_eq!(Request::TinyCash(Arc::clone(&block)).plan(), Intent::TinyCash.plan());
}

#[test]
fn same_block_and_intent_give_the_same_plan() {
    let block = regtest_genesis_block();
    for intent in [Intent::Commit, Intent::CheckProposal, Intent::TinyCash] {
        let first = Request::new(intent, Arc::clone(&block));
        let second = Request::new(intent, Arc::clone(&block));
        assert_eq!(first, second);
        assert_eq!(first.plan(), second.plan());
        assert_eq!(first.plan(), first.plan());
    }
}

#[test]
fn plan_does_not_depend_on_the_block() {
    let block = regtest_genesis_block();
    let other = other_block();
    for intent in [Intent::Commit, Intent::CheckProposal, Intent::TinyCash] {
        assert_eq!(
            Request::new(intent, Arc::clone(&block)).plan(),
            Request::new(intent, Arc::clone(&other)).plan()
        );
    }
}

#[test]
fn without_the_proposal_intent_nothing_is_a_proposal() {
    let block = regtest_genesis_block();
    for request in [Request::Commit(Arc::clone(&block)), Request::TinyCash(Arc::clone(&block))] {
        assert!(!request.is_proposal());
        assert!(request.plan().commit_on_success);
    }
}
