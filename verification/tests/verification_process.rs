//! The per-item verification process: staked votes, consensus tallies
//! and closing.

use truelens::verification::{
    NewsVerification, VerificationError, VerificationStatus,
};
use truelens::{Address, Bytes32, Symbol};

fn named(n: u64) -> Address {
    Address(n)
}

fn open_process() -> NewsVerification {
    let mut v = NewsVerification::new();
    v.initialize(named(1), Bytes32(7), Symbol(10), Bytes32(8), Symbol(11), 1000)
        .unwrap();
    v
}

#[test]
fn verification_initialize_only_once() {
    let mut v = NewsVerification::new();
    assert!(v.get_news_item().is_none());
    assert!(v.get_verifications().is_none());
    assert!(v.get_verification_status().is_none());
    v.initialize(named(1), Bytes32(7), Symbol(10), Bytes32(8), Symbol(11), 1000)
        .unwrap();
    assert_eq!(
        v.initialize(named(2), Bytes32(9), Symbol(12), Bytes32(9), Symbol(13), 2000),
        Err(VerificationError::AlreadyInitialized)
    );
    let item = v.get_news_item().unwrap();
    assert_eq!(item.id, Bytes32(7));
    assert_eq!(item.timestamp, 1000);
}

#[test]
fn consensus_by_head_count() {
    let mut v = open_process();
    assert_eq!(v.calculate_consensus(), 0);
    v.submit_verification(named(2), VerificationStatus::Verified, 10, 1001).unwrap();
    assert_eq!(v.calculate_consensus(), 100);
    v.submit_verification(named(3), VerificationStatus::Flagged, 10, 1002).unwrap();
    assert_eq!(v.calculate_consensus(), 50);
    v.submit_verification(named(4), VerificationStatus::Verified, 10, 1003).unwrap();
    // Two verified of three votes: 66 after truncation.
    assert_eq!(v.calculate_consensus(), 66);
}

#[test]
fn consensus_by_stake_weight() {
    let mut v = open_process();
    assert_eq!(v.calculate_weighted_consensus(), 0);
    v.submit_verification(named(2), VerificationStatus::Verified, 10, 1001).unwrap();
    v.submit_verification(named(3), VerificationStatus::Flagged, 30, 1002).unwrap();
    // 10 of 40 staked on verified: 25 percent.
    assert_eq!(v.calculate_weighted_consensus(), 25);
}

#[test]
fn each_verifier_votes_once() {
    let mut v = open_process();
    v.submit_verification(named(2), VerificationStatus::Verified, 10, 1001).unwrap();
    assert_eq!(
        v.submit_verification(named(2), VerificationStatus::Flagged, 5, 1002),
        Err(VerificationError::AlreadySubmitted)
    );
    assert_eq!(v.get_verifications().unwrap().len(), 1);
}

#[test]
fn stake_must_be_positive() {
    let mut v = open_process();
    assert_eq!(
        v.submit_verification(named(2), VerificationStatus::Verified, 0, 1001),
        Err(VerificationError::InvalidAmount)
    );
    assert_eq!(
        v.submit_verification(named(2), VerificationStatus::Verified, -5, 1001),
        Err(VerificationError::InvalidAmount)
    );
}

#[test]
fn uninitialized_process_takes_no_votes() {
    let mut v = NewsVerification::new();
    assert_eq!(
        v.submit_verification(named(2), VerificationStatus::Verified, 10, 1001),
        Err(VerificationError::NotInitialized)
    );
}

#[test]
fn closing_records_majority_and_seals_the_process() {
    let mut v = open_process();
    v.submit_verification(named(2), VerificationStatus::Verified, 60, 1001).unwrap();
    v.submit_verification(named(3), VerificationStatus::Flagged, 40, 1002).unwrap();
    assert_eq!(
        v.close_verification(named(5)),
        Err(VerificationError::NotAuthorized)
    );
    assert_eq!(v.close_verification(named(1)), Ok(()));
    // 60 percent of the stake verified: consensus reached.
    assert_eq!(v.get_verification_status(), Some((true, true, 60)));
    assert_eq!(
        v.close_verification(named(1)),
        Err(VerificationError::AlreadyClosed)
    );
    assert_eq!(
        v.submit_verification(named(4), VerificationStatus::Verified, 10, 1003),
        Err(VerificationError::ProcessClosed)
    );
}

#[test]
fn exactly_half_the_stake_is_no_majority() {
    let mut v = open_process();
    v.submit_verification(named(2), VerificationStatus::Verified, 50, 1001).unwrap();
    v.submit_verification(named(3), VerificationStatus::Flagged, 50, 1002).unwrap();
    v.close_verification(named(1)).unwrap();
    assert_eq!(v.get_verification_status(), Some((true, false, 50)));
}

#[test]
fn reward_pool_takes_positive_admin_contributions() {
    let mut v = open_process();
    assert_eq!(
        v.add_to_reward_pool(named(2), 100),
        Err(VerificationError::NotAuthorized)
    );
    assert_eq!(
        v.add_to_reward_pool(named(1), 0),
        Err(VerificationError::InvalidAmount)
    );
    assert_eq!(v.add_to_reward_pool(named(1), 100), Ok(()));
    assert_eq!(v.add_to_reward_pool(named(1), 50), Ok(()));
    assert_eq!(v.reward_pool, 150);
}

#[test]
fn reward_goes_to_the_majority_side() {
    let mut v = open_process();
    assert!(!v.would_receive_reward(named(2)));
    v.submit_verification(named(2), VerificationStatus::Verified, 60, 1001).unwrap();
    v.submit_verification(named(3), VerificationStatus::Flagged, 40, 1002).unwrap();
    assert!(v.would_receive_reward(named(2)));
    assert!(!v.would_receive_reward(named(3)));
    // An identity that never voted earns nothing.
    assert!(!v.would_receive_reward(named(4)));
}
