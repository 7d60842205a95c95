//! The factory contract: registering news items and tallying their
//! verification votes.

use truelens::{
    Address, Bytes32, PlatformError, Symbol, TrueLensContract, VerificationStatus,
};

fn named(n: u64) -> Address {
    Address(n)
}

fn platform() -> TrueLensContract {
    let mut c = TrueLensContract::new();
    c.initialize(named(1)).unwrap();
    c
}

#[test]
fn platform_initialize_only_once() {
    let mut c = TrueLensContract::new();
    assert!(c.get_all_news().is_none());
    assert_eq!(c.initialize(named(1)), Ok(()));
    assert_eq!(c.initialize(named(2)), Err(PlatformError::AlreadyInitialized));
    assert_eq!(c.get_all_news().unwrap().len(), 0);
}

#[test]
fn submitted_news_starts_with_zeroed_tallies() {
    let mut c = platform();
    let id = c
        .submit_news(named(2), Bytes32(7), Symbol(10), Bytes32(8), Symbol(11), 1000)
        .unwrap();
    assert_eq!(id, Bytes32(7));
    let item = c.get_news_info(Bytes32(7)).unwrap();
    assert_eq!(item.title, Symbol(10));
    assert_eq!(item.content_hash, Bytes32(8));
    assert_eq!(item.source, Symbol(11));
    assert_eq!(item.timestamp, 1000);
    assert_eq!(item.verified_count, 0);
    assert_eq!(item.flagged_count, 0);
    assert_eq!(item.total_stake, 0);
    assert!(c.get_news_info(Bytes32(99)).is_none());
}

#[test]
fn uninitialized_platform_takes_no_news() {
    let mut c = TrueLensContract::new();
    assert_eq!(
        c.submit_news(named(2), Bytes32(7), Symbol(10), Bytes32(8), Symbol(11), 1000),
        Err(PlatformError::NotInitialized)
    );
}

#[test]
fn votes_update_tallies_and_stake() {
    let mut c = platform();
    c.submit_news(named(2), Bytes32(7), Symbol(10), Bytes32(8), Symbol(11), 1000)
        .unwrap();
    c.verify_news(named(3), Bytes32(7), VerificationStatus::Verified, 10, 1001)
        .unwrap();
    c.verify_news(named(4), Bytes32(7), VerificationStatus::Flagged, 5, 1002)
        .unwrap();
    let item = c.get_news_info(Bytes32(7)).unwrap();
    assert_eq!(item.verified_count, 1);
    assert_eq!(item.flagged_count, 1);
    assert_eq!(item.total_stake, 15);
}

#[test]
fn vote_needs_positive_stake_and_known_item() {
    let mut c = platform();
    c.submit_news(named(2), Bytes32(7), Symbol(10), Bytes32(8), Symbol(11), 1000)
        .unwrap();
    assert_eq!(
        c.verify_news(named(3), Bytes32(7), VerificationStatus::Verified, 0, 1001),
        Err(PlatformError::InvalidAmount)
    );
    assert_eq!(
        c.verify_news(named(3), Bytes32(99), VerificationStatus::Verified, 10, 1001),
        Err(PlatformError::NotFound)
    );
    let item = c.get_news_info(Bytes32(7)).unwrap();
    assert_eq!(item.verified_count, 0);
    assert_eq!(item.total_stake, 0);
}

#[test]
fn platform_consensus_percentages() {
    let mut c = platform();
    c.submit_news(named(2), Bytes32(7), Symbol(10), Bytes32(8), Symbol(11), 1000)
        .unwrap();
    // No votes yet: zero, not an error.
    assert_eq!(c.get_consensus(Bytes32(7)), Some(0));
    assert_eq!(c.get_consensus(Bytes32(99)), None);
    c.verify_news(named(3), Bytes32(7), VerificationStatus::Verified, 10, 1001)
        .unwrap();
    c.verify_news(named(4), Bytes32(7), VerificationStatus::Verified, 10, 1002)
        .unwrap();
    c.verify_news(named(5), Bytes32(7), VerificationStatus::Flagged, 10, 1003)
        .unwrap();
    // Two verified of three votes: 66 after truncation.
    assert_eq!(c.get_consensus(Bytes32(7)), Some(66));
}

#[test]
fn latest_verification_is_kept_per_item() {
    let mut c = platform();
    c.submit_news(named(2), Bytes32(7), Symbol(10), Bytes32(8), Symbol(11), 1000)
        .unwrap();
    c.verify_news(named(3), Bytes32(7), VerificationStatus::Verified, 10, 1001)
        .unwrap();
    let v = c.get_verification(Bytes32(7), named(3)).unwrap();
    assert_eq!(v.stake_amount, 10);
    assert_eq!(v.status, VerificationStatus::Verified);
    // Asking for another verifier's verdict finds nothing.
    assert!(c.get_verification(Bytes32(7), named(4)).is_none());
    // A later vote replaces the recorded verification.
    c.verify_news(named(4), Bytes32(7), VerificationStatus::Flagged, 5, 1002)
        .unwrap();
    assert!(c.get_verification(Bytes32(7), named(3)).is_none());
    let v2 = c.get_verification(Bytes32(7), named(4)).unwrap();
    assert_eq!(v2.status, VerificationStatus::Flagged);
}

#[test]
fn verifiers_are_remembered_once() {
    let mut c = platform();
    c.submit_news(named(2), Bytes32(7), Symbol(10), Bytes32(8), Symbol(11), 1000)
        .unwrap();
    c.submit_news(named(2), Bytes32(9), Symbol(12), Bytes32(9), Symbol(13), 1001)
        .unwrap();
    c.verify_news(named(3), Bytes32(7), VerificationStatus::Verified, 10, 1002)
        .unwrap();
    c.verify_news(named(3), Bytes32(9), VerificationStatus::Verified, 10, 1003)
        .unwrap();
    c.verify_news(named(4), Bytes32(7), VerificationStatus::Flagged, 10, 1004)
        .unwrap();
    assert_eq!(c.verifiers, vec![named(3), named(4)]);
}

#[test]
fn distribute_rewards_succeeds_without_effect() {
    let mut c = platform();
    c.submit_news(named(2), Bytes32(7), Symbol(10), Bytes32(8), Symbol(11), 1000)
        .unwrap();
    assert_eq!(c.distribute_rewards(named(1), Bytes32(7)), Ok(()));
    let item = c.get_news_info(Bytes32(7)).unwrap();
    assert_eq!(item.total_stake, 0);
}
