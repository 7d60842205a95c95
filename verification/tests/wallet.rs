//! The authorization engine end to end: configuration, proposals,
//! approvals, policy evaluation and one-shot execution.

use truelens::smart_wallet::{
    is_satisfied, AuthPolicy, Operation, SmartWallet, WalletError,
};
use truelens::{Address, Bytes32};

fn named(n: u64) -> Address {
    Address(n)
}

fn initialized_wallet() -> SmartWallet {
    let mut w = SmartWallet::new();
    w.initialize(named(1)).unwrap();
    w
}

#[test]
fn initialize_only_once() {
    let mut w = SmartWallet::new();
    assert_eq!(w.get_owner(), None);
    assert_eq!(w.get_nonce(), None);
    assert_eq!(w.get_auth_policy(), None);
    assert!(w.get_pending_authorizations().is_none());
    assert_eq!(w.initialize(named(1)), Ok(()));
    assert_eq!(w.initialize(named(2)), Err(WalletError::AlreadyInitialized));
    assert_eq!(w.get_owner(), Some(named(1)));
    assert_eq!(w.get_nonce(), Some(0));
    assert_eq!(w.get_auth_policy(), Some(&AuthPolicy::OwnerOnly));
}

#[test]
fn owner_only_submit_execute_then_not_found() {
    // Owner 1, no guardian, OwnerOnly policy: a self-approved transfer
    // executes at once, and a second execution reports NotFound.
    let mut w = initialized_wallet();
    let nonce = w.submit_authorization(named(1), Operation::Transfer, named(9), 50, None).unwrap();
    assert_eq!(nonce, 0);
    assert_eq!(w.execute_authorization(0), Ok(()));
    assert_eq!(w.get_pending_authorizations().unwrap().len(), 0);
    assert_eq!(w.execute_authorization(0), Err(WalletError::NotFound));
}

#[test]
fn owner_and_guardian_needs_both_approvals() {
    // Owner 1, guardian 2, OwnerAndGuardian: the guardian's proposal
    // alone does not satisfy the policy; the owner's approval does.
    let mut w = initialized_wallet();
    w.add_guardian(named(1), named(2)).unwrap();
    w.update_auth_policy(named(1), AuthPolicy::OwnerAndGuardian).unwrap();
    let first = w.submit_authorization(named(1), Operation::Transfer, named(9), 1, None).unwrap();
    assert_eq!(first, 0);
    let nonce = w.submit_authorization(named(2), Operation::Stake, named(9), 10, None).unwrap();
    assert_eq!(nonce, 1);
    {
        let pending = w.get_pending_authorizations().unwrap();
        assert_eq!(pending[1].signatures, vec![named(2)]);
    }
    assert_eq!(w.execute_authorization(1), Err(WalletError::PolicyNotMet));
    assert_eq!(w.approve_authorization(named(1), 1), Ok(()));
    {
        let pending = w.get_pending_authorizations().unwrap();
        assert_eq!(pending[1].signatures, vec![named(2), named(1)]);
    }
    assert_eq!(w.execute_authorization(1), Ok(()));
}

#[test]
fn multisig_threshold_counts_allowed_signers() {
    // A three-member multi-signature list with threshold 2, on a wallet
    // whose owner and guardian are both members:
    // one qualifying approver is not enough, two are.
    let mut w = initialized_wallet();
    w.add_guardian(named(1), named(2)).unwrap();
    w.update_auth_policy(named(1), AuthPolicy::MultiSig(vec![named(1), named(2), named(3)], 2)).unwrap();
    let nonce = w.submit_authorization(named(1), Operation::Transfer, named(9), 5, None).unwrap();
    assert_eq!(w.get_pending_authorizations().unwrap()[0].signatures, vec![named(1)]);
    assert_eq!(w.execute_authorization(nonce), Err(WalletError::PolicyNotMet));
    assert_eq!(w.approve_authorization(named(2), nonce), Ok(()));
    assert_eq!(
        w.get_pending_authorizations().unwrap()[0].signatures,
        vec![named(1), named(2)]
    );
    assert_eq!(w.execute_authorization(nonce), Ok(()));
}

#[test]
fn approve_twice_rejected_and_list_unchanged() {
    let mut w = initialized_wallet();
    w.add_guardian(named(1), named(2)).unwrap();
    let nonce = w.submit_authorization(named(1), Operation::Transfer, named(9), 5, None).unwrap();
    assert_eq!(w.approve_authorization(named(2), nonce), Ok(()));
    assert_eq!(
        w.approve_authorization(named(2), nonce),
        Err(WalletError::AlreadyApproved)
    );
    assert_eq!(
        w.get_pending_authorizations().unwrap()[0].signatures,
        vec![named(1), named(2)]
    );
    // The submitter's own recorded approval is just as final.
    assert_eq!(
        w.approve_authorization(named(1), nonce),
        Err(WalletError::AlreadyApproved)
    );
    assert_eq!(
        w.get_pending_authorizations().unwrap()[0].signatures.len(),
        2
    );
}

#[test]
fn policy_read_at_execution_not_submission() {
    // Submitted under OwnerOnly with only the guardian approving, the
    // request executes once the policy becomes OwnerOrGuardian.
    let mut w = initialized_wallet();
    w.add_guardian(named(1), named(2)).unwrap();
    let nonce = w.submit_authorization(named(2), Operation::Transfer, named(9), 5, None).unwrap();
    assert_eq!(
        w.execute_authorization(nonce),
        Err(WalletError::PolicyNotMet)
    );
    w.update_auth_policy(named(1), AuthPolicy::OwnerOrGuardian).unwrap();
    assert_eq!(w.execute_authorization(nonce), Ok(()));
}

#[test]
fn nonces_strictly_increase_and_never_repeat() {
    let mut w = initialized_wallet();
    let n0 = w.submit_authorization(named(1), Operation::Transfer, named(9), 1, None).unwrap();
    let n1 = w.submit_authorization(named(1), Operation::Stake, named(9), 2, None).unwrap();
    assert!(n1 > n0);
    // Executing (removing) a request does not free its nonce.
    w.execute_authorization(n0).unwrap();
    let n2 = w.submit_authorization(named(1), Operation::Transfer, named(9), 3, None).unwrap();
    assert!(n2 > n1);
    assert_eq!((n0, n1, n2), (0, 1, 2));
    // A rejected submission does not consume a nonce.
    assert_eq!(
        w.submit_authorization(named(77), Operation::Transfer, named(9), 1, None),
        Err(WalletError::NotAuthorized)
    );
    assert_eq!(w.get_nonce(), Some(3));
}

#[test]
fn satisfaction_is_monotonic_in_approvers() {
    // Concrete check of the monotonicity law: adding an approver never
    // turns a satisfied policy unsatisfied.
    let policies = [
        AuthPolicy::OwnerOnly,
        AuthPolicy::OwnerOrGuardian,
        AuthPolicy::OwnerAndGuardian,
        AuthPolicy::MultiSig(vec![named(1), named(2)], 2),
    ];
    let satisfied_by = vec![named(1), named(2)];
    for policy in policies.iter() {
        assert!(is_satisfied(policy, &satisfied_by, named(1), Some(named(2))));
        let mut more = satisfied_by.clone();
        more.push(named(77));
        assert!(is_satisfied(policy, &more, named(1), Some(named(2))));
    }
}

#[test]
fn multisig_ignores_non_members() {
    // A stale approver outside the allowed list counts zero times.
    let approvers = vec![named(1), named(77)];
    assert!(!is_satisfied(
        &AuthPolicy::MultiSig(vec![named(2), named(3)], 1),
        &approvers,
        named(1),
        Some(named(2))
    ));
    assert!(is_satisfied(
        &AuthPolicy::MultiSig(vec![named(1), named(3)], 1),
        &approvers,
        named(1),
        Some(named(2))
    ));
}

#[test]
fn invalid_multisig_policies_rejected_at_set_time() {
    let mut w = initialized_wallet();
    assert_eq!(
        w.update_auth_policy(named(1), AuthPolicy::MultiSig(vec![], 1)),
        Err(WalletError::InvalidPolicy)
    );
    assert_eq!(
        w.update_auth_policy(named(1), AuthPolicy::MultiSig(vec![named(1)], 0)),
        Err(WalletError::InvalidPolicy)
    );
    // The previous policy stays in force.
    assert_eq!(w.get_auth_policy(), Some(&AuthPolicy::OwnerOnly));
}

#[test]
fn submit_and_approve_gated_to_owner_or_guardian() {
    let mut w = initialized_wallet();
    assert_eq!(
        w.submit_authorization(named(77), Operation::Transfer, named(9), 1, None),
        Err(WalletError::NotAuthorized)
    );
    let nonce = w.submit_authorization(named(1), Operation::Transfer, named(9), 1, None).unwrap();
    assert_eq!(
        w.approve_authorization(named(77), nonce),
        Err(WalletError::NotAuthorized)
    );
    assert_eq!(
        w.approve_authorization(named(1), 999),
        Err(WalletError::NotFound)
    );
}

#[test]
fn guardian_demanding_policy_without_guardian_is_config_error() {
    let mut w = initialized_wallet();
    w.update_auth_policy(named(1), AuthPolicy::OwnerAndGuardian).unwrap();
    let nonce = w.submit_authorization(named(1), Operation::Transfer, named(9), 1, None).unwrap();
    assert_eq!(
        w.execute_authorization(nonce),
        Err(WalletError::ConfigurationError)
    );
    // The request stays open.
    assert_eq!(w.get_pending_authorizations().unwrap().len(), 1);
}

#[test]
fn verify_news_operation_needs_payload() {
    let mut w = initialized_wallet();
    let without = w.submit_authorization(named(1), Operation::VerifyNews, named(9), 0, None).unwrap();
    assert_eq!(
        w.execute_authorization(without),
        Err(WalletError::MissingData)
    );
    // The refused request stays open for retry.
    assert_eq!(w.get_pending_authorizations().unwrap().len(), 1);
    let with = w
        .submit_authorization(named(1), Operation::VerifyNews, named(9), 0, Some(Bytes32(42)))
        .unwrap();
    assert_eq!(w.execute_authorization(with), Ok(()));
    assert_eq!(w.get_pending_authorizations().unwrap().len(), 1);
}

#[test]
fn unknown_operation_unsupported_and_kept() {
    let mut w = initialized_wallet();
    let nonce = w.submit_authorization(named(1), Operation::Other(99), named(9), 1, None).unwrap();
    assert_eq!(
        w.execute_authorization(nonce),
        Err(WalletError::UnsupportedOperation)
    );
    assert_eq!(w.get_pending_authorizations().unwrap().len(), 1);
}

#[test]
fn update_owner_transfers_control() {
    let mut w = initialized_wallet();
    assert_eq!(
        w.update_owner(named(2), named(3)),
        Err(WalletError::NotAuthorized)
    );
    assert_eq!(w.update_owner(named(1), named(2)), Ok(()));
    assert_eq!(w.get_owner(), Some(named(2)));
    // The old owner lost every right.
    assert_eq!(
        w.update_auth_policy(named(1), AuthPolicy::OwnerOrGuardian),
        Err(WalletError::NotAuthorized)
    );
    assert_eq!(
        w.submit_authorization(named(1), Operation::Transfer, named(9), 1, None),
        Err(WalletError::NotAuthorized)
    );
    assert_eq!(
        w.submit_authorization(named(2), Operation::Transfer, named(9), 1, None),
        Ok(0)
    );
}

#[test]
fn guardian_gains_and_keeps_submission_rights() {
    let mut w = initialized_wallet();
    assert_eq!(w.add_guardian(named(2), named(2)), Err(WalletError::NotAuthorized));
    assert_eq!(w.add_guardian(named(1), named(2)), Ok(()));
    assert_eq!(w.get_guardian(), Some(named(2)));
    assert_eq!(
        w.submit_authorization(named(2), Operation::Transfer, named(9), 1, None),
        Ok(0)
    );
    // Replacing the guardian revokes the old one's rights.
    assert_eq!(w.add_guardian(named(1), named(3)), Ok(()));
    assert_eq!(
        w.submit_authorization(named(2), Operation::Transfer, named(9), 1, None),
        Err(WalletError::NotAuthorized)
    );
}

#[test]
fn execution_removes_only_the_executed_request() {
    let mut w = initialized_wallet();
    let n0 = w.submit_authorization(named(1), Operation::Transfer, named(9), 1, None).unwrap();
    let n1 = w.submit_authorization(named(1), Operation::Stake, named(9), 2, None).unwrap();
    let n2 = w.submit_authorization(named(1), Operation::Transfer, named(9), 3, None).unwrap();
    assert_eq!(w.execute_authorization(n1), Ok(()));
    let pending = w.get_pending_authorizations().unwrap();
    assert_eq!(pending.len(), 2);
    assert_eq!(pending[0].nonce, n0);
    assert_eq!(pending[1].nonce, n2);
    assert_eq!(pending[1].amount, 3);
}
