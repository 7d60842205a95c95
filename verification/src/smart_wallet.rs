//! The smart-wallet authorization engine.
//!
//! A wallet is configured with an owner, an optional guardian and an
//! authorization policy.  A signer proposes an operation
//! ([`SmartWallet::submit_authorization`]), further signers approve it
//! ([`SmartWallet::approve_authorization`]), and anyone may trigger its
//! evaluation and one-shot execution
//! ([`SmartWallet::execute_authorization`]).  The policy is read at
//! execution time, never cached at proposal time.
//!
//! The host performs proof-of-identity: before the embedder forwards a
//! call that names a signer, it must have required proof that the caller
//! controls that identity.  The engine itself checks only which identities
//! are allowed to act.
//!
//! Two deliberate choices.  Submitting and approving are open to the
//! owner and the guardian alone, whatever the policy; a multi-signature
//! policy is therefore only satisfiable when its allowed list includes
//! them.  And a pending request never expires: it stays open until it is
//! executed.

use vstd::pervasive::unreached;
use vstd::prelude::*;

use crate::{Address, Bytes32};

verus! {

/// The operations a wallet can be asked to carry out.  The first three
/// have handlers; any other tag is stored but refused at execution time.
#[derive(Clone, Copy, Debug, PartialEq, Eq, Structural)]
pub enum Operation {
    Transfer,
    VerifyNews,
    Stake,
    /// An operation tag outside the dispatchable set.
    Other(u64),
}

/// The rule that decides which approvers suffice to execute a request.
#[derive(Debug, PartialEq, Eq)]
pub enum AuthPolicy {
    /// Satisfied exactly when the owner is among the approvers.
    OwnerOnly,
    /// Satisfied when the owner or the configured guardian approved.
    OwnerOrGuardian,
    /// Satisfied when both the owner and the guardian approved; a wallet
    /// without a guardian can never satisfy it.
    OwnerAndGuardian,
    /// Satisfied when at least `threshold` of the approvers are members
    /// of the allowed-signer list.
    MultiSig(Vec<Address>, u32),
}

/// Everything that can go wrong in a wallet call.
#[derive(Clone, Copy, Debug, PartialEq, Eq, Structural)]
pub enum WalletError {
    /// The wallet already has an owner.
    AlreadyInitialized,
    /// The caller is not allowed to perform this call.
    NotAuthorized,
    /// No pending request carries the given nonce.
    NotFound,
    /// The signer already approved this request.
    AlreadyApproved,
    /// A multi-signature policy with no allowed signers or a zero
    /// threshold.
    InvalidPolicy,
    /// The active policy demands a guardian, but none is configured.
    ConfigurationError,
    /// The approvals collected so far do not satisfy the active policy.
    PolicyNotMet,
    /// The operation needs a payload and the request carries none.
    MissingData,
    /// The request's operation tag has no handler.
    UnsupportedOperation,
}

/// One pending authorization request.
#[derive(Debug, PartialEq, Eq)]
pub struct Authorization {
    /// Unique identifier, taken from the wallet's counter at submission.
    pub nonce: u64,
    /// What the request asks the wallet to do.
    pub operation: Operation,
    /// The identity the operation acts on.
    pub target: Address,
    /// Quantity the operation moves; meaning depends on the operation.
    pub amount: i128,
    /// Payload for operations that need one (`VerifyNews`).
    pub data: Option<Bytes32>,
    /// Identities that approved, in approval order, without duplicates.
    pub signatures: Vec<Address>,
}

/// The wallet's entire state.  The embedder owns one value of this type
/// per wallet instance and threads it through every call.
pub struct SmartWallet {
    /// The owner; `None` until `initialize` has run.
    pub owner: Option<Address>,
    /// The optional guardian; absent until explicitly set.
    pub guardian: Option<Address>,
    /// The active policy; `OwnerOnly` from initialization on.
    pub policy: AuthPolicy,
    /// The nonce the next submission will receive.  Never decreases,
    /// so nonces are never reused.
    pub next_nonce: u64,
    /// The pending requests, oldest first.
    pub authorizations: Vec<Authorization>,
}

/// Whether some pending request carries `nonce`.
pub open spec fn has_request(auths: Seq<Authorization>, nonce: u64) -> bool {
    exists|i: int| 0 <= i < auths.len() && auths[i].nonce == nonce
}

/// The index of the request carrying `nonce`; meaningful only when
/// `has_request` holds and nonces are unique.
pub open spec fn request_index(auths: Seq<Authorization>, nonce: u64) -> int {
    choose|i: int| 0 <= i < auths.len() && auths[i].nonce == nonce
}

/// How many of the collected approvers are members of `allowed`.  Each
/// approver is counted once, whether or not `allowed` repeats it.
pub open spec fn qualifying_count(signers: Seq<Address>, allowed: Seq<Address>) -> nat
    decreases signers.len(),
{
    if signers.len() == 0 {
        0
    } else {
        qualifying_count(signers.drop_last(), allowed)
            + (if allowed.contains(signers.last()) { 1nat } else { 0nat })
    }
}

/// Whether `policy` accepts the approvals in `signers` for a wallet with
/// this `owner` and `guardian`.  A guardian-demanding policy is simply
/// unsatisfiable while no guardian is configured.
pub open spec fn policy_satisfied(
    policy: AuthPolicy,
    signers: Seq<Address>,
    owner: Address,
    guardian: Option<Address>,
) -> bool {
    match policy {
        AuthPolicy::OwnerOnly => signers.contains(owner),
        AuthPolicy::OwnerOrGuardian => {
            ||| signers.contains(owner)
            ||| (guardian matches Some(g) && signers.contains(g))
        },
        AuthPolicy::OwnerAndGuardian => {
            &&& guardian matches Some(g)
            &&& signers.contains(owner)
            &&& signers.contains(g)
        },
        AuthPolicy::MultiSig(allowed, threshold) => {
            qualifying_count(signers, allowed@) >= threshold
        },
    }
}

/// A policy a wallet may be configured with: a multi-signature policy
/// must name at least one signer and demand at least one approval.
pub open spec fn policy_well_formed(policy: AuthPolicy) -> bool {
    policy matches AuthPolicy::MultiSig(allowed, threshold)
        ==> allowed@.len() > 0 && threshold >= 1
}

/// Linear scan for an address, the way every membership test here runs.
fn contains_address(addresses: &Vec<Address>, needle: Address) -> (r: bool)
    ensures
        r == addresses@.contains(needle),
{
    let mut i: usize = 0;
    while i < addresses.len()
        invariant
            i <= addresses@.len(),
            forall|k: int| 0 <= k < i ==> addresses@[k] != needle,
        decreases addresses@.len() - i,
    {
        if addresses[i] == needle {
            proof {
                assert(addresses@[i as int] == needle);
            }
            return true;
        }
        i += 1;
    }
    false
}

/// Counts the approvers that are members of the allowed-signer list.
fn count_qualifying(signers: &Vec<Address>, allowed: &Vec<Address>) -> (r: usize)
    ensures
        r == qualifying_count(signers@, allowed@),
{
    let mut count: usize = 0;
    let mut i: usize = 0;
    while i < signers.len()
        invariant
            i <= signers@.len(),
            count <= i,
            count == qualifying_count(signers@.subrange(0, i as int), allowed@),
        decreases signers@.len() - i,
    {
        let member = contains_address(allowed, signers[i]);
        proof {
            let pre = signers@.subrange(0, i as int);
            let cur = signers@.subrange(0, i as int + 1);
            assert(cur.drop_last() =~= pre);
            assert(cur.last() == signers@[i as int]);
        }
        if member {
            count += 1;
        }
        i += 1;
    }
    proof {
        assert(signers@.subrange(0, signers@.len() as int) =~= signers@);
    }
    count
}

/// First index holding the request with `nonce`, if any.
fn find_request(auths: &Vec<Authorization>, nonce: u64) -> (r: Option<usize>)
    ensures
        match r {
            Some(i) => i < auths@.len() && auths@[i as int].nonce == nonce,
            None => !has_request(auths@, nonce),
        },
{
    let mut i: usize = 0;
    while i < auths.len()
        invariant
            i <= auths@.len(),
            forall|k: int| 0 <= k < i ==> (#[trigger] auths@[k]).nonce != nonce,
        decreases auths@.len() - i,
    {
        if auths[i].nonce == nonce {
            return Some(i);
        }
        i += 1;
    }
    None
}

/// With unique nonces, any index holding `nonce` is the one
/// `request_index` denotes.
proof fn lemma_request_index_unique(auths: Seq<Authorization>, nonce: u64, j: int)
    requires
        forall|x: int, y: int|
            0 <= x < y < auths.len() ==> (#[trigger] auths[x]).nonce != (#[trigger] auths[y]).nonce,
        0 <= j < auths.len(),
        auths[j].nonce == nonce,
    ensures
        has_request(auths, nonce),
        request_index(auths, nonce) == j,
{
    assert(has_request(auths, nonce)) by {
        assert(0 <= j < auths.len() && auths[j].nonce == nonce);
    }
    let i = request_index(auths, nonce);
    assert(0 <= i < auths.len() && auths[i].nonce == nonce);
    if i < j {
        assert(auths[i].nonce != auths[j].nonce);
    } else if j < i {
        assert(auths[j].nonce != auths[i].nonce);
    }
}

/// Evaluates `policy` against the approvals in `signers`, for a wallet
/// whose owner and guardian are as given.  This is the pure policy
/// check `execute_authorization` runs against the live configuration.
pub fn is_satisfied(
    policy: &AuthPolicy,
    signers: &Vec<Address>,
    owner: Address,
    guardian: Option<Address>,
) -> (r: bool)
    ensures
        r == policy_satisfied(*policy, signers@, owner, guardian),
{
    match policy {
        AuthPolicy::OwnerOnly => contains_address(signers, owner),
        AuthPolicy::OwnerOrGuardian => {
            if contains_address(signers, owner) {
                true
            } else {
                match guardian {
                    Some(g) => contains_address(signers, g),
                    None => false,
                }
            }
        },
        AuthPolicy::OwnerAndGuardian => {
            match guardian {
                Some(g) => contains_address(signers, owner) && contains_address(signers, g),
                None => false,
            }
        },
        AuthPolicy::MultiSig(allowed, threshold) => {
            let count = count_qualifying(signers, allowed);
            // The count is bounded by the approver list's length, so the
            // comparison is exact in either width.
            if *threshold as usize <= count {
                true
            } else {
                false
            }
        },
    }
}

/// Handler for `Transfer`.  A deployment would move `amount` of the
/// ledger's currency from the wallet to `target`; this build keeps no
/// balances, so the handler succeeds with no further effect.
fn execute_transfer(_target: Address, _amount: i128) {
}

/// Handler for `VerifyNews`.  A deployment would submit `news_hash` to
/// the verification contract at `target`; this build succeeds with no
/// further effect.
fn execute_verify_news(_verification_contract: Address, _news_hash: Bytes32) {
}

/// Handler for `Stake`.  A deployment would stake `amount` with the
/// contract at `target`; this build succeeds with no further effect.
fn execute_stake(_staking_contract: Address, _amount: i128) {
}

impl SmartWallet {
    /// Whether `initialize` has run.
    pub open spec fn is_initialized(self) -> bool {
        self.owner is Some
    }

    /// Whether `signer` may submit and approve requests: only the owner
    /// and the configured guardian may.
    pub open spec fn can_sign(self, signer: Address) -> bool {
        self.owner == Some(signer) || self.guardian == Some(signer)
    }

    /// Whether the wallet's current policy accepts `signers` right now.
    pub open spec fn satisfied_now(self, signers: Seq<Address>) -> bool {
        self.owner matches Some(o) && policy_satisfied(self.policy, signers, o, self.guardian)
    }

    /// The state invariant every wallet operation preserves: pending
    /// nonces are unique and all below the counter, approver lists hold
    /// no duplicates, and an uninitialized wallet is otherwise empty.
    pub open spec fn wf(self) -> bool {
        &&& forall|i: int, j: int|
            0 <= i < j < self.authorizations@.len()
                ==> (#[trigger] self.authorizations@[i]).nonce
                    != (#[trigger] self.authorizations@[j]).nonce
        &&& forall|i: int|
            0 <= i < self.authorizations@.len()
                ==> (#[trigger] self.authorizations@[i]).nonce < self.next_nonce
        &&& forall|i: int|
            0 <= i < self.authorizations@.len()
                ==> (#[trigger] self.authorizations@[i]).signatures@.no_duplicates()
        &&& !self.is_initialized() ==> {
            &&& self.guardian is None
            &&& self.next_nonce == 0
            &&& self.authorizations@.len() == 0
            &&& self.policy is OwnerOnly
        }
    }

    /// A fresh, uninitialized wallet.
    pub fn new() -> (w: SmartWallet)
        ensures
            w.wf(),
            !w.is_initialized(),
    {
        SmartWallet {
            owner: None,
            guardian: None,
            policy: AuthPolicy::OwnerOnly,
            next_nonce: 0,
            authorizations: Vec::new(),
        }
    }

    /// Installs the first owner.  Fails, changing nothing, when the
    /// wallet already has one; re-initialization is forbidden.
    pub fn initialize(&mut self, owner: Address) -> (r: Result<(), WalletError>)
        requires
            old(self).wf(),
        ensures
            final(self).wf(),
            r == (if old(self).is_initialized() {
                Err::<(), WalletError>(WalletError::AlreadyInitialized)
            } else {
                Ok::<(), WalletError>(())
            }),
            r is Err ==> *final(self) == *old(self),
            r is Ok ==> {
                &&& final(self).owner == Some(owner)
                &&& final(self).guardian is None
                &&& final(self).policy is OwnerOnly
                &&& final(self).next_nonce == 0
                &&& final(self).authorizations@.len() == 0
            },
    {
        match self.owner {
            Some(_) => Err(WalletError::AlreadyInitialized),
            None => {
                self.owner = Some(owner);
                Ok(())
            },
        }
    }

    /// Replaces the owner.  Only the current owner may call this; a
    /// self-referential update is allowed.
    pub fn update_owner(&mut self, current_owner: Address, new_owner: Address) -> (r: Result<
        (),
        WalletError,
    >)
        requires
            old(self).wf(),
        ensures
            final(self).wf(),
            r == (if old(self).owner == Some(current_owner) {
                Ok::<(), WalletError>(())
            } else {
                Err::<(), WalletError>(WalletError::NotAuthorized)
            }),
            r is Err ==> *final(self) == *old(self),
            r is Ok ==> {
                &&& final(self).owner == Some(new_owner)
                &&& final(self).guardian == old(self).guardian
                &&& final(self).policy == old(self).policy
                &&& final(self).next_nonce == old(self).next_nonce
                &&& final(self).authorizations == old(self).authorizations
            },
    {
        let authorized = match self.owner {
            Some(o) => o == current_owner,
            None => false,
        };
        if authorized {
            self.owner = Some(new_owner);
            Ok(())
        } else {
            Err(WalletError::NotAuthorized)
        }
    }

    /// Installs or replaces the guardian.  Only the owner may call this.
    pub fn add_guardian(&mut self, owner: Address, guardian: Address) -> (r: Result<
        (),
        WalletError,
    >)
        requires
            old(self).wf(),
        ensures
            final(self).wf(),
            r == (if old(self).owner == Some(owner) {
                Ok::<(), WalletError>(())
            } else {
                Err::<(), WalletError>(WalletError::NotAuthorized)
            }),
            r is Err ==> *final(self) == *old(self),
            r is Ok ==> {
                &&& final(self).guardian == Some(guardian)
                &&& final(self).owner == old(self).owner
                &&& final(self).policy == old(self).policy
                &&& final(self).next_nonce == old(self).next_nonce
                &&& final(self).authorizations == old(self).authorizations
            },
    {
        let authorized = match self.owner {
            Some(o) => o == owner,
            None => false,
        };
        if authorized {
            self.guardian = Some(guardian);
            Ok(())
        } else {
            Err(WalletError::NotAuthorized)
        }
    }

    /// Swaps the active policy.  Only the owner may call this, and a
    /// malformed multi-signature policy is rejected at set time, leaving
    /// the previous policy in force.  Swapping never touches the stored
    /// approvals of open requests; only later executions see the change.
    pub fn update_auth_policy(&mut self, owner: Address, policy: AuthPolicy) -> (r: Result<
        (),
        WalletError,
    >)
        requires
            old(self).wf(),
        ensures
            final(self).wf(),
            r == (if old(self).owner != Some(owner) {
                Err::<(), WalletError>(WalletError::NotAuthorized)
            } else if !policy_well_formed(policy) {
                Err::<(), WalletError>(WalletError::InvalidPolicy)
            } else {
                Ok::<(), WalletError>(())
            }),
            r is Err ==> *final(self) == *old(self),
            r is Ok ==> {
                &&& final(self).policy == policy
                &&& final(self).owner == old(self).owner
                &&& final(self).guardian == old(self).guardian
                &&& final(self).next_nonce == old(self).next_nonce
                &&& final(self).authorizations == old(self).authorizations
            },
    {
        let authorized = match self.owner {
            Some(o) => o == owner,
            None => false,
        };
        if authorized {
            let ok = match &policy {
                AuthPolicy::MultiSig(allowed, threshold) => allowed.len() > 0 && *threshold >= 1,
                _ => true,
            };
            if ok {
                self.policy = policy;
                Ok(())
            } else {
                Err(WalletError::InvalidPolicy)
            }
        } else {
            Err(WalletError::NotAuthorized)
        }
    }

    /// Whether `signer` may currently submit and approve.
    fn check_signer(&self, signer: Address) -> (r: bool)
        ensures
            r == self.can_sign(signer),
    {
        let owner_match = match self.owner {
            Some(o) => o == signer,
            None => false,
        };
        if owner_match {
            true
        } else {
            match self.guardian {
                Some(g) => g == signer,
                None => false,
            }
        }
    }

    /// Opens a request for `operation` and returns its nonce.  Only the
    /// owner or the guardian may submit; the submitter is recorded as
    /// the first approver.  The returned nonce is the counter's value,
    /// fresh among all pending requests, and the counter moves past it,
    /// so no later submission can ever return it again.
    pub fn submit_authorization(
        &mut self,
        signer: Address,
        operation: Operation,
        target: Address,
        amount: i128,
        data: Option<Bytes32>,
    ) -> (r: Result<u64, WalletError>)
        requires
            old(self).wf(),
            old(self).next_nonce < u64::MAX,
        ensures
            final(self).wf(),
            r == (if old(self).can_sign(signer) {
                Ok::<u64, WalletError>(old(self).next_nonce)
            } else {
                Err::<u64, WalletError>(WalletError::NotAuthorized)
            }),
            r is Err ==> *final(self) == *old(self),
            r matches Ok(n) ==> {
                &&& forall|i: int|
                    0 <= i < old(self).authorizations@.len()
                        ==> (#[trigger] old(self).authorizations@[i]).nonce != n
                &&& final(self).next_nonce == n + 1
                &&& final(self).owner == old(self).owner
                &&& final(self).guardian == old(self).guardian
                &&& final(self).policy == old(self).policy
                &&& final(self).authorizations@.len() == old(self).authorizations@.len() + 1
                &&& forall|i: int|
                    0 <= i < old(self).authorizations@.len()
                        ==> final(self).authorizations@[i] == old(self).authorizations@[i]
                &&& {
                    let a = final(self).authorizations@.last();
                    &&& a.nonce == n
                    &&& a.operation == operation
                    &&& a.target == target
                    &&& a.amount == amount
                    &&& a.data == data
                    &&& a.signatures@ == seq![signer]
                }
            },
    {
        if !self.check_signer(signer) {
            return Err(WalletError::NotAuthorized);
        }
        let nonce = self.next_nonce;
        let mut signatures: Vec<Address> = Vec::new();
        signatures.push(signer);
        proof {
            assert(signatures@ =~= seq![signer]);
        }
        let auth = Authorization { nonce, operation, target, amount, data, signatures };
        self.authorizations.push(auth);
        self.next_nonce = nonce + 1;
        Ok(nonce)
    }

    /// Records `signer`'s approval of the request carrying `nonce`,
    /// appending it to the approval list; earlier approvals keep their
    /// order.  A second approval by the same signer is rejected, not
    /// ignored, and a rejected call changes nothing.
    pub fn approve_authorization(&mut self, signer: Address, nonce: u64) -> (r: Result<
        (),
        WalletError,
    >)
        requires
            old(self).wf(),
        ensures
            final(self).wf(),
            r is Err ==> *final(self) == *old(self),
            (r == Err::<(), WalletError>(WalletError::NotFound)) <==> !has_request(
                old(self).authorizations@,
                nonce,
            ),
            has_request(old(self).authorizations@, nonce) ==> ({
                let i = request_index(old(self).authorizations@, nonce);
                let a = old(self).authorizations@[i];
                &&& ((r == Err::<(), WalletError>(WalletError::NotAuthorized)) <==> !old(
                    self,
                ).can_sign(signer))
                &&& ((r == Err::<(), WalletError>(WalletError::AlreadyApproved)) <==> (old(
                    self,
                ).can_sign(signer) && a.signatures@.contains(signer)))
                &&& ((r is Ok) <==> (old(self).can_sign(signer) && !a.signatures@.contains(
                    signer,
                )))
                &&& (r is Ok ==> {
                    &&& final(self).authorizations@.len() == old(self).authorizations@.len()
                    &&& forall|k: int|
                        0 <= k < old(self).authorizations@.len() && k != i
                            ==> final(self).authorizations@[k] == old(self).authorizations@[k]
                    &&& final(self).authorizations@[i].nonce == a.nonce
                    &&& final(self).authorizations@[i].operation == a.operation
                    &&& final(self).authorizations@[i].target == a.target
                    &&& final(self).authorizations@[i].amount == a.amount
                    &&& final(self).authorizations@[i].data == a.data
                    &&& final(self).authorizations@[i].signatures@ == a.signatures@.push(signer)
                    &&& final(self).owner == old(self).owner
                    &&& final(self).guardian == old(self).guardian
                    &&& final(self).policy == old(self).policy
                    &&& final(self).next_nonce == old(self).next_nonce
                })
            }),
    {
        let found = find_request(&self.authorizations, nonce);
        match found {
            None => Err(WalletError::NotFound),
            Some(i) => {
                proof {
                    lemma_request_index_unique(self.authorizations@, nonce, i as int);
                }
                if !self.check_signer(signer) {
                    return Err(WalletError::NotAuthorized);
                }
                if contains_address(&self.authorizations[i].signatures, signer) {
                    return Err(WalletError::AlreadyApproved);
                }
                let ghost pre = self.authorizations@[i as int].signatures@;
                let entry = &mut self.authorizations[i];
                entry.signatures.push(signer);
                proof {
                    let post = self.authorizations@[i as int].signatures@;
                    assert(post == pre.push(signer));
                    assert(post.no_duplicates()) by {
                        assert forall|p: int, q: int|
                            0 <= p < post.len() && 0 <= q < post.len() && p != q implies post[p]
                            != post[q] by {
                            if p < post.len() - 1 && q < post.len() - 1 {
                                assert(post[p] == pre[p] && post[q] == pre[q]);
                            } else if q == post.len() - 1 {
                                assert(post[q] == signer && post[p] == pre[p]);
                                if pre[p] == signer {
                                    assert(pre.contains(signer));
                                }
                            } else {
                                assert(post[p] == signer && post[q] == pre[q]);
                                if pre[q] == signer {
                                    assert(pre.contains(signer));
                                }
                            }
                        }
                    }
                }
                Ok(())
            },
        }
    }

    /// Evaluates the policy in force now — not the one in force at
    /// submission — against the request's approvals, dispatches to the
    /// operation's handler, and removes the executed request, so a
    /// second execution of the same nonce reports `NotFound`.  The
    /// bundled handlers cannot fail; removal follows the handler's
    /// return, so a collaborator that aborted the call would leave the
    /// request open for retry.  A request refused for a missing payload
    /// or an unknown operation also stays open.
    pub fn execute_authorization(&mut self, nonce: u64) -> (r: Result<(), WalletError>)
        requires
            old(self).wf(),
        ensures
            final(self).wf(),
            r is Err ==> *final(self) == *old(self),
            (r == Err::<(), WalletError>(WalletError::NotFound)) <==> !has_request(
                old(self).authorizations@,
                nonce,
            ),
            has_request(old(self).authorizations@, nonce) ==> ({
                let i = request_index(old(self).authorizations@, nonce);
                let a = old(self).authorizations@[i];
                let needs_guardian = old(self).policy is OwnerAndGuardian && old(
                    self,
                ).guardian is None;
                let sat = old(self).satisfied_now(a.signatures@);
                &&& ((r == Err::<(), WalletError>(WalletError::ConfigurationError))
                    <==> needs_guardian)
                &&& ((r == Err::<(), WalletError>(WalletError::PolicyNotMet)) <==> (
                !needs_guardian && !sat))
                &&& ((r == Err::<(), WalletError>(WalletError::MissingData)) <==> (!needs_guardian
                    && sat && a.operation is VerifyNews && a.data is None))
                &&& ((r == Err::<(), WalletError>(WalletError::UnsupportedOperation)) <==> (
                !needs_guardian && sat && a.operation is Other))
                &&& ((r is Ok) <==> (!needs_guardian && sat && (a.operation is Transfer
                    || a.operation is Stake || (a.operation is VerifyNews && a.data is Some))))
                &&& (r is Ok ==> {
                    &&& final(self).authorizations@ == old(self).authorizations@.remove(i)
                    &&& final(self).owner == old(self).owner
                    &&& final(self).guardian == old(self).guardian
                    &&& final(self).policy == old(self).policy
                    &&& final(self).next_nonce == old(self).next_nonce
                })
            }),
    {
        let found = find_request(&self.authorizations, nonce);
        let i = match found {
            None => {
                return Err(WalletError::NotFound);
            },
            Some(i) => i,
        };
        proof {
            lemma_request_index_unique(self.authorizations@, nonce, i as int);
            assert(self.is_initialized());
        }
        let needs_guardian = match (&self.policy, self.guardian) {
            (AuthPolicy::OwnerAndGuardian, None) => true,
            _ => false,
        };
        if needs_guardian {
            return Err(WalletError::ConfigurationError);
        }
        let owner = match self.owner {
            Some(o) => o,
            None => unreached(),
        };
        let sat = is_satisfied(&self.policy, &self.authorizations[i].signatures, owner, self.guardian);
        if !sat {
            return Err(WalletError::PolicyNotMet);
        }
        let target = self.authorizations[i].target;
        let amount = self.authorizations[i].amount;
        match self.authorizations[i].operation {
            Operation::Transfer => {
                execute_transfer(target, amount);
            },
            Operation::VerifyNews => {
                match self.authorizations[i].data {
                    Some(news_hash) => {
                        execute_verify_news(target, news_hash);
                    },
                    None => {
                        return Err(WalletError::MissingData);
                    },
                }
            },
            Operation::Stake => {
                execute_stake(target, amount);
            },
            Operation::Other(_) => {
                return Err(WalletError::UnsupportedOperation);
            },
        }
        self.authorizations.remove(i);
        Ok(())
    }

    /// The owner, once configured.
    pub fn get_owner(&self) -> (r: Option<Address>)
        ensures
            r == self.owner,
    {
        self.owner
    }

    /// The guardian, if one is set.
    pub fn get_guardian(&self) -> (r: Option<Address>)
        ensures
            r == self.guardian,
    {
        self.guardian
    }

    /// The active policy of an initialized wallet.
    pub fn get_auth_policy(&self) -> (r: Option<&AuthPolicy>)
        ensures
            match r {
                Some(p) => self.is_initialized() && *p == self.policy,
                None => !self.is_initialized(),
            },
    {
        match self.owner {
            Some(_) => Some(&self.policy),
            None => None,
        }
    }

    /// The nonce the next submission will receive, once initialized.
    pub fn get_nonce(&self) -> (r: Option<u64>)
        ensures
            r == (if self.is_initialized() {
                Some(self.next_nonce)
            } else {
                None::<u64>
            }),
    {
        match self.owner {
            Some(_) => Some(self.next_nonce),
            None => None,
        }
    }

    /// The pending requests of an initialized wallet, oldest first.
    pub fn get_pending_authorizations(&self) -> (r: Option<&Vec<Authorization>>)
        ensures
            match r {
                Some(v) => self.is_initialized() && v@ == self.authorizations@,
                None => !self.is_initialized(),
            },
    {
        match self.owner {
            Some(_) => Some(&self.authorizations),
            None => None,
        }
    }
}

/// Policy satisfaction is monotonic in the approvers: a policy that a
/// list of approvers satisfies is still satisfied after any further
/// approver is appended, whoever it is.
pub proof fn lemma_satisfaction_monotonic(
    policy: AuthPolicy,
    signers: Seq<Address>,
    extra: Address,
    owner: Address,
    guardian: Option<Address>,
)
    requires
        policy_satisfied(policy, signers, owner, guardian),
    ensures
        policy_satisfied(policy, signers.push(extra), owner, guardian),
{
    let pushed = signers.push(extra);
    assert(pushed.drop_last() =~= signers);
    assert forall|x: Address| signers.contains(x) implies pushed.contains(x) by {
        let k = choose|k: int| 0 <= k < signers.len() && signers[k] == x;
        assert(pushed[k] == x);
    }
    match policy {
        AuthPolicy::MultiSig(allowed, threshold) => {
            assert(qualifying_count(pushed, allowed@) >= qualifying_count(signers, allowed@));
        },
        _ => {},
    }
}

/// Nonces handed out by submissions are strictly increasing and never
/// repeat.  A submission returns the wallet's counter and leaves the
/// counter one past it; no wallet operation ever lowers the counter; so
/// whatever happens between two submissions, the second one's nonce is
/// strictly larger than the first one's.
pub proof fn lemma_nonces_strictly_increase(
    first: SmartWallet,
    after_first: SmartWallet,
    n1: u64,
    second: SmartWallet,
    n2: u64,
)
    requires
        n1 == first.next_nonce,
        after_first.next_nonce == n1 + 1,
        second.next_nonce >= after_first.next_nonce,
        n2 == second.next_nonce,
    ensures
        n2 > n1,
{
}

} // verus!
