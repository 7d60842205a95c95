//! The per-item news-verification process.
//!
//! One value of [`NewsVerification`] tracks the verification of a single
//! news item: verifiers vote `Verified` or `Flagged`, each backing the
//! vote with a positive stake, until the admin closes the process.  The
//! consensus is the percentage of verified votes, either by head count
//! or weighted by stake.

use vstd::prelude::*;

use crate::{Address, Bytes32, Symbol};

verus! {

/// Stake totals are kept within this bound — the largest `i128` value
/// divided by 100 — so that the percentage arithmetic
/// `stake * 100 / total` is exact in 128 bits.
pub const MAX_TOTAL_STAKE: i128 = 1701411834604692317316873037158841057;

/// A verifier's verdict on the news item.
#[derive(Clone, Copy, Debug, PartialEq, Eq, Structural)]
pub enum VerificationStatus {
    Verified,
    Flagged,
}

/// The news item under verification.
#[derive(Clone, Copy, Debug, PartialEq, Eq, Structural)]
pub struct NewsItem {
    pub id: Bytes32,
    pub title: Symbol,
    pub content_hash: Bytes32,
    pub source: Symbol,
    pub timestamp: u64,
}

/// One verifier's staked vote.
#[derive(Clone, Copy, Debug, PartialEq, Eq, Structural)]
pub struct Verification {
    pub verifier: Address,
    pub status: VerificationStatus,
    pub stake: i128,
    pub timestamp: u64,
}

/// Everything that can go wrong in a verification call.
#[derive(Clone, Copy, Debug, PartialEq, Eq, Structural)]
pub enum VerificationError {
    /// The process already has an admin and a news item.
    AlreadyInitialized,
    /// The process has not been initialized yet.
    NotInitialized,
    /// The caller is not the admin.
    NotAuthorized,
    /// Votes are no longer accepted: the process is closed.
    ProcessClosed,
    /// The process was closed before.
    AlreadyClosed,
    /// A stake or contribution that is not positive.
    InvalidAmount,
    /// This verifier already voted.
    AlreadySubmitted,
}

/// The whole state of one verification process.
pub struct NewsVerification {
    /// The admin; `None` until `initialize` has run.
    pub admin: Option<Address>,
    /// The item under verification, fixed at initialization.
    pub news_item: Option<NewsItem>,
    /// The staked votes, in submission order, one per verifier.
    pub verifications: Vec<Verification>,
    /// The sum of all stakes.
    pub staked_amount: i128,
    /// Contributions set aside for rewards.
    pub reward_pool: i128,
    /// Whether the closing tally found a verified majority.
    pub consensus_reached: bool,
    /// Whether the process has been closed.
    pub is_closed: bool,
}

/// The sum of all stakes in `vs`.
pub open spec fn total_stake_of(vs: Seq<Verification>) -> int
    decreases vs.len(),
{
    if vs.len() == 0 {
        0
    } else {
        total_stake_of(vs.drop_last()) + vs.last().stake
    }
}

/// The sum of the stakes behind `Verified` votes.
pub open spec fn verified_stake_of(vs: Seq<Verification>) -> int
    decreases vs.len(),
{
    if vs.len() == 0 {
        0
    } else {
        verified_stake_of(vs.drop_last()) + (if vs.last().status is Verified {
            vs.last().stake
        } else {
            0
        })
    }
}

/// How many votes in `vs` are `Verified`.
pub open spec fn verified_count_of(vs: Seq<Verification>) -> nat
    decreases vs.len(),
{
    if vs.len() == 0 {
        0
    } else {
        verified_count_of(vs.drop_last()) + (if vs.last().status is Verified {
            1nat
        } else {
            0nat
        })
    }
}

/// The percentage of `Verified` votes by head count; 0 with no votes.
pub open spec fn consensus_pct(vs: Seq<Verification>) -> int {
    if vs.len() == 0 {
        0
    } else {
        (verified_count_of(vs) as int) * 100 / (vs.len() as int)
    }
}

/// The percentage of the total stake behind `Verified` votes; 0 with no
/// votes or no stake.
pub open spec fn weighted_consensus_pct(vs: Seq<Verification>) -> int {
    if vs.len() == 0 || total_stake_of(vs) == 0 {
        0
    } else {
        verified_stake_of(vs) * 100 / total_stake_of(vs)
    }
}

/// Whether `verifier` already voted.
pub open spec fn has_verifier(vs: Seq<Verification>, verifier: Address) -> bool {
    exists|i: int| 0 <= i < vs.len() && vs[i].verifier == verifier
}

/// The index of `verifier`'s vote; meaningful when `has_verifier` holds
/// and verifiers are unique.
pub open spec fn verifier_index(vs: Seq<Verification>, verifier: Address) -> int {
    choose|i: int| 0 <= i < vs.len() && vs[i].verifier == verifier
}

/// Each vote's stake counts toward the total no more than once, so no
/// partial tally exceeds the full one.
proof fn lemma_prefix_stakes_bounded(vs: Seq<Verification>, i: int)
    requires
        forall|k: int| 0 <= k < vs.len() ==> (#[trigger] vs[k]).stake >= 0,
        0 <= i <= vs.len(),
    ensures
        0 <= total_stake_of(vs.subrange(0, i)) <= total_stake_of(vs),
        0 <= verified_stake_of(vs.subrange(0, i)) <= total_stake_of(vs.subrange(0, i)),
    decreases vs.len() - i,
{
    if i == vs.len() {
        assert(vs.subrange(0, i) =~= vs);
        lemma_verified_le_total(vs);
    } else {
        lemma_prefix_stakes_bounded(vs, i + 1);
        let longer = vs.subrange(0, i + 1);
        assert(longer.drop_last() =~= vs.subrange(0, i));
        assert(longer.last() == vs[i]);
        lemma_verified_le_total(vs.subrange(0, i));
    }
}

/// The verified stake never exceeds the total stake.
proof fn lemma_verified_le_total(vs: Seq<Verification>)
    requires
        forall|k: int| 0 <= k < vs.len() ==> (#[trigger] vs[k]).stake >= 0,
    ensures
        0 <= verified_stake_of(vs) <= total_stake_of(vs),
    decreases vs.len(),
{
    if vs.len() > 0 {
        lemma_verified_le_total(vs.drop_last());
        assert(vs.drop_last() =~= vs.subrange(0, vs.len() - 1));
        assert(forall|k: int|
            0 <= k < vs.drop_last().len() ==> (#[trigger] vs.drop_last()[k]).stake >= 0);
        assert(vs.last().stake >= 0);
    }
}

/// Linear scan for a verifier among the staked votes.
fn contains_verifier(vs: &Vec<Verification>, verifier: Address) -> (r: bool)
    ensures
        r == has_verifier(vs@, verifier),
{
    let mut i: usize = 0;
    while i < vs.len()
        invariant
            i <= vs@.len(),
            forall|k: int| 0 <= k < i ==> (#[trigger] vs@[k]).verifier != verifier,
        decreases vs@.len() - i,
    {
        if vs[i].verifier == verifier {
            proof {
                assert(vs@[i as int].verifier == verifier);
            }
            return true;
        }
        i += 1;
    }
    false
}

/// With unique verifiers, any index holding `verifier`'s vote is the
/// one `verifier_index` denotes.
proof fn lemma_verifier_index_unique(vs: Seq<Verification>, verifier: Address, j: int)
    requires
        forall|x: int, y: int|
            0 <= x < y < vs.len() ==> (#[trigger] vs[x]).verifier != (#[trigger] vs[y]).verifier,
        0 <= j < vs.len(),
        vs[j].verifier == verifier,
    ensures
        has_verifier(vs, verifier),
        verifier_index(vs, verifier) == j,
{
    assert(has_verifier(vs, verifier)) by {
        assert(0 <= j < vs.len() && vs[j].verifier == verifier);
    }
    let i = verifier_index(vs, verifier);
    assert(0 <= i < vs.len() && vs[i].verifier == verifier);
    if i < j {
        assert(vs[i].verifier != vs[j].verifier);
    } else if j < i {
        assert(vs[j].verifier != vs[i].verifier);
    }
}

impl NewsVerification {
    /// Whether `initialize` has run.
    pub open spec fn is_initialized(self) -> bool {
        self.admin is Some
    }

    /// The state invariant every operation preserves: one vote per
    /// verifier, every stake positive, the stake tally exact and within
    /// the arithmetic headroom, and an uninitialized process empty.
    pub open spec fn wf(self) -> bool {
        &&& forall|i: int, j: int|
            0 <= i < j < self.verifications@.len()
                ==> (#[trigger] self.verifications@[i]).verifier
                    != (#[trigger] self.verifications@[j]).verifier
        &&& forall|i: int|
            0 <= i < self.verifications@.len() ==> (#[trigger] self.verifications@[i]).stake > 0
        &&& self.staked_amount == total_stake_of(self.verifications@)
        &&& self.staked_amount <= MAX_TOTAL_STAKE
        &&& self.reward_pool >= 0
        &&& self.admin is Some <==> self.news_item is Some
        &&& !self.is_initialized() ==> {
            &&& self.verifications@.len() == 0
            &&& self.staked_amount == 0
            &&& self.reward_pool == 0
            &&& !self.consensus_reached
            &&& !self.is_closed
        }
    }

    /// A fresh, uninitialized verification process.
    pub fn new() -> (v: NewsVerification)
        ensures
            v.wf(),
            !v.is_initialized(),
    {
        NewsVerification {
            admin: None,
            news_item: None,
            verifications: Vec::new(),
            staked_amount: 0,
            reward_pool: 0,
            consensus_reached: false,
            is_closed: false,
        }
    }

    /// Installs the admin and the news item this process will verify,
    /// recording `now` as the item's timestamp.  Fails, changing
    /// nothing, when the process was already initialized.
    pub fn initialize(
        &mut self,
        admin: Address,
        news_id: Bytes32,
        title: Symbol,
        content_hash: Bytes32,
        source: Symbol,
        now: u64,
    ) -> (r: Result<(), VerificationError>)
        requires
            old(self).wf(),
        ensures
            final(self).wf(),
            r == (if old(self).is_initialized() {
                Err::<(), VerificationError>(VerificationError::AlreadyInitialized)
            } else {
                Ok::<(), VerificationError>(())
            }),
            r is Err ==> *final(self) == *old(self),
            r is Ok ==> {
                &&& final(self).admin == Some(admin)
                &&& final(self).news_item == Some(
                    NewsItem { id: news_id, title, content_hash, source, timestamp: now },
                )
                &&& final(self).verifications@.len() == 0
                &&& final(self).staked_amount == 0
                &&& final(self).reward_pool == 0
                &&& !final(self).consensus_reached
                &&& !final(self).is_closed
            },
    {
        match self.admin {
            Some(_) => Err(VerificationError::AlreadyInitialized),
            None => {
                self.admin = Some(admin);
                self.news_item = Some(
                    NewsItem { id: news_id, title, content_hash, source, timestamp: now },
                );
                Ok(())
            },
        }
    }

    /// Records `verifier`'s staked vote at time `now`.  The process
    /// must be open, the stake positive, and each verifier votes at
    /// most once; a rejected call changes nothing.
    pub fn submit_verification(
        &mut self,
        verifier: Address,
        status: VerificationStatus,
        stake_amount: i128,
        now: u64,
    ) -> (r: Result<(), VerificationError>)
        requires
            old(self).wf(),
            // headroom so the stake tally stays exact for the
            // percentage arithmetic
            stake_amount <= MAX_TOTAL_STAKE - old(self).staked_amount,
        ensures
            final(self).wf(),
            r is Err ==> *final(self) == *old(self),
            r == (if !old(self).is_initialized() {
                Err::<(), VerificationError>(VerificationError::NotInitialized)
            } else if old(self).is_closed {
                Err::<(), VerificationError>(VerificationError::ProcessClosed)
            } else if stake_amount <= 0 {
                Err::<(), VerificationError>(VerificationError::InvalidAmount)
            } else if has_verifier(old(self).verifications@, verifier) {
                Err::<(), VerificationError>(VerificationError::AlreadySubmitted)
            } else {
                Ok::<(), VerificationError>(())
            }),
            r is Ok ==> {
                &&& final(self).verifications@ == old(self).verifications@.push(
                    Verification { verifier, status, stake: stake_amount, timestamp: now },
                )
                &&& final(self).staked_amount == old(self).staked_amount + stake_amount
                &&& final(self).admin == old(self).admin
                &&& final(self).news_item == old(self).news_item
                &&& final(self).reward_pool == old(self).reward_pool
                &&& final(self).consensus_reached == old(self).consensus_reached
                &&& final(self).is_closed == old(self).is_closed
            },
    {
        if self.uninitialized() {
            return Err(VerificationError::NotInitialized);
        }
        if self.is_closed {
            return Err(VerificationError::ProcessClosed);
        }
        if stake_amount <= 0 {
            return Err(VerificationError::InvalidAmount);
        }
        if contains_verifier(&self.verifications, verifier) {
            return Err(VerificationError::AlreadySubmitted);
        }
        let v = Verification { verifier, status, stake: stake_amount, timestamp: now };
        let ghost before = self.verifications@;
        self.verifications.push(v);
        proof {
            assert(self.verifications@.drop_last() =~= before);
        }
        self.staked_amount = self.staked_amount + stake_amount;
        Ok(())
    }

    /// True exactly when no admin is installed.
    fn uninitialized(&self) -> (r: bool)
        ensures
            r == !self.is_initialized(),
    {
        match self.admin {
            Some(_) => false,
            None => true,
        }
    }

    /// The news item under verification, once initialized.
    pub fn get_news_item(&self) -> (r: Option<NewsItem>)
        ensures
            r == self.news_item,
    {
        self.news_item
    }

    /// All staked votes, in submission order, once initialized.
    pub fn get_verifications(&self) -> (r: Option<&Vec<Verification>>)
        ensures
            match r {
                Some(v) => self.is_initialized() && v@ == self.verifications@,
                None => !self.is_initialized(),
            },
    {
        match self.admin {
            Some(_) => Some(&self.verifications),
            None => None,
        }
    }

    /// The percentage of `Verified` votes by head count, 0 to 100;
    /// 0 while nobody voted.
    pub fn calculate_consensus(&self) -> (r: u32)
        requires
            self.wf(),
        ensures
            r == consensus_pct(self.verifications@),
            r <= 100,
    {
        let n = self.verifications.len();
        if n == 0 {
            return 0;
        }
        let mut verified_count: usize = 0;
        let mut i: usize = 0;
        while i < n
            invariant
                n == self.verifications@.len(),
                i <= n,
                verified_count <= i,
                verified_count == verified_count_of(self.verifications@.subrange(0, i as int)),
            decreases n - i,
        {
            proof {
                let pre = self.verifications@.subrange(0, i as int);
                let cur = self.verifications@.subrange(0, i as int + 1);
                assert(cur.drop_last() =~= pre);
                assert(cur.last() == self.verifications@[i as int]);
            }
            match self.verifications[i].status {
                VerificationStatus::Verified => {
                    verified_count += 1;
                },
                VerificationStatus::Flagged => {},
            }
            i += 1;
        }
        proof {
            assert(self.verifications@.subrange(0, n as int) =~= self.verifications@);
        }
        let pct = (verified_count as u128) * 100 / (n as u128);
        proof {
            assert(verified_count <= n);
            assert((verified_count as int) * 100 / (n as int) <= 100) by (nonlinear_arith)
                requires
                    0 < n,
                    0 <= verified_count <= n,
            ;
        }
        pct as u32
    }

    /// The percentage of the total stake behind `Verified` votes, 0 to
    /// 100; 0 while nobody voted.
    pub fn calculate_weighted_consensus(&self) -> (r: u32)
        requires
            self.wf(),
        ensures
            r == weighted_consensus_pct(self.verifications@),
            r <= 100,
    {
        let n = self.verifications.len();
        if n == 0 {
            return 0;
        }
        let mut verified_stake: i128 = 0;
        let mut total_stake: i128 = 0;
        let mut i: usize = 0;
        proof {
            assert(self.verifications@.subrange(0, 0) =~= Seq::<Verification>::empty());
            assert(forall|k: int|
                0 <= k < self.verifications@.len()
                    ==> (#[trigger] self.verifications@[k]).stake >= 0);
            lemma_prefix_stakes_bounded(self.verifications@, 0);
        }
        while i < n
            invariant
                self.wf(),
                n == self.verifications@.len(),
                i <= n,
                verified_stake == verified_stake_of(self.verifications@.subrange(0, i as int)),
                total_stake == total_stake_of(self.verifications@.subrange(0, i as int)),
                0 <= verified_stake <= total_stake,
                total_stake <= total_stake_of(self.verifications@),
            decreases n - i,
        {
            proof {
                let pre = self.verifications@.subrange(0, i as int);
                let cur = self.verifications@.subrange(0, i as int + 1);
                assert(cur.drop_last() =~= pre);
                assert(cur.last() == self.verifications@[i as int]);
                assert(forall|k: int|
                    0 <= k < self.verifications@.len()
                        ==> (#[trigger] self.verifications@[k]).stake >= 0);
                lemma_prefix_stakes_bounded(self.verifications@, i as int + 1);
            }
            let v_stake = self.verifications[i].stake;
            match self.verifications[i].status {
                VerificationStatus::Verified => {
                    verified_stake = verified_stake + v_stake;
                },
                VerificationStatus::Flagged => {},
            }
            total_stake = total_stake + v_stake;
            i += 1;
        }
        proof {
            assert(self.verifications@.subrange(0, n as int) =~= self.verifications@);
        }
        if total_stake == 0 {
            return 0;
        }
        let pct = (verified_stake as u128) * 100 / (total_stake as u128);
        proof {
            assert((verified_stake as int) * 100 / (total_stake as int) <= 100) by (
            nonlinear_arith)
                requires
                    0 < total_stake,
                    0 <= verified_stake <= total_stake,
            ;
            assert((verified_stake as u128) * 100 == (verified_stake as int) * 100);
        }
        pct as u32
    }

    /// Closes the process: no further votes are accepted, and whether
    /// the stake-weighted consensus passed 50% is recorded.  Only the
    /// admin may close, and only once.
    pub fn close_verification(&mut self, admin: Address) -> (r: Result<(), VerificationError>)
        requires
            old(self).wf(),
        ensures
            final(self).wf(),
            r is Err ==> *final(self) == *old(self),
            r == (if !old(self).is_initialized() {
                Err::<(), VerificationError>(VerificationError::NotInitialized)
            } else if old(self).admin != Some(admin) {
                Err::<(), VerificationError>(VerificationError::NotAuthorized)
            } else if old(self).is_closed {
                Err::<(), VerificationError>(VerificationError::AlreadyClosed)
            } else {
                Ok::<(), VerificationError>(())
            }),
            r is Ok ==> {
                &&& final(self).is_closed
                &&& final(self).consensus_reached == (weighted_consensus_pct(
                    old(self).verifications@,
                ) > 50)
                &&& final(self).admin == old(self).admin
                &&& final(self).news_item == old(self).news_item
                &&& final(self).verifications@ == old(self).verifications@
                &&& final(self).staked_amount == old(self).staked_amount
                &&& final(self).reward_pool == old(self).reward_pool
            },
    {
        let authorized = match self.admin {
            Some(a) => a == admin,
            None => return Err(VerificationError::NotInitialized),
        };
        if !authorized {
            return Err(VerificationError::NotAuthorized);
        }
        if self.is_closed {
            return Err(VerificationError::AlreadyClosed);
        }
        let consensus = self.calculate_weighted_consensus();
        self.consensus_reached = consensus > 50;
        self.is_closed = true;
        Ok(())
    }

    /// Whether the process is closed, whether the closing tally found
    /// a verified majority, and the current weighted consensus.
    pub fn get_verification_status(&self) -> (r: Option<(bool, bool, u32)>)
        requires
            self.wf(),
        ensures
            r == (if self.is_initialized() {
                Some(
                    (
                        self.is_closed,
                        self.consensus_reached,
                        weighted_consensus_pct(self.verifications@) as u32,
                    ),
                )
            } else {
                None::<(bool, bool, u32)>
            }),
    {
        match self.admin {
            Some(_) => {
                let consensus = self.calculate_weighted_consensus();
                Some((self.is_closed, self.consensus_reached, consensus))
            },
            None => None,
        }
    }

    /// Adds a positive contribution to the reward pool.  Only the admin
    /// may contribute.
    pub fn add_to_reward_pool(&mut self, admin: Address, amount: i128) -> (r: Result<
        (),
        VerificationError,
    >)
        requires
            old(self).wf(),
            amount <= i128::MAX - old(self).reward_pool,
        ensures
            final(self).wf(),
            r is Err ==> *final(self) == *old(self),
            r == (if !old(self).is_initialized() {
                Err::<(), VerificationError>(VerificationError::NotInitialized)
            } else if old(self).admin != Some(admin) {
                Err::<(), VerificationError>(VerificationError::NotAuthorized)
            } else if amount <= 0 {
                Err::<(), VerificationError>(VerificationError::InvalidAmount)
            } else {
                Ok::<(), VerificationError>(())
            }),
            r is Ok ==> {
                &&& final(self).reward_pool == old(self).reward_pool + amount
                &&& final(self).admin == old(self).admin
                &&& final(self).news_item == old(self).news_item
                &&& final(self).verifications@ == old(self).verifications@
                &&& final(self).staked_amount == old(self).staked_amount
                &&& final(self).consensus_reached == old(self).consensus_reached
                &&& final(self).is_closed == old(self).is_closed
            },
    {
        let authorized = match self.admin {
            Some(a) => a == admin,
            None => return Err(VerificationError::NotInitialized),
        };
        if !authorized {
            return Err(VerificationError::NotAuthorized);
        }
        if amount <= 0 {
            return Err(VerificationError::InvalidAmount);
        }
        self.reward_pool = self.reward_pool + amount;
        Ok(())
    }

    /// Whether `user` would be rewarded if the process closed now:
    /// true exactly when `user` voted and that vote sides with the
    /// current stake-weighted majority.
    pub fn would_receive_reward(&self, user: Address) -> (r: bool)
        requires
            self.wf(),
        ensures
            r == (has_verifier(self.verifications@, user) && ({
                let v = self.verifications@[verifier_index(self.verifications@, user)];
                (v.status is Verified) == (weighted_consensus_pct(self.verifications@) > 50)
            })),
    {
        let weighted_consensus = self.calculate_weighted_consensus();
        let majority_verified = weighted_consensus > 50;
        let mut i: usize = 0;
        while i < self.verifications.len()
            invariant
                self.wf(),
                i <= self.verifications@.len(),
                forall|k: int| 0 <= k < i ==> (#[trigger] self.verifications@[k]).verifier != user,
                majority_verified == (weighted_consensus_pct(self.verifications@) > 50),
            decreases self.verifications@.len() - i,
        {
            if self.verifications[i].verifier == user {
                proof {
                    lemma_verifier_index_unique(self.verifications@, user, i as int);
                }
                let verified_vote = match self.verifications[i].status {
                    VerificationStatus::Verified => true,
                    VerificationStatus::Flagged => false,
                };
                return verified_vote == majority_verified;
            }
            i += 1;
        }
        false
    }
}

} // verus!
