//! Core logic of the TrueLens news-verification platform.
//!
//! The platform runs as a set of contracts hosted by a serializing ledger:
//! the host performs storage, proof-of-identity checks and timekeeping, and
//! invokes this logic one call at a time.  Everything the host owns is kept
//! out of this crate; each contract's state is an explicit value that the
//! embedder threads through the calls, so every rule the contracts enforce
//! is stated and proved here.
//!
//! Modules:
//! - [`smart_wallet`]: the authorization engine — proposals, approvals,
//!   policy evaluation and one-shot execution.
//! - [`verification`]: the per-item news-verification process.
//! - [`user_profile`]: user profiles, reputation and levels.
//! - [`token`]: the reward token's admission rules.
//!
//! This root module holds the factory contract that registers news items
//! and tallies their verification votes.

use vstd::prelude::*;

pub mod smart_wallet;
pub mod token;
pub mod user_profile;
pub mod verification;

verus! {

/// An account or contract identity.
///
/// On the ledger an identity is an opaque address issued by the host.  The
/// logic never inspects an address beyond comparing it for equality, so
/// each one is represented by the numeric handle under which the embedder
/// knows it.
#[derive(Clone, Copy, Debug, PartialEq, Eq, Structural)]
pub struct Address(pub u64);

/// An opaque 32-byte value: a content digest or a news identifier.
///
/// The logic only stores such values and compares them for equality, so
/// the embedder hands each one in as a numeric handle.
#[derive(Clone, Copy, Debug, PartialEq, Eq, Structural)]
pub struct Bytes32(pub u64);

/// A short piece of interned text: a title, a source name, a username.
/// Stored, returned and compared for equality; never parsed here.
#[derive(Clone, Copy, Debug, PartialEq, Eq, Structural)]
pub struct Symbol(pub u64);

/// A registered news item and its running vote tallies.
#[derive(Clone, Copy, Debug, PartialEq, Eq, Structural)]
pub struct NewsItem {
    pub id: Bytes32,
    pub title: Symbol,
    /// Digest of the published content.
    pub content_hash: Bytes32,
    pub source: Symbol,
    pub timestamp: u64,
    /// How many verifiers marked the item verified.
    pub verified_count: u32,
    /// How many verifiers flagged the item.
    pub flagged_count: u32,
    /// The total stake placed on the item, over all votes.
    pub total_stake: i128,
}

/// A verifier's verdict on a news item.
#[derive(Clone, Copy, Debug, PartialEq, Eq, Structural)]
pub enum VerificationStatus {
    Verified,
    Flagged,
}

/// The latest recorded verification of a news item.
#[derive(Clone, Copy, Debug, PartialEq, Eq, Structural)]
pub struct Verification {
    pub verifier: Address,
    pub news_id: Bytes32,
    pub status: VerificationStatus,
    pub stake_amount: i128,
    pub timestamp: u64,
}

/// Everything that can go wrong in a factory-contract call.
#[derive(Clone, Copy, Debug, PartialEq, Eq, Structural)]
pub enum PlatformError {
    /// The contract already has an owner.
    AlreadyInitialized,
    /// The contract has not been initialized yet.
    NotInitialized,
    /// A stake that is not positive.
    InvalidAmount,
    /// No news item carries the given identifier.
    NotFound,
}

/// The factory contract's state: the registered news items, the latest
/// verification recorded per item, and the verifiers seen so far.
pub struct TrueLensContract {
    /// The owner; `None` until `initialize` has run.
    pub owner: Option<Address>,
    /// Registered items, in submission order.
    pub news_items: Vec<NewsItem>,
    /// The most recent verification per news item, keyed by `news_id`.
    pub verification_states: Vec<Verification>,
    /// Every identity that ever verified an item, without duplicates.
    pub verifiers: Vec<Address>,
}

/// Whether some registered item carries `news_id`.
pub open spec fn has_news(items: Seq<NewsItem>, news_id: Bytes32) -> bool {
    exists|i: int| 0 <= i < items.len() && items[i].id == news_id
}

/// Whether a verification is recorded for `news_id`.
pub open spec fn has_state(states: Seq<Verification>, news_id: Bytes32) -> bool {
    exists|i: int| 0 <= i < states.len() && states[i].news_id == news_id
}

/// The index of the verification recorded for `news_id`; meaningful
/// when `has_state` holds, since recorded identifiers are unique.
pub open spec fn state_index(states: Seq<Verification>, news_id: Bytes32) -> int {
    choose|i: int| 0 <= i < states.len() && states[i].news_id == news_id
}

/// `item` after one more vote of `status` backed by `stake`.
pub open spec fn voted(item: NewsItem, status: VerificationStatus, stake: i128) -> NewsItem {
    NewsItem {
        verified_count: if status is Verified {
            (item.verified_count + 1) as u32
        } else {
            item.verified_count
        },
        flagged_count: if status is Flagged {
            (item.flagged_count + 1) as u32
        } else {
            item.flagged_count
        },
        total_stake: (item.total_stake + stake) as i128,
        ..item
    }
}

/// The percentage of an item's votes that marked it verified; 0 while
/// nobody voted.
pub open spec fn item_consensus(item: NewsItem) -> int {
    if item.verified_count + item.flagged_count == 0 {
        0
    } else {
        (item.verified_count as int) * 100 / (item.verified_count + item.flagged_count)
    }
}

/// Room left in an item's tallies for one more vote of `stake`: the
/// machine bounds under which the counters cannot overflow.
pub open spec fn stats_headroom(items: Seq<NewsItem>, stake: i128) -> bool {
    forall|i: int|
        0 <= i < items.len() ==> {
            &&& (#[trigger] items[i]).verified_count < u32::MAX
            &&& items[i].flagged_count < u32::MAX
            &&& items[i].total_stake + stake <= i128::MAX
        }
}

/// First index registering `news_id`, if any.
fn find_news(items: &Vec<NewsItem>, news_id: Bytes32) -> (r: Option<usize>)
    ensures
        match r {
            Some(i) => i < items@.len() && items@[i as int].id == news_id && (forall|k: int|
                0 <= k < i ==> (#[trigger] items@[k]).id != news_id),
            None => !has_news(items@, news_id),
        },
{
    let mut i: usize = 0;
    while i < items.len()
        invariant
            i <= items@.len(),
            forall|k: int| 0 <= k < i ==> (#[trigger] items@[k]).id != news_id,
        decreases items@.len() - i,
    {
        if items[i].id == news_id {
            return Some(i);
        }
        i += 1;
    }
    None
}

/// Index of the verification recorded for `news_id`, if any.
fn find_state(states: &Vec<Verification>, news_id: Bytes32) -> (r: Option<usize>)
    ensures
        match r {
            Some(i) => i < states@.len() && states@[i as int].news_id == news_id,
            None => !has_state(states@, news_id),
        },
{
    let mut i: usize = 0;
    while i < states.len()
        invariant
            i <= states@.len(),
            forall|k: int| 0 <= k < i ==> (#[trigger] states@[k]).news_id != news_id,
        decreases states@.len() - i,
    {
        if states[i].news_id == news_id {
            return Some(i);
        }
        i += 1;
    }
    None
}

/// With unique recorded identifiers, any index holding `news_id`'s
/// verification is the one `state_index` denotes.
proof fn lemma_state_index_unique(states: Seq<Verification>, news_id: Bytes32, j: int)
    requires
        forall|x: int, y: int|
            0 <= x < y < states.len() ==> (#[trigger] states[x]).news_id != (
            #[trigger] states[y]).news_id,
        0 <= j < states.len(),
        states[j].news_id == news_id,
    ensures
        has_state(states, news_id),
        state_index(states, news_id) == j,
{
    assert(has_state(states, news_id)) by {
        assert(0 <= j < states.len() && states[j].news_id == news_id);
    }
    let i = state_index(states, news_id);
    assert(0 <= i < states.len() && states[i].news_id == news_id);
    if i < j {
        assert(states[i].news_id != states[j].news_id);
    } else if j < i {
        assert(states[j].news_id != states[i].news_id);
    }
}

/// Linear scan for an identity.
fn contains_identity(addresses: &Vec<Address>, needle: Address) -> (r: bool)
    ensures
        r == addresses@.contains(needle),
{
    let mut i: usize = 0;
    while i < addresses.len()
        invariant
            i <= addresses@.len(),
            forall|k: int| 0 <= k < i ==> addresses@[k] != needle,
        decreases addresses@.len() - i,
    {
        if addresses[i] == needle {
            proof {
                assert(addresses@[i as int] == needle);
            }
            return true;
        }
        i += 1;
    }
    false
}

impl TrueLensContract {
    /// Whether `initialize` has run.
    pub open spec fn is_initialized(self) -> bool {
        self.owner is Some
    }

    /// The state invariant every operation preserves: one recorded
    /// verification per news item, no repeated verifier, non-negative
    /// stake tallies, and an uninitialized contract empty.
    pub open spec fn wf(self) -> bool {
        &&& forall|i: int, j: int|
            0 <= i < j < self.verification_states@.len()
                ==> (#[trigger] self.verification_states@[i]).news_id != (
            #[trigger] self.verification_states@[j]).news_id
        &&& self.verifiers@.no_duplicates()
        &&& forall|i: int|
            0 <= i < self.news_items@.len() ==> (#[trigger] self.news_items@[i]).total_stake >= 0
        &&& !self.is_initialized() ==> {
            &&& self.news_items@.len() == 0
            &&& self.verification_states@.len() == 0
            &&& self.verifiers@.len() == 0
        }
    }

    /// A fresh, uninitialized contract.
    pub fn new() -> (c: TrueLensContract)
        ensures
            c.wf(),
            !c.is_initialized(),
    {
        TrueLensContract {
            owner: None,
            news_items: Vec::new(),
            verification_states: Vec::new(),
            verifiers: Vec::new(),
        }
    }

    /// Installs the owner.  Fails, changing nothing, when the contract
    /// was already initialized.
    pub fn initialize(&mut self, owner: Address) -> (r: Result<(), PlatformError>)
        requires
            old(self).wf(),
        ensures
            final(self).wf(),
            r == (if old(self).is_initialized() {
                Err::<(), PlatformError>(PlatformError::AlreadyInitialized)
            } else {
                Ok::<(), PlatformError>(())
            }),
            r is Err ==> *final(self) == *old(self),
            r is Ok ==> {
                &&& final(self).owner == Some(owner)
                &&& final(self).news_items@.len() == 0
                &&& final(self).verification_states@.len() == 0
                &&& final(self).verifiers@.len() == 0
            },
    {
        match self.owner {
            Some(_) => Err(PlatformError::AlreadyInitialized),
            None => {
                self.owner = Some(owner);
                Ok(())
            },
        }
    }

    /// Registers a news item under `id` — an identifier the host drew
    /// for this submission — with zeroed tallies and `now` as its
    /// timestamp, and returns the identifier.
    pub fn submit_news(
        &mut self,
        _submitter: Address,
        id: Bytes32,
        title: Symbol,
        content_hash: Bytes32,
        source: Symbol,
        now: u64,
    ) -> (r: Result<Bytes32, PlatformError>)
        requires
            old(self).wf(),
        ensures
            final(self).wf(),
            r == (if old(self).is_initialized() {
                Ok::<Bytes32, PlatformError>(id)
            } else {
                Err::<Bytes32, PlatformError>(PlatformError::NotInitialized)
            }),
            r is Err ==> *final(self) == *old(self),
            r is Ok ==> {
                &&& final(self).news_items@ == old(self).news_items@.push(
                    NewsItem {
                        id,
                        title,
                        content_hash,
                        source,
                        timestamp: now,
                        verified_count: 0,
                        flagged_count: 0,
                        total_stake: 0,
                    },
                )
                &&& final(self).owner == old(self).owner
                &&& final(self).verification_states@ == old(self).verification_states@
                &&& final(self).verifiers@ == old(self).verifiers@
            },
    {
        match self.owner {
            None => Err(PlatformError::NotInitialized),
            Some(_) => {
                let item = NewsItem {
                    id,
                    title,
                    content_hash,
                    source,
                    timestamp: now,
                    verified_count: 0,
                    flagged_count: 0,
                    total_stake: 0,
                };
                self.news_items.push(item);
                Ok(id)
            },
        }
    }

    /// Records `verifier`'s vote on the item registered first under
    /// `news_id`: bumps the matching tally, adds the stake, stores the
    /// vote as the item's latest verification, and remembers the
    /// verifier.  A rejected call changes nothing.
    pub fn verify_news(
        &mut self,
        verifier: Address,
        news_id: Bytes32,
        status: VerificationStatus,
        stake_amount: i128,
        now: u64,
    ) -> (r: Result<(), PlatformError>)
        requires
            old(self).wf(),
            // headroom so one more vote cannot overflow any tally
            stats_headroom(old(self).news_items@, stake_amount),
        ensures
            final(self).wf(),
            r is Err ==> *final(self) == *old(self),
            r == (if stake_amount <= 0 {
                Err::<(), PlatformError>(PlatformError::InvalidAmount)
            } else if !old(self).is_initialized() {
                Err::<(), PlatformError>(PlatformError::NotInitialized)
            } else if !has_news(old(self).news_items@, news_id) {
                Err::<(), PlatformError>(PlatformError::NotFound)
            } else {
                Ok::<(), PlatformError>(())
            }),
            r is Ok ==> exists|i: int|
                {
                    &&& 0 <= i < old(self).news_items@.len()
                    &&& (#[trigger] old(self).news_items@[i]).id == news_id
                    &&& forall|k: int| 0 <= k < i ==> old(self).news_items@[k].id != news_id
                    &&& final(self).news_items@ == old(self).news_items@.update(
                        i,
                        voted(old(self).news_items@[i], status, stake_amount),
                    )
                },
            r is Ok ==> {
                let v = Verification { verifier, news_id, status, stake_amount, timestamp: now };
                &&& (if has_state(old(self).verification_states@, news_id) {
                    final(self).verification_states@ == old(self).verification_states@.update(
                        state_index(old(self).verification_states@, news_id),
                        v,
                    )
                } else {
                    final(self).verification_states@ == old(self).verification_states@.push(v)
                })
                &&& (if old(self).verifiers@.contains(verifier) {
                    final(self).verifiers@ == old(self).verifiers@
                } else {
                    final(self).verifiers@ == old(self).verifiers@.push(verifier)
                })
                &&& final(self).owner == old(self).owner
            },
    {
        if stake_amount <= 0 {
            return Err(PlatformError::InvalidAmount);
        }
        let initialized = match self.owner {
            Some(_) => true,
            None => false,
        };
        if !initialized {
            return Err(PlatformError::NotInitialized);
        }
        let i = match find_news(&self.news_items, news_id) {
            None => {
                return Err(PlatformError::NotFound);
            },
            Some(i) => i,
        };
        let item = &mut self.news_items[i];
        match status {
            VerificationStatus::Verified => {
                item.verified_count = item.verified_count + 1;
            },
            VerificationStatus::Flagged => {
                item.flagged_count = item.flagged_count + 1;
            },
        }
        item.total_stake = item.total_stake + stake_amount;
        let v = Verification { verifier, news_id, status, stake_amount, timestamp: now };
        match find_state(&self.verification_states, news_id) {
            Some(s) => {
                proof {
                    lemma_state_index_unique(self.verification_states@, news_id, s as int);
                }
                let slot = &mut self.verification_states[s];
                *slot = v;
            },
            None => {
                self.verification_states.push(v);
            },
        }
        if !contains_identity(&self.verifiers, verifier) {
            let ghost before = self.verifiers@;
            self.verifiers.push(verifier);
            proof {
                let post = self.verifiers@;
                assert(post.no_duplicates()) by {
                    assert forall|p: int, q: int|
                        0 <= p < post.len() && 0 <= q < post.len() && p != q implies post[p]
                        != post[q] by {
                        if p < post.len() - 1 && q == post.len() - 1 {
                            if before[p] == verifier {
                                assert(before.contains(verifier));
                            }
                        } else if q < post.len() - 1 && p == post.len() - 1 {
                            if before[q] == verifier {
                                assert(before.contains(verifier));
                            }
                        }
                    }
                }
            }
        }
        Ok(())
    }

    /// The first item registered under `news_id`.
    pub fn get_news_info(&self, news_id: Bytes32) -> (r: Option<NewsItem>)
        ensures
            r is Some <==> has_news(self.news_items@, news_id),
            r matches Some(item) ==> exists|i: int|
                {
                    &&& 0 <= i < self.news_items@.len()
                    &&& (#[trigger] self.news_items@[i]).id == news_id
                    &&& forall|k: int| 0 <= k < i ==> self.news_items@[k].id != news_id
                    &&& item == self.news_items@[i]
                },
    {
        match find_news(&self.news_items, news_id) {
            Some(i) => Some(self.news_items[i]),
            None => None,
        }
    }

    /// All registered items, in submission order, once initialized.
    pub fn get_all_news(&self) -> (r: Option<&Vec<NewsItem>>)
        ensures
            match r {
                Some(v) => self.is_initialized() && v@ == self.news_items@,
                None => !self.is_initialized(),
            },
    {
        match self.owner {
            Some(_) => Some(&self.news_items),
            None => None,
        }
    }

    /// The latest verification recorded for `news_id`, provided it was
    /// cast by `verifier`; `None` otherwise.
    pub fn get_verification(&self, news_id: Bytes32, verifier: Address) -> (r: Option<
        Verification,
    >)
        requires
            self.wf(),
        ensures
            r == (if has_state(self.verification_states@, news_id) && self.verification_states@[
                state_index(self.verification_states@, news_id)
            ].verifier == verifier {
                Some(self.verification_states@[state_index(self.verification_states@, news_id)])
            } else {
                None::<Verification>
            }),
    {
        match find_state(&self.verification_states, news_id) {
            Some(i) => {
                proof {
                    lemma_state_index_unique(self.verification_states@, news_id, i as int);
                }
                let v = self.verification_states[i];
                if v.verifier == verifier {
                    Some(v)
                } else {
                    None
                }
            },
            None => None,
        }
    }

    /// The percentage of votes that marked the item verified, 0 to 100;
    /// 0 while nobody voted on it.
    pub fn get_consensus(&self, news_id: Bytes32) -> (r: Option<u32>)
        ensures
            r is Some <==> has_news(self.news_items@, news_id),
            r matches Some(pct) ==> exists|i: int|
                {
                    &&& 0 <= i < self.news_items@.len()
                    &&& (#[trigger] self.news_items@[i]).id == news_id
                    &&& forall|k: int| 0 <= k < i ==> self.news_items@[k].id != news_id
                    &&& pct == item_consensus(self.news_items@[i])
                    &&& pct <= 100
                },
    {
        let item = match self.get_news_info(news_id) {
            Some(item) => item,
            None => {
                return None;
            },
        };
        let total_votes = item.verified_count as u64 + item.flagged_count as u64;
        if total_votes == 0 {
            return Some(0);
        }
        let pct = (item.verified_count as u64) * 100 / total_votes;
        proof {
            assert((item.verified_count as int) * 100 / (item.verified_count
                + item.flagged_count) <= 100) by (nonlinear_arith)
                requires
                    0 < item.verified_count + item.flagged_count,
                    0 <= item.verified_count <= item.verified_count + item.flagged_count,
            ;
        }
        Some(pct as u32)
    }

    /// Settles the rewards for a closed item.  The reward rules live
    /// with the token collaborator; this build records nothing, so the
    /// call succeeds without further effect.
    pub fn distribute_rewards(&self, _admin: Address, _news_id: Bytes32) -> (r: Result<
        (),
        PlatformError,
    >)
        ensures
            r is Ok,
    {
        Ok(())
    }
}

} // verus!
