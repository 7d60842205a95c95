//! User profiles, reputation and levels.
//!
//! One record per user bundles the profile, the verification history,
//! the reputation score and the level — four facets the contract keeps
//! in step: the admin records each verification outcome, which bumps
//! the counters, recomputes the accuracy, adjusts the reputation and
//! may raise the level.  Levels never drop.

use vstd::pervasive::unreached;
use vstd::prelude::*;

use crate::{Address, Bytes32, Symbol};

verus! {

/// A user's public profile.
#[derive(Clone, Copy, Debug, PartialEq, Eq, Structural)]
pub struct UserProfile {
    pub address: Address,
    pub username: Symbol,
    pub bio: Symbol,
    pub join_timestamp: u64,
    /// How many verifications were recorded for this user.
    pub verification_count: u32,
    /// Share of recorded verifications that matched consensus, 0-100.
    pub accuracy_percentage: u32,
    /// Total rewards credited over all recorded verifications.
    pub rewards_earned: i128,
    /// The user's level, 1 to 5; it never decreases.
    pub level: u32,
}

/// One recorded verification outcome.
#[derive(Clone, Copy, Debug, PartialEq, Eq, Structural)]
pub struct VerificationRecord {
    pub news_id: Bytes32,
    /// The verdict the user cast, as interned text.
    pub verdict: Symbol,
    pub stake_amount: i128,
    pub timestamp: u64,
    /// Whether the verdict matched the eventual consensus.
    pub consensus_match: bool,
    pub reward_amount: i128,
}

/// Everything the contract keeps about one user.
#[derive(Debug, PartialEq, Eq)]
pub struct UserEntry {
    pub profile: UserProfile,
    /// Recorded verifications, oldest first.
    pub history: Vec<VerificationRecord>,
    /// Reputation score, 1 to 1000; starts at the neutral 100.
    pub reputation: u32,
    /// The level, mirrored in the profile.
    pub level: u32,
}

/// Everything that can go wrong in a profile call.
#[derive(Clone, Copy, Debug, PartialEq, Eq, Structural)]
pub enum ProfileError {
    /// The contract already has an admin.
    AlreadyInitialized,
    /// The contract has not been initialized yet.
    NotInitialized,
    /// The caller is not the admin.
    NotAuthorized,
    /// The user already has a profile.
    AlreadyExists,
    /// The user has no profile.
    NotFound,
}

/// The profile contract's state.
pub struct UserProfileContract {
    /// The admin; `None` until `initialize` has run.
    pub admin: Option<Address>,
    /// One entry per user, in profile-creation order.
    pub users: Vec<UserEntry>,
}

/// Whether some entry belongs to `user`.
pub open spec fn has_user(users: Seq<UserEntry>, user: Address) -> bool {
    exists|i: int| 0 <= i < users.len() && users[i].profile.address == user
}

/// The index of `user`'s entry; meaningful when `has_user` holds,
/// since addresses are unique.
pub open spec fn user_index(users: Seq<UserEntry>, user: Address) -> int {
    choose|i: int| 0 <= i < users.len() && users[i].profile.address == user
}

/// How many records in `h` matched consensus.
pub open spec fn match_count(h: Seq<VerificationRecord>) -> nat
    decreases h.len(),
{
    if h.len() == 0 {
        0
    } else {
        match_count(h.drop_last()) + (if h.last().consensus_match {
            1nat
        } else {
            0nat
        })
    }
}

/// The accuracy a history earns: the percentage of its records that
/// matched consensus; 0 for an empty history.
pub open spec fn accuracy_of(h: Seq<VerificationRecord>) -> int {
    if h.len() == 0 {
        0
    } else {
        (match_count(h) as int) * 100 / (h.len() as int)
    }
}

/// The reputation after one more outcome: a match earns 20 points up
/// to the cap of 1000, a mismatch costs 30 down to the floor of 1.
pub open spec fn next_reputation(reputation: u32, consensus_match: bool) -> u32 {
    if consensus_match {
        if reputation < 980 {
            (reputation + 20) as u32
        } else {
            1000u32
        }
    } else {
        if reputation > 30 {
            (reputation - 30) as u32
        } else {
            1u32
        }
    }
}

/// The level the raw statistics earn, before the no-drop rule.
pub open spec fn level_for(verification_count: u32, accuracy: u32, reputation: u32) -> u32 {
    if verification_count >= 100 && accuracy >= 90 && reputation >= 900 {
        5u32
    } else if verification_count >= 50 && accuracy >= 80 && reputation >= 800 {
        4u32
    } else if verification_count >= 25 && accuracy >= 70 && reputation >= 700 {
        3u32
    } else if verification_count >= 10 && accuracy >= 60 && reputation >= 600 {
        2u32
    } else {
        1u32
    }
}

/// `user`'s reputation as the contract reports it: the stored score,
/// or 0 for a user without an entry.
pub open spec fn reputation_of(users: Seq<UserEntry>, user: Address) -> u32 {
    if has_user(users, user) {
        users[user_index(users, user)].reputation
    } else {
        0u32
    }
}

/// A history cannot match consensus more often than it has records.
proof fn lemma_match_count_le_len(h: Seq<VerificationRecord>)
    ensures
        match_count(h) <= h.len(),
    decreases h.len(),
{
    if h.len() > 0 {
        lemma_match_count_le_len(h.drop_last());
    }
}

/// With unique addresses, any index holding `user`'s entry is the one
/// `user_index` denotes.
proof fn lemma_user_index_unique(users: Seq<UserEntry>, user: Address, j: int)
    requires
        forall|x: int, y: int|
            0 <= x < y < users.len() ==> (#[trigger] users[x]).profile.address != (
            #[trigger] users[y]).profile.address,
        0 <= j < users.len(),
        users[j].profile.address == user,
    ensures
        has_user(users, user),
        user_index(users, user) == j,
{
    assert(has_user(users, user)) by {
        assert(0 <= j < users.len() && users[j].profile.address == user);
    }
    let i = user_index(users, user);
    assert(0 <= i < users.len() && users[i].profile.address == user);
    if i < j {
        assert(users[i].profile.address != users[j].profile.address);
    } else if j < i {
        assert(users[j].profile.address != users[i].profile.address);
    }
}

/// Counts the records that matched consensus.
fn count_matches(h: &Vec<VerificationRecord>) -> (r: usize)
    ensures
        r == match_count(h@),
{
    let mut count: usize = 0;
    let mut i: usize = 0;
    while i < h.len()
        invariant
            i <= h@.len(),
            count <= i,
            count == match_count(h@.subrange(0, i as int)),
        decreases h@.len() - i,
    {
        proof {
            let pre = h@.subrange(0, i as int);
            let cur = h@.subrange(0, i as int + 1);
            assert(cur.drop_last() =~= pre);
            assert(cur.last() == h@[i as int]);
        }
        if h[i].consensus_match {
            count += 1;
        }
        i += 1;
    }
    proof {
        assert(h@.subrange(0, h@.len() as int) =~= h@);
    }
    count
}

/// The level the raw statistics earn.
fn compute_level(verification_count: u32, accuracy: u32, reputation: u32) -> (r: u32)
    ensures
        r == level_for(verification_count, accuracy, reputation),
{
    if verification_count >= 100 && accuracy >= 90 && reputation >= 900 {
        5
    } else if verification_count >= 50 && accuracy >= 80 && reputation >= 800 {
        4
    } else if verification_count >= 25 && accuracy >= 70 && reputation >= 700 {
        3
    } else if verification_count >= 10 && accuracy >= 60 && reputation >= 600 {
        2
    } else {
        1
    }
}

/// First index holding `user`'s entry, if any.
fn find_user(users: &Vec<UserEntry>, user: Address) -> (r: Option<usize>)
    ensures
        match r {
            Some(i) => i < users@.len() && users@[i as int].profile.address == user,
            None => !has_user(users@, user),
        },
{
    let mut i: usize = 0;
    while i < users.len()
        invariant
            i <= users@.len(),
            forall|k: int| 0 <= k < i ==> (#[trigger] users@[k]).profile.address != user,
        decreases users@.len() - i,
    {
        if users[i].profile.address == user {
            return Some(i);
        }
        i += 1;
    }
    None
}

impl UserProfileContract {
    /// Whether `initialize` has run.
    pub open spec fn is_initialized(self) -> bool {
        self.admin is Some
    }

    /// The state invariant every operation preserves: one entry per
    /// address, the verification counter equal to the history's
    /// length, and an uninitialized contract empty.
    pub open spec fn wf(self) -> bool {
        &&& forall|i: int, j: int|
            0 <= i < j < self.users@.len() ==> (#[trigger] self.users@[i]).profile.address != (
            #[trigger] self.users@[j]).profile.address
        &&& forall|i: int|
            0 <= i < self.users@.len() ==> (#[trigger] self.users@[i]).profile.verification_count
                == self.users@[i].history@.len()
        &&& !self.is_initialized() ==> self.users@.len() == 0
    }

    /// A fresh, uninitialized contract.
    pub fn new() -> (c: UserProfileContract)
        ensures
            c.wf(),
            !c.is_initialized(),
    {
        UserProfileContract { admin: None, users: Vec::new() }
    }

    /// Installs the admin.  Fails, changing nothing, when the contract
    /// was already initialized.
    pub fn initialize(&mut self, admin: Address) -> (r: Result<(), ProfileError>)
        requires
            old(self).wf(),
        ensures
            final(self).wf(),
            r == (if old(self).is_initialized() {
                Err::<(), ProfileError>(ProfileError::AlreadyInitialized)
            } else {
                Ok::<(), ProfileError>(())
            }),
            r is Err ==> *final(self) == *old(self),
            r is Ok ==> final(self).admin == Some(admin) && final(self).users@.len() == 0,
    {
        match self.admin {
            Some(_) => Err(ProfileError::AlreadyInitialized),
            None => {
                self.admin = Some(admin);
                Ok(())
            },
        }
    }

    /// Opens a profile for `user` named `username`, joining at `now`,
    /// with an empty bio — the embedder interns the empty text at
    /// handle 0 — an empty history, level 1 and the neutral reputation
    /// of 100.  Each user gets at most one profile.
    pub fn create_profile(&mut self, user: Address, username: Symbol, now: u64) -> (r: Result<
        (),
        ProfileError,
    >)
        requires
            old(self).wf(),
        ensures
            final(self).wf(),
            r is Err ==> *final(self) == *old(self),
            r == (if !old(self).is_initialized() {
                Err::<(), ProfileError>(ProfileError::NotInitialized)
            } else if has_user(old(self).users@, user) {
                Err::<(), ProfileError>(ProfileError::AlreadyExists)
            } else {
                Ok::<(), ProfileError>(())
            }),
            r is Ok ==> {
                &&& final(self).users@.len() == old(self).users@.len() + 1
                &&& forall|i: int|
                    0 <= i < old(self).users@.len() ==> final(self).users@[i] == old(
                        self,
                    ).users@[i]
                &&& {
                    let e = final(self).users@.last();
                    &&& e.profile.address == user
                    &&& e.profile.username == username
                    &&& e.profile.bio == Symbol(0)
                    &&& e.profile.join_timestamp == now
                    &&& e.profile.verification_count == 0
                    &&& e.profile.accuracy_percentage == 0
                    &&& e.profile.rewards_earned == 0
                    &&& e.profile.level == 1
                    &&& e.history@.len() == 0
                    &&& e.reputation == 100
                    &&& e.level == 1
                }
                &&& final(self).admin == old(self).admin
            },
    {
        let initialized = match self.admin {
            Some(_) => true,
            None => false,
        };
        if !initialized {
            return Err(ProfileError::NotInitialized);
        }
        match find_user(&self.users, user) {
            Some(_) => Err(ProfileError::AlreadyExists),
            None => {
                let profile = UserProfile {
                    address: user,
                    username,
                    bio: Symbol(0),
                    join_timestamp: now,
                    verification_count: 0,
                    accuracy_percentage: 0,
                    rewards_earned: 0,
                    level: 1,
                };
                let entry = UserEntry { profile, history: Vec::new(), reputation: 100, level: 1 };
                self.users.push(entry);
                Ok(())
            },
        }
    }

    /// Replaces the username and the bio where new values are given;
    /// an absent value leaves the field alone.
    pub fn update_profile(
        &mut self,
        user: Address,
        username: Option<Symbol>,
        bio: Option<Symbol>,
    ) -> (r: Result<(), ProfileError>)
        requires
            old(self).wf(),
        ensures
            final(self).wf(),
            r is Err ==> *final(self) == *old(self),
            r == (if !old(self).is_initialized() {
                Err::<(), ProfileError>(ProfileError::NotInitialized)
            } else if !has_user(old(self).users@, user) {
                Err::<(), ProfileError>(ProfileError::NotFound)
            } else {
                Ok::<(), ProfileError>(())
            }),
            r is Ok ==> ({
                let i = user_index(old(self).users@, user);
                let e = old(self).users@[i];
                &&& final(self).users@.len() == old(self).users@.len()
                &&& forall|k: int|
                    0 <= k < old(self).users@.len() && k != i ==> final(self).users@[k] == old(
                        self,
                    ).users@[k]
                &&& final(self).users@[i].profile.username == (match username {
                    Some(u) => u,
                    None => e.profile.username,
                })
                &&& final(self).users@[i].profile.bio == (match bio {
                    Some(b) => b,
                    None => e.profile.bio,
                })
                &&& final(self).users@[i].profile.address == e.profile.address
                &&& final(self).users@[i].profile.join_timestamp == e.profile.join_timestamp
                &&& final(self).users@[i].profile.verification_count
                    == e.profile.verification_count
                &&& final(self).users@[i].profile.accuracy_percentage
                    == e.profile.accuracy_percentage
                &&& final(self).users@[i].profile.rewards_earned == e.profile.rewards_earned
                &&& final(self).users@[i].profile.level == e.profile.level
                &&& final(self).users@[i].history@ == e.history@
                &&& final(self).users@[i].reputation == e.reputation
                &&& final(self).users@[i].level == e.level
                &&& final(self).admin == old(self).admin
            }),
    {
        let initialized = match self.admin {
            Some(_) => true,
            None => false,
        };
        if !initialized {
            return Err(ProfileError::NotInitialized);
        }
        match find_user(&self.users, user) {
            None => Err(ProfileError::NotFound),
            Some(i) => {
                proof {
                    lemma_user_index_unique(self.users@, user, i as int);
                }
                let entry = &mut self.users[i];
                match username {
                    Some(new_username) => {
                        entry.profile.username = new_username;
                    },
                    None => {},
                }
                match bio {
                    Some(new_bio) => {
                        entry.profile.bio = new_bio;
                    },
                    None => {},
                }
                Ok(())
            },
        }
    }

    /// Adjusts `user`'s reputation after one more outcome, touching
    /// nothing else.
    fn update_reputation(&mut self, i: usize, consensus_match: bool)
        requires
            old(self).wf(),
            i < old(self).users@.len(),
        ensures
            final(self).wf(),
            final(self).users@.len() == old(self).users@.len(),
            forall|k: int|
                0 <= k < old(self).users@.len() && k != i ==> final(self).users@[k] == old(
                    self,
                ).users@[k],
            final(self).users@[i as int].reputation == next_reputation(
                old(self).users@[i as int].reputation,
                consensus_match,
            ),
            final(self).users@[i as int].profile == old(self).users@[i as int].profile,
            final(self).users@[i as int].history@ == old(self).users@[i as int].history@,
            final(self).users@[i as int].level == old(self).users@[i as int].level,
            final(self).admin == old(self).admin,
    {
        let entry = &mut self.users[i];
        let current = entry.reputation;
        let updated = if consensus_match {
            if current < 980 {
                current + 20
            } else {
                1000
            }
        } else {
            if current > 30 {
                current - 30
            } else {
                1
            }
        };
        entry.reputation = updated;
    }

    /// Raises `user`'s level when the statistics now earn a higher
    /// one; the level never drops.
    fn check_level_up(&mut self, i: usize)
        requires
            old(self).wf(),
            i < old(self).users@.len(),
        ensures
            final(self).wf(),
            final(self).users@.len() == old(self).users@.len(),
            forall|k: int|
                0 <= k < old(self).users@.len() && k != i ==> final(self).users@[k] == old(
                    self,
                ).users@[k],
            ({
                let e = old(self).users@[i as int];
                let earned = level_for(
                    e.profile.verification_count,
                    e.profile.accuracy_percentage,
                    e.reputation,
                );
                let f = final(self).users@[i as int];
                &&& f.level == (if earned > e.level {
                    earned
                } else {
                    e.level
                })
                &&& f.profile.level == (if earned > e.level {
                    earned
                } else {
                    e.profile.level
                })
                &&& f.profile.address == e.profile.address
                &&& f.profile.username == e.profile.username
                &&& f.profile.bio == e.profile.bio
                &&& f.profile.join_timestamp == e.profile.join_timestamp
                &&& f.profile.verification_count == e.profile.verification_count
                &&& f.profile.accuracy_percentage == e.profile.accuracy_percentage
                &&& f.profile.rewards_earned == e.profile.rewards_earned
                &&& f.history@ == e.history@
                &&& f.reputation == e.reputation
            }),
            final(self).admin == old(self).admin,
    {
        let entry = &mut self.users[i];
        let new_level = compute_level(
            entry.profile.verification_count,
            entry.profile.accuracy_percentage,
            entry.reputation,
        );
        if new_level > entry.level {
            entry.level = new_level;
            entry.profile.level = new_level;
        }
    }

    /// Records a verification outcome for `user`: appends the record,
    /// bumps the counter, credits the reward, recomputes the accuracy
    /// over the whole history, adjusts the reputation, and raises the
    /// level when the new statistics earn it.  Only the admin may
    /// record, and only for a user with a profile; a rejected call
    /// changes nothing.
    pub fn record_verification(
        &mut self,
        admin: Address,
        user: Address,
        news_id: Bytes32,
        verdict: Symbol,
        stake_amount: i128,
        consensus_match: bool,
        reward_amount: i128,
        now: u64,
    ) -> (r: Result<(), ProfileError>)
        requires
            old(self).wf(),
            // headroom so one more record cannot overflow any counter
            forall|i: int|
                0 <= i < old(self).users@.len() ==> {
                    &&& (#[trigger] old(self).users@[i]).profile.verification_count < u32::MAX
                    &&& old(self).users@[i].profile.rewards_earned + reward_amount <= i128::MAX
                    &&& old(self).users@[i].profile.rewards_earned + reward_amount >= i128::MIN
                },
        ensures
            final(self).wf(),
            r is Err ==> *final(self) == *old(self),
            r == (if !old(self).is_initialized() {
                Err::<(), ProfileError>(ProfileError::NotInitialized)
            } else if old(self).admin != Some(admin) {
                Err::<(), ProfileError>(ProfileError::NotAuthorized)
            } else if !has_user(old(self).users@, user) {
                Err::<(), ProfileError>(ProfileError::NotFound)
            } else {
                Ok::<(), ProfileError>(())
            }),
            r is Ok ==> ({
                let i = user_index(old(self).users@, user);
                let e = old(self).users@[i];
                let h2 = e.history@.push(
                    VerificationRecord {
                        news_id,
                        verdict,
                        stake_amount,
                        timestamp: now,
                        consensus_match,
                        reward_amount,
                    },
                );
                let rep2 = next_reputation(e.reputation, consensus_match);
                let earned = level_for(
                    (e.profile.verification_count + 1) as u32,
                    accuracy_of(h2) as u32,
                    rep2,
                );
                let f = final(self).users@[i];
                &&& final(self).users@.len() == old(self).users@.len()
                &&& forall|k: int|
                    0 <= k < old(self).users@.len() && k != i ==> final(self).users@[k] == old(
                        self,
                    ).users@[k]
                &&& f.history@ == h2
                &&& f.reputation == rep2
                &&& f.level == (if earned > e.level {
                    earned
                } else {
                    e.level
                })
                &&& f.profile.verification_count == e.profile.verification_count + 1
                &&& f.profile.rewards_earned == e.profile.rewards_earned + reward_amount
                &&& f.profile.accuracy_percentage == accuracy_of(h2)
                &&& f.profile.level == (if earned > e.level {
                    earned
                } else {
                    e.profile.level
                })
                &&& f.profile.address == e.profile.address
                &&& f.profile.username == e.profile.username
                &&& f.profile.bio == e.profile.bio
                &&& f.profile.join_timestamp == e.profile.join_timestamp
                &&& final(self).admin == old(self).admin
            }),
    {
        let authorized = match self.admin {
            Some(a) => a == admin,
            None => return Err(ProfileError::NotInitialized),
        };
        if !authorized {
            return Err(ProfileError::NotAuthorized);
        }
        let i = match find_user(&self.users, user) {
            None => {
                return Err(ProfileError::NotFound);
            },
            Some(i) => i,
        };
        proof {
            lemma_user_index_unique(self.users@, user, i as int);
        }
        let record = VerificationRecord {
            news_id,
            verdict,
            stake_amount,
            timestamp: now,
            consensus_match,
            reward_amount,
        };
        let ghost old_history = self.users@[i as int].history@;
        let entry = &mut self.users[i];
        entry.history.push(record);
        proof {
            assert(entry.history@.drop_last() =~= old_history);
        }
        entry.profile.verification_count = entry.profile.verification_count + 1;
        entry.profile.rewards_earned = entry.profile.rewards_earned + reward_amount;
        let accurate = count_matches(&entry.history);
        let total = entry.history.len();
        let accuracy = ((accurate as u128) * 100 / (total as u128)) as u32;
        proof {
            lemma_match_count_le_len(entry.history@);
            assert((match_count(entry.history@) as int) * 100 / (entry.history@.len() as int)
                <= 100) by (nonlinear_arith)
                requires
                    0 < entry.history@.len(),
                    0 <= match_count(entry.history@) <= entry.history@.len(),
            ;
        }
        entry.profile.accuracy_percentage = accuracy;
        self.update_reputation(i, consensus_match);
        self.check_level_up(i);
        Ok(())
    }

    /// The profile of `user`, if one exists.
    pub fn get_profile(&self, user: Address) -> (r: Option<UserProfile>)
        requires
            self.wf(),
        ensures
            r == (if has_user(self.users@, user) {
                Some(self.users@[user_index(self.users@, user)].profile)
            } else {
                None::<UserProfile>
            }),
    {
        match find_user(&self.users, user) {
            Some(i) => {
                proof {
                    lemma_user_index_unique(self.users@, user, i as int);
                }
                Some(self.users[i].profile)
            },
            None => None,
        }
    }

    /// The recorded verifications of `user`, oldest first; empty for a
    /// user without an entry.
    pub fn get_verification_history(&self, user: Address) -> (r: Vec<VerificationRecord>)
        requires
            self.wf(),
        ensures
            r@ == (if has_user(self.users@, user) {
                self.users@[user_index(self.users@, user)].history@
            } else {
                Seq::<VerificationRecord>::empty()
            }),
    {
        match find_user(&self.users, user) {
            Some(i) => {
                proof {
                    lemma_user_index_unique(self.users@, user, i as int);
                }
                let src = &self.users[i].history;
                let mut out: Vec<VerificationRecord> = Vec::new();
                let mut k: usize = 0;
                while k < src.len()
                    invariant
                        k <= src@.len(),
                        out@ == src@.subrange(0, k as int),
                    decreases src@.len() - k,
                {
                    out.push(src[k]);
                    proof {
                        assert(out@ =~= src@.subrange(0, k as int + 1));
                    }
                    k += 1;
                }
                proof {
                    assert(src@.subrange(0, src@.len() as int) =~= src@);
                }
                out
            },
            None => Vec::new(),
        }
    }

    /// The reputation of `user`; 0 for a user without an entry.
    pub fn get_reputation(&self, user: Address) -> (r: u32)
        requires
            self.wf(),
        ensures
            r == reputation_of(self.users@, user),
    {
        match find_user(&self.users, user) {
            Some(i) => {
                proof {
                    lemma_user_index_unique(self.users@, user, i as int);
                }
                self.users[i].reputation
            },
            None => 0,
        }
    }

    /// The level of `user`; the base level 1 for a user without an
    /// entry.
    pub fn get_level(&self, user: Address) -> (r: u32)
        requires
            self.wf(),
        ensures
            r == (if has_user(self.users@, user) {
                self.users@[user_index(self.users@, user)].level
            } else {
                1u32
            }),
    {
        match find_user(&self.users, user) {
            Some(i) => {
                proof {
                    lemma_user_index_unique(self.users@, user, i as int);
                }
                self.users[i].level
            },
            None => 1,
        }
    }

    /// At most `limit` profiles, drawn from the stored users without
    /// repetition, in non-increasing order of reputation; as many as
    /// there are users when `limit` exceeds their number.
    pub fn get_top_users(&self, limit: u32) -> (r: Vec<UserProfile>)
        requires
            self.wf(),
        ensures
            r@.len() == (if (limit as int) <= self.users@.len() {
                limit as int
            } else {
                self.users@.len() as int
            }),
            forall|p: int|
                0 <= p < r@.len() ==> {
                    &&& has_user(self.users@, (#[trigger] r@[p]).address)
                    &&& r@[p] == self.users@[user_index(self.users@, r@[p].address)].profile
                },
            forall|p: int, q: int|
                0 <= p < q < r@.len() ==> (#[trigger] r@[p]).address != (#[trigger] r@[q]).address,
            forall|p: int, q: int|
                0 <= p < q < r@.len() ==> reputation_of(self.users@, (#[trigger] r@[p]).address)
                    >= reputation_of(self.users@, (#[trigger] r@[q]).address),
    {
        let n = self.users.len();
        let target: usize = if (limit as usize) <= n {
            limit as usize
        } else {
            n
        };
        let mut remaining: Vec<(Address, u32)> = Vec::new();
        let mut i: usize = 0;
        while i < n
            invariant
                self.wf(),
                n == self.users@.len(),
                i <= n,
                remaining@.len() == i,
                forall|k: int|
                    0 <= k < i ==> (#[trigger] remaining@[k]).0 == self.users@[k].profile.address
                        && remaining@[k].1 == self.users@[k].reputation,
            decreases n - i,
        {
            remaining.push((self.users[i].profile.address, self.users[i].reputation));
            i += 1;
        }
        proof {
            assert forall|k: int| 0 <= k < remaining@.len() implies has_user(
                self.users@,
                (#[trigger] remaining@[k]).0,
            ) && remaining@[k].1 == reputation_of(self.users@, remaining@[k].0) by {
                lemma_user_index_unique(self.users@, remaining@[k].0, k);
            }
            assert forall|k: int, l: int|
                0 <= k < l < remaining@.len() implies (#[trigger] remaining@[k]).0 != (
            #[trigger] remaining@[l]).0 by {
                assert(self.users@[k].profile.address != self.users@[l].profile.address);
            }
        }
        let mut sorted: Vec<UserProfile> = Vec::new();
        while sorted.len() < target
            invariant
                self.wf(),
                target <= self.users@.len(),
                sorted@.len() <= target,
                sorted@.len() + remaining@.len() == self.users@.len(),
                forall|k: int|
                    0 <= k < remaining@.len() ==> has_user(self.users@, (
                    #[trigger] remaining@[k]).0) && remaining@[k].1 == reputation_of(
                        self.users@,
                        remaining@[k].0,
                    ),
                forall|k: int, l: int|
                    0 <= k < l < remaining@.len() ==> (#[trigger] remaining@[k]).0 != (
                    #[trigger] remaining@[l]).0,
                forall|p: int|
                    0 <= p < sorted@.len() ==> {
                        &&& has_user(self.users@, (#[trigger] sorted@[p]).address)
                        &&& sorted@[p] == self.users@[user_index(
                            self.users@,
                            sorted@[p].address,
                        )].profile
                    },
                forall|p: int, q: int|
                    0 <= p < q < sorted@.len() ==> (#[trigger] sorted@[p]).address != (
                    #[trigger] sorted@[q]).address,
                forall|p: int, k: int|
                    0 <= p < sorted@.len() && 0 <= k < remaining@.len() ==> (
                    #[trigger] sorted@[p]).address != (#[trigger] remaining@[k]).0,
                forall|p: int, q: int|
                    0 <= p < q < sorted@.len() ==> reputation_of(
                        self.users@,
                        (#[trigger] sorted@[p]).address,
                    ) >= reputation_of(self.users@, (#[trigger] sorted@[q]).address),
                forall|p: int, k: int|
                    0 <= p < sorted@.len() && 0 <= k < remaining@.len() ==> reputation_of(
                        self.users@,
                        (#[trigger] sorted@[p]).address,
                    ) >= (#[trigger] remaining@[k]).1,
            decreases target - sorted@.len(),
        {
            let mut highest_rep: u32 = 0;
            let mut highest_index: usize = 0;
            let mut k: usize = 0;
            while k < remaining.len()
                invariant
                    0 < remaining@.len(),
                    k <= remaining@.len(),
                    highest_index < remaining@.len(),
                    forall|j: int| 0 <= j < k ==> (#[trigger] remaining@[j]).1 <= highest_rep,
                    highest_rep > 0 ==> remaining@[highest_index as int].1 == highest_rep,
                    highest_rep == 0 ==> highest_index == 0,
                decreases remaining@.len() - k,
            {
                let pair = remaining[k];
                if pair.1 > highest_rep {
                    highest_rep = pair.1;
                    highest_index = k;
                }
                k += 1;
            }
            proof {
                assert(remaining@[highest_index as int].1 == highest_rep);
            }
            let selected = remaining[highest_index];
            let profile = match find_user(&self.users, selected.0) {
                Some(j) => {
                    proof {
                        lemma_user_index_unique(self.users@, selected.0, j as int);
                    }
                    self.users[j].profile
                },
                None => unreached(),
            };
            let ghost old_sorted = sorted@;
            let ghost old_remaining = remaining@;
            sorted.push(profile);
            remaining.remove(highest_index);
            proof {
                let hi = highest_index as int;
                assert(remaining@ =~= old_remaining.subrange(0, hi) + old_remaining.subrange(
                    hi + 1,
                    old_remaining.len() as int,
                ));
                assert(profile.address == selected.0);
                assert forall|c: int| 0 <= c < remaining@.len() implies (#[trigger] remaining@[c])
                    == (if c < hi {
                    old_remaining[c]
                } else {
                    old_remaining[c + 1]
                }) by {}
            }
        }
        sorted
    }
}

} // verus!
