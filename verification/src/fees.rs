//! Reputation-driven fee economics: the poll-creation fee tier derived from
//! the creator's reputation, the global fee pool with its daily
//! distribution cadence, and the per-user reward claim ledger.
//!
//! Of the two fee-tier schedules the project has carried, the
//! reputation-banded one below is the canonical one; the older flat
//! schedule is gone.

use vstd::prelude::*;
use crate::errors::VotingSystemError;
use crate::user::{AccountId, User};

verus! {

/// Poll-creation fee bands, derived from the creator's reputation.
#[derive(Clone, Copy, PartialEq, Eq, Structural, Debug)]
pub enum FeeTier {
    /// The full fee, for users below 1000 reputation.
    Basic,
    /// Half fee, from 1000 reputation.
    Premium,
    /// The lowest fee, from 5000 reputation.
    VIP,
    /// No fee at all.
    Free,
}

/// Community-creation fee bands.
#[derive(Clone, Copy, PartialEq, Eq, Structural, Debug)]
pub enum CommunityTier {
    Public,
    Private,
    Premium,
}

/// The fee tier a reputation count earns: VIP from 5000 points, Premium
/// from 1000, Basic below that.
pub open spec fn tier_of(reputation_points: u64) -> FeeTier {
    if reputation_points >= 5000 {
        FeeTier::VIP
    } else if reputation_points >= 1000 {
        FeeTier::Premium
    } else {
        FeeTier::Basic
    }
}

/// The poll-creation fee, in lamports, for each tier.
pub open spec fn voting_fee_of(tier: FeeTier) -> u64 {
    match tier {
        FeeTier::Basic => 10_000_000u64,
        FeeTier::Premium => 5_000_000u64,
        FeeTier::VIP => 2_000_000u64,
        FeeTier::Free => 0u64,
    }
}

impl FeeTier {
    /// The poll-creation fee, in lamports, for this tier.
    pub fn get_voting_fee(&self) -> (fee: u64)
        ensures
            fee == voting_fee_of(*self),
    {
        match self {
            FeeTier::Basic => 10_000_000,
            FeeTier::Premium => 5_000_000,
            FeeTier::VIP => 2_000_000,
            FeeTier::Free => 0,
        }
    }

    /// The tier a user's reputation earns at this moment.
    pub fn from_reputation(reputation_points: u64) -> (tier: FeeTier)
        ensures
            tier == tier_of(reputation_points),
    {
        if reputation_points >= 5000 {
            FeeTier::VIP
        } else if reputation_points >= 1000 {
            FeeTier::Premium
        } else {
            FeeTier::Basic
        }
    }
}

impl CommunityTier {
    /// The community-creation fee, in lamports, for this tier.
    pub fn get_creation_fee(&self) -> (fee: u64)
        ensures
            fee == match *self {
                CommunityTier::Public => 100_000_000u64,
                CommunityTier::Private => 200_000_000u64,
                CommunityTier::Premium => 500_000_000u64,
            },
    {
        match self {
            CommunityTier::Public => 100_000_000,
            CommunityTier::Private => 200_000_000,
            CommunityTier::Premium => 500_000_000,
        }
    }
}

/// The global fee accumulator: a singleton record the host serializes all
/// access to.
#[derive(Debug)]
pub struct FeePool {
    /// Lamports collected and not yet set aside for distribution.
    pub total_collected: u64,
    /// The budget of the current distribution epoch, shrinking as users
    /// claim from it.
    pub daily_distribution: u64,
    /// When the current epoch was opened.
    pub last_distribution: i64,
}

/// One user's claim ledger against the fee pool.
#[derive(Debug)]
pub struct RewardRecord {
    pub user: AccountId,
    /// Lamports claimed over all epochs.
    pub total_claimed: u64,
    /// When this user last claimed; a claim is allowed once per epoch,
    /// that is while `last_claimed < pool.last_distribution`.
    pub last_claimed: i64,
    /// How many claims the user has made.
    pub claims_count: u32,
}

/// Five percent of the collected total, the budget a new distribution
/// epoch opens with.
pub open spec fn daily_distribution_of(total_collected: u64) -> u64 {
    ((total_collected * 5) / 100) as u64
}

/// The share of one distribution budget a reputation count is owed:
/// nothing below 100 points, then 1% (100..=499), 3% (500..=999),
/// 5% (1000..=4999) and 10% from 5000 up.
pub open spec fn reward_of(reputation_points: u64, total_distribution: u64) -> u64 {
    if reputation_points < 100 {
        0u64
    } else if reputation_points >= 5000 {
        ((total_distribution * 10) / 100) as u64
    } else if reputation_points >= 1000 {
        ((total_distribution * 5) / 100) as u64
    } else if reputation_points >= 500 {
        ((total_distribution * 3) / 100) as u64
    } else {
        ((total_distribution * 1) / 100) as u64
    }
}

/// The reward a user's reputation earns from a distribution budget.
pub fn calculate_user_reward(reputation_points: u64, total_distribution: u64) -> (reward: u64)
    ensures
        reward == reward_of(reputation_points, total_distribution),
        reward <= total_distribution,
{
    if reputation_points < 100 {
        return 0;
    }
    let multiplier: u64 = if reputation_points >= 5000 {
        10
    } else if reputation_points >= 1000 {
        5
    } else if reputation_points >= 500 {
        3
    } else {
        1
    };
    assert((total_distribution as u128) * (multiplier as u128) <= u64::MAX as u128 * 10)
        by (nonlinear_arith)
        requires total_distribution <= u64::MAX && multiplier <= 10;
    let wide: u128 = (total_distribution as u128) * (multiplier as u128) / 100;
    assert(wide <= total_distribution) by (nonlinear_arith)
        requires
            wide == (total_distribution as u128) * (multiplier as u128) / 100,
            multiplier <= 10;
    wide as u64
}

impl FeePool {
    /// A fresh pool: nothing collected, the epoch clock starting now.
    pub fn initialize_fee_pool(now: i64) -> (pool: FeePool)
        ensures
            pool.total_collected == 0,
            pool.daily_distribution == 0,
            pool.last_distribution == now,
    {
        FeePool { total_collected: 0, daily_distribution: 0, last_distribution: now }
    }

    /// Credit freshly collected fees to the pool.
    pub fn update_fee_pool(&mut self, amount: u64)
        requires
            old(self).total_collected + amount <= u64::MAX,
        ensures
            *final(self) == (FeePool {
                total_collected: (old(self).total_collected + amount) as u64,
                ..*old(self)
            }),
    {
        self.total_collected = self.total_collected + amount;
    }

    /// Five percent of the collected total.
    pub fn calculate_daily_distribution(&self) -> (amount: u64)
        ensures
            amount == daily_distribution_of(self.total_collected),
            amount <= self.total_collected,
    {
        let wide: u128 = (self.total_collected as u128) * 5 / 100;
        assert(wide <= self.total_collected) by (nonlinear_arith)
            requires wide == (self.total_collected as u128) * 5 / 100;
        wide as u64
    }

    /// Whether a full day has passed since the current epoch opened.
    pub fn should_distribute(&self, now: i64) -> (ready: bool)
        requires
            self.last_distribution <= i64::MAX - 86400,
        ensures
            ready == (now >= self.last_distribution + 86400),
    {
        now >= self.last_distribution + 86400
    }

    /// Open a new distribution epoch: set aside five percent of the
    /// collected total as the epoch's budget and restart the epoch clock.
    ///
    /// Rejected with `DistributionNotReady` while the previous epoch is
    /// younger than a day, and with `NoFundsToDistribute` when five percent
    /// of the collected total is zero; the pool is unchanged on error.
    pub fn distribute_daily_rewards(&mut self, now: i64) -> (r: Result<(), VotingSystemError>)
        requires
            old(self).last_distribution <= i64::MAX - 86400,
        ensures
            r matches Err(e) ==> *final(self) == *old(self) && (
                if now < old(self).last_distribution + 86400 {
                    e == VotingSystemError::DistributionNotReady
                } else {
                    e == VotingSystemError::NoFundsToDistribute
                        && daily_distribution_of(old(self).total_collected) == 0
                }
            ),
            r is Ok ==> {
                &&& now >= old(self).last_distribution + 86400
                &&& daily_distribution_of(old(self).total_collected) > 0
                &&& *final(self) == (FeePool {
                    total_collected: (old(self).total_collected
                        - daily_distribution_of(old(self).total_collected)) as u64,
                    daily_distribution: daily_distribution_of(old(self).total_collected),
                    last_distribution: now,
                })
            },
            r is Ok <==> (now >= old(self).last_distribution + 86400
                && daily_distribution_of(old(self).total_collected) > 0),
    {
        if !self.should_distribute(now) {
            return Err(VotingSystemError::DistributionNotReady);
        }
        let distribution_amount = self.calculate_daily_distribution();
        if distribution_amount == 0 {
            return Err(VotingSystemError::NoFundsToDistribute);
        }
        self.daily_distribution = distribution_amount;
        self.last_distribution = now;
        self.total_collected = self.total_collected - distribution_amount;
        Ok(())
    }
}

/// Pay one user its share of the open distribution epoch.
///
/// Success requires an open budget (`NoRewardsAvailable` otherwise), that
/// the user has not claimed in this epoch (`AlreadyClaimedToday`), and at
/// least 100 reputation so the share is positive (`NotEligibleForReward`).
/// On success the returned amount — the user's reputation share of the
/// budget — leaves `pool.daily_distribution`, and the claim is recorded;
/// the host then moves that many lamports to the user.
pub fn claim_reward(
    user: &User,
    pool: &mut FeePool,
    record: &mut RewardRecord,
    now: i64,
) -> (r: Result<u64, VotingSystemError>)
    requires
        old(record).total_claimed + old(pool).daily_distribution <= u64::MAX,
        old(record).claims_count < u32::MAX,
    ensures
        r matches Err(e) ==> {
            &&& *final(pool) == *old(pool)
            &&& *final(record) == *old(record)
            &&& if old(pool).daily_distribution == 0 {
                e == VotingSystemError::NoRewardsAvailable
            } else if old(record).last_claimed >= old(pool).last_distribution {
                e == VotingSystemError::AlreadyClaimedToday
            } else {
                e == VotingSystemError::NotEligibleForReward
                    && reward_of(user.reputation_points, old(pool).daily_distribution) == 0
            }
        },
        r matches Ok(reward) ==> {
            &&& old(pool).daily_distribution > 0
            &&& old(record).last_claimed < old(pool).last_distribution
            &&& reward == reward_of(user.reputation_points, old(pool).daily_distribution)
            &&& reward > 0
            &&& *final(pool) == (FeePool {
                daily_distribution: (old(pool).daily_distribution - reward) as u64,
                ..*old(pool)
            })
            &&& *final(record) == (RewardRecord {
                last_claimed: now,
                total_claimed: (old(record).total_claimed + reward) as u64,
                claims_count: (old(record).claims_count + 1) as u32,
                ..*old(record)
            })
        },
        r is Ok <==> (old(pool).daily_distribution > 0
            && old(record).last_claimed < old(pool).last_distribution
            && reward_of(user.reputation_points, old(pool).daily_distribution) > 0),
{
    if pool.daily_distribution == 0 {
        return Err(VotingSystemError::NoRewardsAvailable);
    }
    if !(record.last_claimed < pool.last_distribution) {
        return Err(VotingSystemError::AlreadyClaimedToday);
    }
    let user_reward = calculate_user_reward(user.reputation_points, pool.daily_distribution);
    if user_reward == 0 {
        return Err(VotingSystemError::NotEligibleForReward);
    }
    record.last_claimed = now;
    record.total_claimed = record.total_claimed + user_reward;
    record.claims_count = record.claims_count + 1;
    pool.daily_distribution = pool.daily_distribution - user_reward;
    Ok(user_reward)
}

impl RewardRecord {
    /// A fresh ledger for a user that has never claimed.
    pub fn new(user: AccountId) -> (record: RewardRecord)
        ensures
            record.user == user,
            record.total_claimed == 0,
            record.last_claimed == 0,
            record.claims_count == 0,
    {
        RewardRecord { user, total_claimed: 0, last_claimed: 0, claims_count: 0 }
    }
}

} // verus!
