//! The identity ledger: one `User` record per wallet. Reputation accrues
//! from participation; the user's level and voting weight are derived from
//! reputation and recomputed after every reputation change, never set
//! independently.

use vstd::prelude::*;

verus! {

/// An account identity assigned by the host's keyed storage.
pub type AccountId = u64;

/// A platform-wide user profile.
///
/// Well-formedness ([`User::wf`]): `level` and `voting_weight` always equal
/// the values derived from `reputation_points`.
#[derive(Debug)]
pub struct User {
    /// Wallet that owns this profile.
    pub wallet: AccountId,
    /// Reputation counter; grows with participation, can shrink via
    /// penalties.
    pub reputation_points: u64,
    /// Derived level: `reputation_points / 10 + 1`, capped at `u32::MAX`.
    pub level: u32,
    /// How many votes this user has cast, over all polls.
    pub total_votes_cast: u64,
    /// Vote-influence multiplier in tenths: 10 = 1.0x up to 30 = 3.0x,
    /// derived from the reputation band.
    pub voting_weight: u32,
    /// Timestamp of profile creation.
    pub created_at: i64,
}

/// The voting-weight multiplier, in tenths, for a reputation count:
/// 1.0x for 0..=49, 1.5x for 50..=149, 2.0x for 150..=299,
/// 2.5x for 300..=499 and 3.0x from 500 up.
pub open spec fn weight_of(reputation_points: u64) -> u32 {
    if reputation_points <= 49 {
        10u32
    } else if reputation_points <= 149 {
        15u32
    } else if reputation_points <= 299 {
        20u32
    } else if reputation_points <= 499 {
        25u32
    } else {
        30u32
    }
}

/// The level for a reputation count: one level per 10 points, starting at
/// level 1, capped at `u32::MAX`.
pub open spec fn level_of(reputation_points: u64) -> u32 {
    if reputation_points / 10 + 1 > u32::MAX {
        u32::MAX
    } else {
        (reputation_points / 10 + 1) as u32
    }
}

/// On every well-formed profile — as each reputation change leaves it —
/// the stored voting weight is exactly the weight the current reputation
/// derives, and the level likewise: neither is ever set independently.
pub proof fn lemma_derived_fields_track_reputation(u: User)
    requires
        u.wf(),
    ensures
        u.voting_weight == weight_of(u.reputation_points),
        u.level == level_of(u.reputation_points),
{
}

/// Create a fresh profile for a wallet: zero reputation, level 1, weight
/// 1.0x.
pub fn create_user(wallet: AccountId, now: i64) -> (u: User)
    ensures
        u.wallet == wallet,
        u.reputation_points == 0,
        u.level == 1,
        u.total_votes_cast == 0,
        u.voting_weight == 10,
        u.created_at == now,
        u.wf(),
{
    User {
        wallet,
        reputation_points: 0,
        level: 1,
        total_votes_cast: 0,
        voting_weight: 10,
        created_at: now,
    }
}

impl User {
    /// The derived fields agree with `reputation_points`.
    pub open spec fn wf(self) -> bool {
        &&& self.voting_weight == weight_of(self.reputation_points)
        &&& self.level == level_of(self.reputation_points)
    }

    /// The weight this user's reputation earns right now.
    pub fn calculate_voting_weight(&self) -> (w: u32)
        ensures
            w == weight_of(self.reputation_points),
    {
        if self.reputation_points <= 49 {
            10
        } else if self.reputation_points <= 149 {
            15
        } else if self.reputation_points <= 299 {
            20
        } else if self.reputation_points <= 499 {
            25
        } else {
            30
        }
    }

    /// Recompute `voting_weight` from the current reputation.
    pub fn update_voting_weight(&mut self)
        ensures
            *final(self) == (User { voting_weight: weight_of(old(self).reputation_points), ..*old(self) }),
    {
        self.voting_weight = self.calculate_voting_weight();
    }

    /// Recompute both derived fields from the current reputation.
    fn rederive(&mut self)
        ensures
            *final(self) == (User {
                voting_weight: weight_of(old(self).reputation_points),
                level: level_of(old(self).reputation_points),
                ..*old(self)
            }),
            final(self).wf(),
    {
        self.update_voting_weight();
        let lvl: u64 = self.reputation_points / 10 + 1;
        if lvl > u32::MAX as u64 {
            self.level = u32::MAX;
        } else {
            self.level = lvl as u32;
        }
    }

    /// Grant reputation and rederive level and weight.
    pub fn add_reputation(&mut self, points: u64)
        requires
            old(self).reputation_points + points <= u64::MAX,
        ensures
            final(self).reputation_points == old(self).reputation_points + points,
            final(self).wallet == old(self).wallet,
            final(self).total_votes_cast == old(self).total_votes_cast,
            final(self).created_at == old(self).created_at,
            final(self).wf(),
    {
        self.reputation_points = self.reputation_points + points;
        self.rederive();
    }

    /// Take reputation away, never below zero, and rederive level and
    /// weight.
    pub fn cut_reputation(&mut self, points: u64)
        ensures
            final(self).reputation_points == if old(self).reputation_points >= points {
                (old(self).reputation_points - points) as u64
            } else {
                0u64
            },
            final(self).wallet == old(self).wallet,
            final(self).total_votes_cast == old(self).total_votes_cast,
            final(self).created_at == old(self).created_at,
            final(self).wf(),
    {
        if self.reputation_points >= points {
            self.reputation_points = self.reputation_points - points;
        } else {
            self.reputation_points = 0;
        }
        self.rederive();
    }
}

} // verus!
