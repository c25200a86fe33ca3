//! The community registry: one record per community, carrying its
//! metadata, roster size and fee accrual. Moderator and admin roles are
//! tracked on each member's `Membership` record, not on the community
//! itself.

use vstd::prelude::*;
use crate::errors::VotingSystemError;
use crate::membership::Membership;
use crate::user::AccountId;

verus! {

/// A community created and owned by one authority.
#[derive(Debug)]
pub struct Community {
    /// The wallet that created the community and may withdraw its fees.
    pub authority: AccountId,
    /// Display name, at most 50 characters.
    pub name: String,
    /// Category code, 0 through 10.
    pub category: u8,
    /// Percentage of the roster a percentage-quorum poll needs, 1 to 100.
    pub quorum_percentage: u8,
    /// Roster size; grows with joins and approvals, shrinks only when a
    /// member is removed.
    pub total_members: u64,
    /// How many polls were created here.
    pub total_votes: u64,
    /// Lamports of poll fees held by the community.
    pub fee_collected: u64,
    pub created_at: i64,
    pub is_active: bool,
    /// When set, joining goes through a membership request an admin must
    /// approve.
    pub requires_approval: bool,
}

impl Community {
    /// The stored bounds hold: name at most 50 characters, category 0..=10,
    /// quorum percentage 1..=100.
    pub open spec fn wf(self) -> bool {
        &&& self.name@.len() <= 50
        &&& self.category <= 10
        &&& 1 <= self.quorum_percentage <= 100
    }
}

/// Create a community. The caller becomes its authority and first member.
///
/// Rejected with `NameTooLong` over 50 characters, `InvalidCategory` over
/// category 10, and `InvalidQuorum` when the percentage is outside 1..=100.
pub fn create_community(
    authority: AccountId,
    name: String,
    category: u8,
    quorum_percentage: u8,
    requires_approval: bool,
    now: i64,
) -> (r: Result<Community, VotingSystemError>)
    ensures
        r matches Err(e) ==> (
            if name@.len() > 50 {
                e == VotingSystemError::NameTooLong
            } else if category > 10 {
                e == VotingSystemError::InvalidCategory
            } else {
                e == VotingSystemError::InvalidQuorum
                    && !(1 <= quorum_percentage <= 100)
            }
        ),
        r matches Ok(c) ==> c == (Community {
            authority,
            name,
            category,
            quorum_percentage,
            total_members: 1,
            total_votes: 0,
            fee_collected: 0,
            created_at: now,
            is_active: true,
            requires_approval,
        }),
        r matches Ok(c) ==> c.wf(),
        r is Ok <==> (name@.len() <= 50 && category <= 10 && 1 <= quorum_percentage <= 100),
{
    if name.as_str().unicode_len() > 50 {
        return Err(VotingSystemError::NameTooLong);
    }
    if category > 10 {
        return Err(VotingSystemError::InvalidCategory);
    }
    if !(quorum_percentage >= 1 && quorum_percentage <= 100) {
        return Err(VotingSystemError::InvalidQuorum);
    }
    Ok(Community {
        authority,
        name,
        category,
        quorum_percentage,
        total_members: 1,
        total_votes: 0,
        fee_collected: 0,
        created_at: now,
        is_active: true,
        requires_approval,
    })
}

/// Withdraw collected fees to the community's authority.
///
/// Only an admin member who is the community's authority may withdraw
/// (`InsufficientPermissions`), and only up to what was collected
/// (`InsufficientFunds`). On success the amount leaves `fee_collected`;
/// the host then moves that many lamports to the authority.
pub fn withdraw_fees(
    community: &mut Community,
    admin_membership: &Membership,
    amount: u64,
) -> (r: Result<(), VotingSystemError>)
    ensures
        r matches Err(e) ==> *final(community) == *old(community) && (
            if !(admin_membership.is_admin_spec()
                && old(community).authority == admin_membership.user) {
                e == VotingSystemError::InsufficientPermissions
            } else {
                e == VotingSystemError::InsufficientFunds
                    && old(community).fee_collected < amount
            }
        ),
        r is Ok ==> *final(community) == (Community {
            fee_collected: (old(community).fee_collected - amount) as u64,
            ..*old(community)
        }),
        r is Ok <==> (admin_membership.is_admin_spec()
            && old(community).authority == admin_membership.user
            && old(community).fee_collected >= amount),
{
    if !admin_membership.is_admin() {
        return Err(VotingSystemError::InsufficientPermissions);
    }
    if community.authority != admin_membership.user {
        return Err(VotingSystemError::InsufficientPermissions);
    }
    if community.fee_collected < amount {
        return Err(VotingSystemError::InsufficientFunds);
    }
    community.fee_collected = community.fee_collected - amount;
    Ok(())
}

} // verus!
