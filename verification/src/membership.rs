//! Membership and moderation: the per-(user, community) membership record
//! with its role lattice, ban records, the append-only moderation log, and
//! membership requests for approval-gated communities.
//!
//! Roles order Member < Moderator < Admin, with Banned orthogonal: a ban
//! supersedes the role and deactivates the membership. No moderation entry
//! point may ban or remove a moderator or admin, and a banned membership
//! cannot receive the moderator role.

use vstd::prelude::*;
use crate::community::Community;
use crate::errors::VotingSystemError;
use crate::user::{AccountId, User};

verus! {

/// A member's role within one community.
#[derive(Clone, Copy, PartialEq, Eq, Structural, Debug)]
pub enum UserRole {
    Member,
    Moderator,
    Admin,
    /// Supersedes the role semantics; always paired with an inactive
    /// membership.
    Banned,
}

/// Whether a ban expires on its own.
#[derive(Clone, Copy, PartialEq, Eq, Structural, Debug)]
pub enum BanType {
    Temporary,
    Permanent,
}

/// What a moderation-log entry records.
#[derive(Clone, Copy, PartialEq, Eq, Structural, Debug)]
pub enum ModerationAction {
    Ban,
    Unban,
    AssignModerator,
    RemoveModerator,
    CloseVote,
    ReviewReport,
    ReviewAppeal,
    NoAction,
    Warning,
    TempBan,
    PermaBan,
    RemoveContent,
    RestrictVoting,
    RemoveMember,
    ApproveMembership,
    RejectMembership,
}

/// Lifecycle of a membership request.
#[derive(Clone, Copy, PartialEq, Eq, Structural, Debug)]
pub enum MembershipRequestStatus {
    Pending,
    Approved,
    Rejected,
    Cancelled,
}

/// The unique (user, community) membership record. Its existence is the
/// proof of membership; its role and `is_active` flag gate every other
/// operation.
#[derive(Debug)]
pub struct Membership {
    pub user: AccountId,
    pub community: AccountId,
    pub role: UserRole,
    pub joined_at: i64,
    pub is_active: bool,
}

/// One ban of one user in one community.
#[derive(Debug)]
pub struct BanRecord {
    pub user: AccountId,
    pub community: AccountId,
    /// Who imposed the ban.
    pub moderator: AccountId,
    pub ban_type: BanType,
    /// Why, at most 200 characters.
    pub reason: String,
    pub banned_at: i64,
    /// Set exactly for temporary bans.
    pub expires_at: Option<i64>,
    pub is_active: bool,
}

/// One immutable audit-trail entry; every moderation action appends one
/// and none is ever rewritten.
#[derive(Debug)]
pub struct ModerationLog {
    pub community: AccountId,
    pub moderator: AccountId,
    pub target_user: Option<AccountId>,
    pub target_vote: Option<AccountId>,
    pub action: ModerationAction,
    /// Reason or notes, at most 200 characters.
    pub reason: String,
    pub executed_at: i64,
}

/// A user's request to join an approval-gated community.
#[derive(Debug)]
pub struct MembershipRequest {
    pub user: AccountId,
    pub community: AccountId,
    /// The applicant's message, at most 300 characters.
    pub message: String,
    pub status: MembershipRequestStatus,
    pub requested_at: i64,
    pub reviewed_by: Option<AccountId>,
    pub reviewed_at: Option<i64>,
    /// The reviewing admin's notes, at most 200 characters.
    pub admin_notes: String,
}

impl Membership {
    /// Moderator or admin, by role alone.
    pub open spec fn is_moderator_spec(&self) -> bool {
        self.role is Moderator || self.role is Admin
    }

    /// Admin, by role alone.
    pub open spec fn is_admin_spec(&self) -> bool {
        self.role is Admin
    }

    /// An active moderator or admin: what every moderation entry point
    /// demands of its caller.
    pub open spec fn can_moderate_spec(&self) -> bool {
        self.is_active && self.is_moderator_spec()
    }

    #[verifier::when_used_as_spec(is_moderator_spec)]
    pub fn is_moderator(&self) -> (r: bool)
        ensures
            r == self.is_moderator_spec(),
    {
        matches!(self.role, UserRole::Moderator | UserRole::Admin)
    }

    #[verifier::when_used_as_spec(is_admin_spec)]
    pub fn is_admin(&self) -> (r: bool)
        ensures
            r == self.is_admin_spec(),
    {
        matches!(self.role, UserRole::Admin)
    }

    #[verifier::when_used_as_spec(can_moderate_spec)]
    pub fn can_moderate(&self) -> (r: bool)
        ensures
            r == self.can_moderate_spec(),
    {
        self.is_active && self.is_moderator()
    }
}

impl ModerationLog {
    /// Append-only audit entry for one moderation action.
    pub fn new(
        community: AccountId,
        moderator: AccountId,
        target_user: Option<AccountId>,
        target_vote: Option<AccountId>,
        action: ModerationAction,
        reason: String,
        now: i64,
    ) -> (log: ModerationLog)
        ensures
            log == (ModerationLog {
                community,
                moderator,
                target_user,
                target_vote,
                action,
                reason,
                executed_at: now,
            }),
    {
        ModerationLog { community, moderator, target_user, target_vote, action, reason, executed_at: now }
    }
}

/// Join a community that does not require approval. The caller's new
/// membership starts as an active `Member`, and the roster grows by one.
///
/// Rejected with `CommunityInactive` or `CommunityRequiresApproval` on the
/// community's flags, and `InvalidUser` when the profile does not belong
/// to the caller; the community is unchanged on error.
pub fn join_community(
    community: &mut Community,
    community_key: AccountId,
    user: &User,
    member: AccountId,
    now: i64,
) -> (r: Result<Membership, VotingSystemError>)
    requires
        old(community).total_members < u64::MAX,
    ensures
        r matches Err(e) ==> *final(community) == *old(community) && (
            if !old(community).is_active {
                e == VotingSystemError::CommunityInactive
            } else if user.wallet != member {
                e == VotingSystemError::InvalidUser
            } else {
                e == VotingSystemError::CommunityRequiresApproval
                    && old(community).requires_approval
            }
        ),
        r matches Ok(m) ==> {
            &&& m == (Membership {
                user: member,
                community: community_key,
                role: UserRole::Member,
                joined_at: now,
                is_active: true,
            })
            &&& *final(community) == (Community {
                total_members: (old(community).total_members + 1) as u64,
                ..*old(community)
            })
        },
        r is Ok <==> (old(community).is_active && user.wallet == member
            && !old(community).requires_approval),
{
    if !community.is_active {
        return Err(VotingSystemError::CommunityInactive);
    }
    if user.wallet != member {
        return Err(VotingSystemError::InvalidUser);
    }
    if community.requires_approval {
        return Err(VotingSystemError::CommunityRequiresApproval);
    }
    let membership = Membership {
        user: member,
        community: community_key,
        role: UserRole::Member,
        joined_at: now,
        is_active: true,
    };
    community.total_members = community.total_members + 1;
    Ok(membership)
}

/// File a request to join an approval-gated community.
///
/// Rejected with `RequestMessageTooLong` over 300 characters,
/// `CommunityInactive` on an inactive community, and `InvalidUser` when
/// the profile does not belong to the caller.
pub fn request_membership(
    community: &Community,
    community_key: AccountId,
    user: &User,
    requester: AccountId,
    message: String,
    now: i64,
) -> (r: Result<MembershipRequest, VotingSystemError>)
    ensures
        r matches Err(e) ==> (
            if user.wallet != requester {
                e == VotingSystemError::InvalidUser
            } else if message@.len() > 300 {
                e == VotingSystemError::RequestMessageTooLong
            } else {
                e == VotingSystemError::CommunityInactive && !community.is_active
            }
        ),
        r matches Ok(req) ==> {
            &&& req.user == requester
            &&& req.community == community_key
            &&& req.message == message
            &&& req.status == MembershipRequestStatus::Pending
            &&& req.requested_at == now
            &&& req.reviewed_by is None
            &&& req.reviewed_at is None
            &&& req.admin_notes@.len() == 0
        },
        r is Ok <==> (user.wallet == requester && message@.len() <= 300
            && community.is_active),
{
    if user.wallet != requester {
        return Err(VotingSystemError::InvalidUser);
    }
    if message.as_str().unicode_len() > 300 {
        return Err(VotingSystemError::RequestMessageTooLong);
    }
    if !community.is_active {
        return Err(VotingSystemError::CommunityInactive);
    }
    Ok(MembershipRequest {
        user: requester,
        community: community_key,
        message,
        status: MembershipRequestStatus::Pending,
        requested_at: now,
        reviewed_by: None,
        reviewed_at: None,
        admin_notes: String::new(),
    })
}

/// Approve a pending membership request: the applicant gets an active
/// `Member` membership, the roster grows by one, and the action is
/// logged.
///
/// Only an admin of the community may approve (`InsufficientPermissions`,
/// after `InvalidCommunity` when the admin's membership belongs
/// elsewhere); the request must still be pending (`RequestNotPending`) and
/// the notes at most 200 characters (`AdminNotesTooLong`). Nothing changes
/// on error.
pub fn approve_membership(
    request: &mut MembershipRequest,
    community: &mut Community,
    community_key: AccountId,
    admin_membership: &Membership,
    admin_notes: String,
    now: i64,
) -> (r: Result<(Membership, ModerationLog), VotingSystemError>)
    requires
        old(community).total_members < u64::MAX,
    ensures
        r matches Err(e) ==> {
            &&& *final(request) == *old(request)
            &&& *final(community) == *old(community)
            &&& if old(request).status != MembershipRequestStatus::Pending {
                e == VotingSystemError::RequestNotPending
            } else if admin_membership.community != community_key {
                e == VotingSystemError::InvalidCommunity
            } else if !admin_membership.is_admin() {
                e == VotingSystemError::InsufficientPermissions
            } else {
                e == VotingSystemError::AdminNotesTooLong && admin_notes@.len() > 200
            }
        },
        r matches Ok((m, log)) ==> {
            &&& *final(request) == (MembershipRequest {
                status: MembershipRequestStatus::Approved,
                reviewed_by: Some(admin_membership.user),
                reviewed_at: Some(now),
                admin_notes: admin_notes,
                ..*old(request)
            })
            &&& m == (Membership {
                user: old(request).user,
                community: community_key,
                role: UserRole::Member,
                joined_at: now,
                is_active: true,
            })
            &&& *final(community) == (Community {
                total_members: (old(community).total_members + 1) as u64,
                ..*old(community)
            })
            &&& log.community == community_key
            &&& log.moderator == admin_membership.user
            &&& log.target_user == Some(old(request).user)
            &&& log.target_vote is None
            &&& log.action == ModerationAction::ApproveMembership
            &&& log.reason == admin_notes
            &&& log.executed_at == now
        },
        r is Ok <==> (old(request).status == MembershipRequestStatus::Pending
            && admin_membership.community == community_key
            && admin_membership.is_admin()
            && admin_notes@.len() <= 200),
{
    if request.status != MembershipRequestStatus::Pending {
        return Err(VotingSystemError::RequestNotPending);
    }
    if admin_membership.community != community_key {
        return Err(VotingSystemError::InvalidCommunity);
    }
    if !admin_membership.is_admin() {
        return Err(VotingSystemError::InsufficientPermissions);
    }
    if admin_notes.as_str().unicode_len() > 200 {
        return Err(VotingSystemError::AdminNotesTooLong);
    }
    request.status = MembershipRequestStatus::Approved;
    request.reviewed_by = Some(admin_membership.user);
    request.reviewed_at = Some(now);
    request.admin_notes = admin_notes.clone();
    let membership = Membership {
        user: request.user,
        community: community_key,
        role: UserRole::Member,
        joined_at: now,
        is_active: true,
    };
    community.total_members = community.total_members + 1;
    let log = ModerationLog::new(
        community_key,
        admin_membership.user,
        Some(request.user),
        None,
        ModerationAction::ApproveMembership,
        admin_notes,
        now,
    );
    Ok((membership, log))
}

/// Reject a pending membership request, leaving the roster untouched, and
/// log the action.
///
/// Gated like [`approve_membership`], with the admin's membership checked
/// against the request's community.
pub fn reject_membership(
    request: &mut MembershipRequest,
    admin_membership: &Membership,
    admin_notes: String,
    now: i64,
) -> (r: Result<ModerationLog, VotingSystemError>)
    ensures
        r matches Err(e) ==> {
            &&& *final(request) == *old(request)
            &&& if old(request).status != MembershipRequestStatus::Pending {
                e == VotingSystemError::RequestNotPending
            } else if admin_membership.community != old(request).community {
                e == VotingSystemError::InvalidCommunity
            } else if !admin_membership.is_admin() {
                e == VotingSystemError::InsufficientPermissions
            } else {
                e == VotingSystemError::AdminNotesTooLong && admin_notes@.len() > 200
            }
        },
        r matches Ok(log) ==> {
            &&& *final(request) == (MembershipRequest {
                status: MembershipRequestStatus::Rejected,
                reviewed_by: Some(admin_membership.user),
                reviewed_at: Some(now),
                admin_notes: admin_notes,
                ..*old(request)
            })
            &&& log.community == old(request).community
            &&& log.moderator == admin_membership.user
            &&& log.target_user == Some(old(request).user)
            &&& log.target_vote is None
            &&& log.action == ModerationAction::RejectMembership
            &&& log.reason == admin_notes
            &&& log.executed_at == now
        },
        r is Ok <==> (old(request).status == MembershipRequestStatus::Pending
            && admin_membership.community == old(request).community
            && admin_membership.is_admin()
            && admin_notes@.len() <= 200),
{
    if request.status != MembershipRequestStatus::Pending {
        return Err(VotingSystemError::RequestNotPending);
    }
    if admin_membership.community != request.community {
        return Err(VotingSystemError::InvalidCommunity);
    }
    if !admin_membership.is_admin() {
        return Err(VotingSystemError::InsufficientPermissions);
    }
    if admin_notes.as_str().unicode_len() > 200 {
        return Err(VotingSystemError::AdminNotesTooLong);
    }
    request.status = MembershipRequestStatus::Rejected;
    request.reviewed_by = Some(admin_membership.user);
    request.reviewed_at = Some(now);
    request.admin_notes = admin_notes.clone();
    let log = ModerationLog::new(
        request.community,
        admin_membership.user,
        Some(request.user),
        None,
        ModerationAction::RejectMembership,
        admin_notes,
        now,
    );
    Ok(log)
}

/// Promote a member to moderator and log the action.
///
/// Only an admin of the same community may promote
/// (`InvalidCommunity`, then `InsufficientPermissions`), and a banned
/// membership cannot receive the role (`UserBanned`). Nothing changes on
/// error.
pub fn assign_moderator(
    membership: &mut Membership,
    admin_membership: &Membership,
    now: i64,
) -> (r: Result<ModerationLog, VotingSystemError>)
    ensures
        r matches Err(e) ==> {
            &&& *final(membership) == *old(membership)
            &&& if old(membership).community != admin_membership.community {
                e == VotingSystemError::InvalidCommunity
            } else if !admin_membership.is_admin() {
                e == VotingSystemError::InsufficientPermissions
            } else {
                e == VotingSystemError::UserBanned
                    && old(membership).role == UserRole::Banned
            }
        },
        r matches Ok(log) ==> {
            &&& *final(membership) == (Membership {
                role: UserRole::Moderator,
                ..*old(membership)
            })
            &&& log.community == old(membership).community
            &&& log.moderator == admin_membership.user
            &&& log.target_user == Some(old(membership).user)
            &&& log.target_vote is None
            &&& log.action == ModerationAction::AssignModerator
            &&& log.reason@ == "Assigned moderator role"@
            &&& log.executed_at == now
        },
        r is Ok <==> (old(membership).community == admin_membership.community
            && admin_membership.is_admin()
            && old(membership).role != UserRole::Banned),
{
    if membership.community != admin_membership.community {
        return Err(VotingSystemError::InvalidCommunity);
    }
    if !admin_membership.is_admin() {
        return Err(VotingSystemError::InsufficientPermissions);
    }
    if membership.role == UserRole::Banned {
        return Err(VotingSystemError::UserBanned);
    }
    membership.role = UserRole::Moderator;
    let log = ModerationLog::new(
        membership.community,
        admin_membership.user,
        Some(membership.user),
        None,
        ModerationAction::AssignModerator,
        "Assigned moderator role".to_owned(),
        now,
    );
    Ok(log)
}

/// Ban a member: the membership becomes `Banned` and inactive, a ban
/// record is opened, and the action is logged.
///
/// Only an active moderator or admin of the same community may ban
/// (`InvalidCommunity`, then `InsufficientPermissions`); moderators and
/// admins cannot be banned (`CannotBanModerator`). A temporary ban needs a
/// duration of 1..=8760 hours (`InvalidBanDuration`) and expires that many
/// hours from now; a permanent ban never expires. The reason is capped at
/// 200 characters (`ReasonTooLong`). Nothing changes on error.
pub fn ban_user(
    membership: &mut Membership,
    moderator_membership: &Membership,
    ban_type: BanType,
    reason: String,
    duration_hours: Option<u32>,
    now: i64,
) -> (r: Result<(BanRecord, ModerationLog), VotingSystemError>)
    requires
        now <= i64::MAX - 8760 * 3600,
    ensures
        r matches Err(e) ==> {
            &&& *final(membership) == *old(membership)
            &&& if old(membership).community != moderator_membership.community {
                e == VotingSystemError::InvalidCommunity
            } else if !moderator_membership.can_moderate() {
                e == VotingSystemError::InsufficientPermissions
            } else if reason@.len() > 200 {
                e == VotingSystemError::ReasonTooLong
            } else if old(membership).is_moderator() {
                e == VotingSystemError::CannotBanModerator
            } else {
                e == VotingSystemError::InvalidBanDuration
                    && ban_type == BanType::Temporary
                    && !(duration_hours matches Some(h) && 0 < h <= 8760)
            }
        },
        r matches Ok((ban, log)) ==> {
            &&& *final(membership) == (Membership {
                role: UserRole::Banned,
                is_active: false,
                ..*old(membership)
            })
            &&& ban.user == old(membership).user
            &&& ban.community == old(membership).community
            &&& ban.moderator == moderator_membership.user
            &&& ban.ban_type == ban_type
            &&& ban.reason == reason
            &&& ban.banned_at == now
            &&& (ban_type == BanType::Temporary ==> (duration_hours matches Some(h)
                && ban.expires_at == Some((now + h * 3600) as i64)))
            &&& (ban_type == BanType::Permanent ==> ban.expires_at is None)
            &&& ban.is_active
            &&& log.community == old(membership).community
            &&& log.moderator == moderator_membership.user
            &&& log.target_user == Some(old(membership).user)
            &&& log.target_vote is None
            &&& log.action == ModerationAction::Ban
            &&& log.reason == reason
            &&& log.executed_at == now
        },
        r is Ok <==> (old(membership).community == moderator_membership.community
            && moderator_membership.can_moderate()
            && reason@.len() <= 200
            && !old(membership).is_moderator()
            && (ban_type == BanType::Permanent
                || (duration_hours matches Some(h) && 0 < h <= 8760))),
{
    if membership.community != moderator_membership.community {
        return Err(VotingSystemError::InvalidCommunity);
    }
    if !moderator_membership.can_moderate() {
        return Err(VotingSystemError::InsufficientPermissions);
    }
    if reason.as_str().unicode_len() > 200 {
        return Err(VotingSystemError::ReasonTooLong);
    }
    if membership.is_moderator() {
        return Err(VotingSystemError::CannotBanModerator);
    }
    let expires_at: Option<i64> = match ban_type {
        BanType::Temporary => {
            let hours: u32 = match duration_hours {
                Some(h) => h,
                None => {
                    return Err(VotingSystemError::InvalidBanDuration);
                },
            };
            if !(hours > 0 && hours <= 8760) {
                return Err(VotingSystemError::InvalidBanDuration);
            }
            Some(now + (hours as i64) * 3600)
        },
        BanType::Permanent => None,
    };
    membership.role = UserRole::Banned;
    membership.is_active = false;
    let ban = BanRecord {
        user: membership.user,
        community: membership.community,
        moderator: moderator_membership.user,
        ban_type,
        reason: reason.clone(),
        banned_at: now,
        expires_at,
        is_active: true,
    };
    let log = ModerationLog::new(
        membership.community,
        moderator_membership.user,
        Some(membership.user),
        None,
        ModerationAction::Ban,
        reason,
        now,
    );
    Ok((ban, log))
}

/// Remove an ordinary member: the membership is deactivated and reset to
/// `Member`, the roster shrinks by one, and the action is logged.
///
/// Only an admin of the same community may remove
/// (`InvalidCommunity`, then `InsufficientPermissions`); admins and
/// moderators cannot be removed (`CannotRemoveAdmin`,
/// `CannotRemoveModerator`). The reason is capped at 200 characters
/// (`ReasonTooLong`). Nothing changes on error.
pub fn remove_member(
    membership: &mut Membership,
    community: &mut Community,
    admin_membership: &Membership,
    reason: String,
    now: i64,
) -> (r: Result<ModerationLog, VotingSystemError>)
    ensures
        r matches Err(e) ==> {
            &&& *final(membership) == *old(membership)
            &&& *final(community) == *old(community)
            &&& if admin_membership.community != old(membership).community {
                e == VotingSystemError::InvalidCommunity
            } else if reason@.len() > 200 {
                e == VotingSystemError::ReasonTooLong
            } else if !admin_membership.is_admin() {
                e == VotingSystemError::InsufficientPermissions
            } else if old(membership).is_admin() {
                e == VotingSystemError::CannotRemoveAdmin
            } else {
                e == VotingSystemError::CannotRemoveModerator
                    && old(membership).is_moderator()
            }
        },
        r matches Ok(log) ==> {
            &&& *final(membership) == (Membership {
                role: UserRole::Member,
                is_active: false,
                ..*old(membership)
            })
            &&& *final(community) == (Community {
                total_members: if old(community).total_members > 0 {
                    (old(community).total_members - 1) as u64
                } else {
                    0u64
                },
                ..*old(community)
            })
            &&& log.community == old(membership).community
            &&& log.moderator == admin_membership.user
            &&& log.target_user == Some(old(membership).user)
            &&& log.target_vote is None
            &&& log.action == ModerationAction::RemoveMember
            &&& log.reason == reason
            &&& log.executed_at == now
        },
        r is Ok <==> (admin_membership.community == old(membership).community
            && reason@.len() <= 200
            && admin_membership.is_admin()
            && !old(membership).is_moderator()),
{
    if admin_membership.community != membership.community {
        return Err(VotingSystemError::InvalidCommunity);
    }
    if reason.as_str().unicode_len() > 200 {
        return Err(VotingSystemError::ReasonTooLong);
    }
    if !admin_membership.is_admin() {
        return Err(VotingSystemError::InsufficientPermissions);
    }
    if membership.is_admin() {
        return Err(VotingSystemError::CannotRemoveAdmin);
    }
    if membership.is_moderator() {
        return Err(VotingSystemError::CannotRemoveModerator);
    }
    membership.is_active = false;
    membership.role = UserRole::Member;
    if community.total_members > 0 {
        community.total_members = community.total_members - 1;
    }
    let log = ModerationLog::new(
        membership.community,
        admin_membership.user,
        Some(membership.user),
        None,
        ModerationAction::RemoveMember,
        reason,
        now,
    );
    Ok(log)
}

} // verus!
