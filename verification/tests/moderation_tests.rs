use voting_system::community::{create_community, withdraw_fees, Community};
use voting_system::errors::VotingSystemError;
use voting_system::membership::{
    approve_membership, assign_moderator, ban_user, join_community, reject_membership,
    remove_member, request_membership, BanType, Membership, MembershipRequestStatus,
    ModerationAction, UserRole,
};
use voting_system::reports::{appeal_ban, review_appeal, AppealStatus};
use voting_system::user::create_user;

const COMMUNITY_KEY: u64 = 100;
const BAN_KEY: u64 = 300;
const NOW: i64 = 1_700_000_000;

fn moderated_community() -> Community {
    create_community(1, "testers".to_string(), 0, 50, false, NOW).unwrap()
}

fn membership_with_role(user: u64, role: UserRole) -> Membership {
    Membership {
        user,
        community: COMMUNITY_KEY,
        role,
        joined_at: NOW,
        is_active: true,
    }
}

#[test]
fn join_community_grows_roster() {
    let mut c = moderated_community();
    let u = create_user(5, NOW);
    let m = join_community(&mut c, COMMUNITY_KEY, &u, 5, NOW).unwrap();
    assert_eq!(m.user, 5);
    assert!(matches!(m.role, UserRole::Member));
    assert!(m.is_active);
    assert_eq!(c.total_members, 2);
}

#[test]
fn join_respects_community_flags() {
    let mut c = moderated_community();
    c.is_active = false;
    let u = create_user(5, NOW);
    let r = join_community(&mut c, COMMUNITY_KEY, &u, 5, NOW);
    assert_eq!(r.unwrap_err(), VotingSystemError::CommunityInactive);

    let mut gated = moderated_community();
    gated.requires_approval = true;
    let r = join_community(&mut gated, COMMUNITY_KEY, &u, 5, NOW);
    assert_eq!(r.unwrap_err(), VotingSystemError::CommunityRequiresApproval);
    assert_eq!(gated.total_members, 1);
}

#[test]
fn membership_request_round_trip() {
    let gated = {
        let mut c = moderated_community();
        c.requires_approval = true;
        c
    };
    let u = create_user(5, NOW);
    let mut request =
        request_membership(&gated, COMMUNITY_KEY, &u, 5, "let me in".to_string(), NOW).unwrap();
    assert!(matches!(request.status, MembershipRequestStatus::Pending));

    let admin = membership_with_role(1, UserRole::Admin);
    let mut c = gated;
    let (m, log) = approve_membership(
        &mut request,
        &mut c,
        COMMUNITY_KEY,
        &admin,
        "welcome".to_string(),
        NOW + 60,
    )
    .unwrap();
    assert!(matches!(request.status, MembershipRequestStatus::Approved));
    assert!(m.is_active);
    assert_eq!(c.total_members, 2);
    assert!(matches!(log.action, ModerationAction::ApproveMembership));

    let again = approve_membership(
        &mut request,
        &mut c,
        COMMUNITY_KEY,
        &admin,
        "again".to_string(),
        NOW + 120,
    );
    assert_eq!(again.unwrap_err(), VotingSystemError::RequestNotPending);
}

#[test]
fn reject_membership_leaves_roster() {
    let gated = {
        let mut c = moderated_community();
        c.requires_approval = true;
        c
    };
    let u = create_user(5, NOW);
    let mut request =
        request_membership(&gated, COMMUNITY_KEY, &u, 5, "hi".to_string(), NOW).unwrap();
    let admin = membership_with_role(1, UserRole::Admin);
    let log = reject_membership(&mut request, &admin, "no".to_string(), NOW + 60).unwrap();
    assert!(matches!(request.status, MembershipRequestStatus::Rejected));
    assert!(matches!(log.action, ModerationAction::RejectMembership));
}

#[test]
fn ban_and_appeal_round_trip() {
    let moderator = membership_with_role(2, UserRole::Moderator);
    let mut target = membership_with_role(5, UserRole::Member);

    let (mut ban, log) = ban_user(
        &mut target,
        &moderator,
        BanType::Temporary,
        "spamming".to_string(),
        Some(24),
        NOW,
    )
    .unwrap();
    assert!(matches!(target.role, UserRole::Banned));
    assert!(!target.is_active);
    assert!(ban.is_active);
    assert_eq!(ban.expires_at, Some(NOW + 24 * 3600));
    assert!(matches!(log.action, ModerationAction::Ban));

    let appellant_membership = copy_membership(&target);
    let mut appeal = appeal_ban(
        &ban,
        BAN_KEY,
        5,
        &appellant_membership,
        "i will behave".to_string(),
        NOW + 3600,
    )
    .unwrap();
    assert!(matches!(appeal.status, AppealStatus::Pending));

    let admin = membership_with_role(1, UserRole::Admin);
    review_appeal(
        &mut appeal,
        &mut ban,
        &mut target,
        &admin,
        AppealStatus::Approved,
        "fine".to_string(),
        NOW + 7200,
    )
    .unwrap();
    assert!(matches!(appeal.status, AppealStatus::Approved));
    assert!(!ban.is_active);
    assert!(matches!(target.role, UserRole::Member));
    assert!(target.is_active);
}

fn copy_membership(m: &Membership) -> Membership {
    Membership {
        user: m.user,
        community: m.community,
        role: m.role,
        joined_at: m.joined_at,
        is_active: m.is_active,
    }
}

#[test]
fn denied_appeal_keeps_ban() {
    let moderator = membership_with_role(2, UserRole::Moderator);
    let mut target = membership_with_role(5, UserRole::Member);
    let (mut ban, _log) = ban_user(
        &mut target,
        &moderator,
        BanType::Permanent,
        "abuse".to_string(),
        None,
        NOW,
    )
    .unwrap();
    assert_eq!(ban.expires_at, None);

    let appellant_membership = copy_membership(&target);
    let mut appeal = appeal_ban(
        &ban,
        BAN_KEY,
        5,
        &appellant_membership,
        "please".to_string(),
        NOW + 3600,
    )
    .unwrap();
    let admin = membership_with_role(1, UserRole::Admin);
    review_appeal(
        &mut appeal,
        &mut ban,
        &mut target,
        &admin,
        AppealStatus::Denied,
        "no".to_string(),
        NOW + 7200,
    )
    .unwrap();
    assert!(matches!(appeal.status, AppealStatus::Denied));
    assert!(ban.is_active);
    assert!(matches!(target.role, UserRole::Banned));
    assert!(!target.is_active);
}

#[test]
fn review_appeal_rejects_non_decision() {
    let moderator = membership_with_role(2, UserRole::Moderator);
    let mut target = membership_with_role(5, UserRole::Member);
    let (mut ban, _log) =
        ban_user(&mut target, &moderator, BanType::Permanent, "x".to_string(), None, NOW)
            .unwrap();
    let appellant_membership = copy_membership(&target);
    let mut appeal =
        appeal_ban(&ban, BAN_KEY, 5, &appellant_membership, "p".to_string(), NOW).unwrap();
    let admin = membership_with_role(1, UserRole::Admin);
    let r = review_appeal(
        &mut appeal,
        &mut ban,
        &mut target,
        &admin,
        AppealStatus::Pending,
        "?".to_string(),
        NOW,
    );
    assert_eq!(r.unwrap_err(), VotingSystemError::InvalidAppealStatus);
    assert!(matches!(appeal.status, AppealStatus::Pending));
}

#[test]
fn moderators_cannot_be_banned() {
    let moderator = membership_with_role(2, UserRole::Moderator);
    let mut other_moderator = membership_with_role(3, UserRole::Moderator);
    let r = ban_user(
        &mut other_moderator,
        &moderator,
        BanType::Permanent,
        "x".to_string(),
        None,
        NOW,
    );
    assert_eq!(r.unwrap_err(), VotingSystemError::CannotBanModerator);
    assert!(matches!(other_moderator.role, UserRole::Moderator));
}

#[test]
fn temporary_ban_needs_valid_duration() {
    let moderator = membership_with_role(2, UserRole::Moderator);
    for bad_duration in [None, Some(0), Some(8761)] {
        let mut target = membership_with_role(5, UserRole::Member);
        let r = ban_user(
            &mut target,
            &moderator,
            BanType::Temporary,
            "x".to_string(),
            bad_duration,
            NOW,
        );
        assert_eq!(r.unwrap_err(), VotingSystemError::InvalidBanDuration);
        assert!(target.is_active);
    }
}

#[test]
fn assign_moderator_promotes_member() {
    let admin = membership_with_role(1, UserRole::Admin);
    let mut target = membership_with_role(5, UserRole::Member);
    let log = assign_moderator(&mut target, &admin, NOW).unwrap();
    assert!(matches!(target.role, UserRole::Moderator));
    assert!(matches!(log.action, ModerationAction::AssignModerator));
}

#[test]
fn assign_moderator_refuses_banned_membership() {
    let admin = membership_with_role(1, UserRole::Admin);
    let mut target = membership_with_role(5, UserRole::Banned);
    let r = assign_moderator(&mut target, &admin, NOW);
    assert_eq!(r.unwrap_err(), VotingSystemError::UserBanned);

    let not_admin = membership_with_role(2, UserRole::Moderator);
    let mut member = membership_with_role(5, UserRole::Member);
    let r = assign_moderator(&mut member, &not_admin, NOW);
    assert_eq!(r.unwrap_err(), VotingSystemError::InsufficientPermissions);
}

#[test]
fn remove_member_shrinks_roster() {
    let mut c = moderated_community();
    c.total_members = 3;
    let admin = membership_with_role(1, UserRole::Admin);
    let mut target = membership_with_role(5, UserRole::Member);
    let log = remove_member(&mut target, &mut c, &admin, "inactive".to_string(), NOW).unwrap();
    assert!(!target.is_active);
    assert!(matches!(target.role, UserRole::Member));
    assert_eq!(c.total_members, 2);
    assert!(matches!(log.action, ModerationAction::RemoveMember));
}

#[test]
fn admins_and_moderators_cannot_be_removed() {
    let mut c = moderated_community();
    let admin = membership_with_role(1, UserRole::Admin);
    let mut other_admin = membership_with_role(4, UserRole::Admin);
    let r = remove_member(&mut other_admin, &mut c, &admin, "x".to_string(), NOW);
    assert_eq!(r.unwrap_err(), VotingSystemError::CannotRemoveAdmin);

    let mut moderator = membership_with_role(5, UserRole::Moderator);
    let r = remove_member(&mut moderator, &mut c, &admin, "x".to_string(), NOW);
    assert_eq!(r.unwrap_err(), VotingSystemError::CannotRemoveModerator);
}

#[test]
fn withdraw_fees_checks_authority_and_funds() {
    let mut c = moderated_community();
    c.fee_collected = 50;
    let admin_membership = membership_with_role(1, UserRole::Admin);
    withdraw_fees(&mut c, &admin_membership, 20).unwrap();
    assert_eq!(c.fee_collected, 30);

    let r = withdraw_fees(&mut c, &admin_membership, 31);
    assert_eq!(r.unwrap_err(), VotingSystemError::InsufficientFunds);

    let outsider = membership_with_role(2, UserRole::Admin);
    let r = withdraw_fees(&mut c, &outsider, 1);
    assert_eq!(r.unwrap_err(), VotingSystemError::InsufficientPermissions);
    assert_eq!(c.fee_collected, 30);
}

#[test]
fn create_community_validation() {
    let r = create_community(1, "x".repeat(51), 0, 50, false, NOW);
    assert_eq!(r.unwrap_err(), VotingSystemError::NameTooLong);
    let r = create_community(1, "ok".to_string(), 11, 50, false, NOW);
    assert_eq!(r.unwrap_err(), VotingSystemError::InvalidCategory);
    let r = create_community(1, "ok".to_string(), 0, 0, false, NOW);
    assert_eq!(r.unwrap_err(), VotingSystemError::InvalidQuorum);
    let r = create_community(1, "ok".to_string(), 0, 101, false, NOW);
    assert_eq!(r.unwrap_err(), VotingSystemError::InvalidQuorum);
    let c = create_community(1, "ok".to_string(), 10, 100, true, NOW).unwrap();
    assert_eq!(c.total_members, 1);
    assert!(c.is_active);
    assert!(c.requires_approval);
}
