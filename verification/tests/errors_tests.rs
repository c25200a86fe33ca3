use voting_system::community::{create_community, Community};
use voting_system::errors::VotingSystemError;
use voting_system::membership::{
    approve_membership, ban_user, request_membership, BanType, Membership, UserRole,
};
use voting_system::reports::{appeal_ban, review_appeal, review_report, report_content,
    AppealStatus, ReportCounter, ReportType};
use voting_system::membership::ModerationAction;
use voting_system::user::create_user;
use voting_system::vote::{
    cast_vote, check_and_fail_expired_vote, create_voting, finalize_confidence_voting,
    reveal_correct_answer, vote_confidence, Vote, VoteType,
};

const COMMUNITY_KEY: u64 = 100;
const VOTE_KEY: u64 = 200;
const BAN_KEY: u64 = 300;
const NOW: i64 = 1_700_000_000;

fn base_community() -> Community {
    create_community(1, "errs".to_string(), 0, 50, false, NOW).unwrap()
}

fn role_membership(user: u64, role: UserRole) -> Membership {
    Membership {
        user,
        community: COMMUNITY_KEY,
        role,
        joined_at: NOW,
        is_active: true,
    }
}

fn plain_poll(quorum: u64) -> Vote {
    let mut c = base_community();
    let creator = create_user(9, NOW);
    create_voting(
        &mut c,
        COMMUNITY_KEY,
        &creator,
        9,
        "q".to_string(),
        vec!["a".to_string(), "b".to_string()],
        VoteType::Opinion,
        None,
        None,
        false,
        24,
        quorum,
        None,
        false,
        NOW,
    )
    .unwrap()
}

#[test]
fn percentage_quorum_validation() {
    let mut c = base_community();
    let creator = create_user(9, NOW);
    let r = create_voting(
        &mut c,
        COMMUNITY_KEY,
        &creator,
        9,
        "q".to_string(),
        vec!["a".to_string(), "b".to_string()],
        VoteType::Opinion,
        None,
        None,
        false,
        24,
        0,
        None,
        true,
        NOW,
    );
    assert_eq!(r.unwrap_err(), VotingSystemError::MissingQuorumPercentage);
    let r = create_voting(
        &mut c,
        COMMUNITY_KEY,
        &creator,
        9,
        "q".to_string(),
        vec!["a".to_string(), "b".to_string()],
        VoteType::Opinion,
        None,
        None,
        false,
        24,
        0,
        Some(101),
        true,
        NOW,
    );
    assert_eq!(r.unwrap_err(), VotingSystemError::InvalidQuorumPercentage);
}

#[test]
fn reason_and_notes_length_caps() {
    let moderator = role_membership(2, UserRole::Moderator);
    let mut target = role_membership(5, UserRole::Member);
    let r = ban_user(
        &mut target,
        &moderator,
        BanType::Permanent,
        "r".repeat(201),
        None,
        NOW,
    );
    assert_eq!(r.unwrap_err(), VotingSystemError::ReasonTooLong);
    assert!(target.is_active);

    let gated = {
        let mut c = base_community();
        c.requires_approval = true;
        c
    };
    let u = create_user(5, NOW);
    let r = request_membership(&gated, COMMUNITY_KEY, &u, 5, "m".repeat(301), NOW);
    assert_eq!(r.unwrap_err(), VotingSystemError::RequestMessageTooLong);

    let mut request =
        request_membership(&gated, COMMUNITY_KEY, &u, 5, "hello".to_string(), NOW).unwrap();
    let admin = role_membership(1, UserRole::Admin);
    let mut c = base_community();
    let r = approve_membership(
        &mut request,
        &mut c,
        COMMUNITY_KEY,
        &admin,
        "n".repeat(201),
        NOW,
    );
    assert_eq!(r.unwrap_err(), VotingSystemError::AdminNotesTooLong);
}

#[test]
fn appeal_error_paths() {
    let moderator = role_membership(2, UserRole::Moderator);
    let mut target = role_membership(5, UserRole::Member);
    let (mut ban, _log) =
        ban_user(&mut target, &moderator, BanType::Permanent, "x".to_string(), None, NOW)
            .unwrap();

    let appellant = Membership {
        user: 5,
        community: COMMUNITY_KEY,
        role: UserRole::Banned,
        joined_at: NOW,
        is_active: false,
    };
    let r = appeal_ban(&ban, BAN_KEY, 5, &appellant, "r".repeat(301), NOW);
    assert_eq!(r.unwrap_err(), VotingSystemError::AppealReasonTooLong);

    let mut appeal =
        appeal_ban(&ban, BAN_KEY, 5, &appellant, "please".to_string(), NOW).unwrap();
    let admin = role_membership(1, UserRole::Admin);
    review_appeal(
        &mut appeal,
        &mut ban,
        &mut target,
        &admin,
        AppealStatus::Denied,
        "no".to_string(),
        NOW,
    )
    .unwrap();
    let r = review_appeal(
        &mut appeal,
        &mut ban,
        &mut target,
        &admin,
        AppealStatus::Approved,
        "late".to_string(),
        NOW,
    );
    assert_eq!(r.unwrap_err(), VotingSystemError::AppealNotPending);

    // The ban is spent: it stays active after the denial, but once an
    // admin deactivates it no new appeal can target it.
    ban.is_active = false;
    let r = appeal_ban(&ban, BAN_KEY, 5, &appellant, "again".to_string(), NOW);
    assert_eq!(r.unwrap_err(), VotingSystemError::BanNotActive);
}

#[test]
fn review_notes_cap() {
    let v = plain_poll(5);
    let mut counter = ReportCounter::new(0, 0, 0);
    let mut report = report_content(
        &v,
        VOTE_KEY,
        5,
        &role_membership(5, UserRole::Member),
        &mut counter,
        ReportType::Spam,
        "junk".to_string(),
        NOW,
    )
    .unwrap();
    let moderator = role_membership(2, UserRole::Moderator);
    let r = review_report(
        &mut report,
        400,
        &moderator,
        ModerationAction::Warning,
        "n".repeat(201),
        NOW,
    );
    assert_eq!(r.unwrap_err(), VotingSystemError::NotesTooLong);

    let long_reason = report_content(
        &v,
        VOTE_KEY,
        6,
        &role_membership(6, UserRole::Member),
        &mut counter,
        ReportType::Spam,
        "r".repeat(201),
        NOW,
    );
    assert_eq!(long_reason.unwrap_err(), VotingSystemError::ReasonTooLong);
}

#[test]
fn wrong_phase_and_type_rejections() {
    let mut active = plain_poll(5);
    let r = reveal_correct_answer(&mut active, 9, "a".to_string(), NOW);
    assert_eq!(r.unwrap_err(), VotingSystemError::VoteNotCompleted);

    let mut opinion_done = plain_poll(1);
    let mut voter = create_user(5, NOW);
    cast_vote(
        &mut opinion_done,
        VOTE_KEY,
        &mut voter,
        &role_membership(5, UserRole::Member),
        5,
        0,
        10,
        NOW + 60,
    )
    .unwrap();
    let r = reveal_correct_answer(&mut opinion_done, 9, "a".to_string(), NOW + 120);
    assert_eq!(r.unwrap_err(), VotingSystemError::InvalidVoteType);

    let mut user = create_user(5, NOW);
    let r = vote_confidence(
        &mut opinion_done,
        &mut user,
        &role_membership(5, UserRole::Member),
        true,
        NOW + 120,
    );
    assert_eq!(r.unwrap_err(), VotingSystemError::NotInConfidencePhase);

    let mut creator_user = create_user(9, NOW);
    let r = finalize_confidence_voting(&mut opinion_done, &mut creator_user, NOW + 120);
    assert_eq!(r.unwrap_err(), VotingSystemError::NotInConfidencePhase);
}

#[test]
fn expiry_check_names_met_quorum() {
    // A percentage-quorum poll that was short of quorum against a roster
    // of ten, but meets it against a shrunken snapshot of eight: the
    // expiry check then refuses to fail the poll.
    let mut c = base_community();
    let creator = create_user(9, NOW);
    let mut v = create_voting(
        &mut c,
        COMMUNITY_KEY,
        &creator,
        9,
        "q".to_string(),
        vec!["a".to_string(), "b".to_string()],
        VoteType::Opinion,
        None,
        None,
        false,
        24,
        0,
        Some(50),
        true,
        NOW,
    )
    .unwrap();
    for wallet in 1..=4u64 {
        let mut voter = create_user(wallet, NOW);
        cast_vote(
            &mut v,
            VOTE_KEY,
            &mut voter,
            &role_membership(wallet, UserRole::Member),
            wallet,
            0,
            10,
            NOW + 60,
        )
        .unwrap();
    }
    let r = check_and_fail_expired_vote(&mut v, 8, NOW + 24 * 3600);
    assert_eq!(r.unwrap_err(), VotingSystemError::VoteFailedQuorum);
}
