use voting_system::community::{create_community, Community};
use voting_system::errors::VotingSystemError;
use voting_system::membership::{Membership, UserRole};
use voting_system::user::{create_user, User};
use voting_system::vote::{
    cast_vote, check_and_fail_expired_vote, create_knowledge_voting, create_voting,
    force_close_vote, Vote, VoteStatus, VoteType,
};

const COMMUNITY_KEY: u64 = 100;
const VOTE_KEY: u64 = 200;
const NOW: i64 = 1_700_000_000;

fn community() -> Community {
    create_community(1, "testers".to_string(), 0, 50, false, NOW).unwrap()
}

fn member_of(user: u64) -> Membership {
    Membership {
        user,
        community: COMMUNITY_KEY,
        role: UserRole::Member,
        joined_at: NOW,
        is_active: true,
    }
}

fn opinion_poll(c: &mut Community, creator: &User, quorum: u64) -> Vote {
    create_voting(
        c,
        COMMUNITY_KEY,
        creator,
        creator.wallet,
        "Favourite colour?".to_string(),
        vec!["Red".to_string(), "Blue".to_string()],
        VoteType::Opinion,
        None,
        None,
        false,
        24,
        quorum,
        None,
        false,
        NOW,
    )
    .unwrap()
}

#[test]
fn create_voting_sets_up_poll_and_community() {
    let mut c = community();
    let creator = create_user(9, NOW);
    let v = opinion_poll(&mut c, &creator, 3);
    assert_eq!(v.community, COMMUNITY_KEY);
    assert_eq!(v.creator, 9);
    assert!(matches!(v.status, VoteStatus::Active));
    assert_eq!(v.total_votes, 0);
    assert_eq!(v.results, vec![0, 0]);
    assert_eq!(v.deadline, NOW + 24 * 3600);
    assert_eq!(v.fee_per_vote, 10_000_000);
    assert_eq!(c.total_votes, 1);
    assert_eq!(c.fee_collected, 10_000_000);
}

#[test]
fn create_voting_rejects_bad_inputs() {
    let creator = create_user(9, NOW);
    let cases: Vec<(String, Vec<String>, u32, u64, VotingSystemError)> = vec![
        (
            "".to_string(),
            vec!["a".to_string(), "b".to_string()],
            24,
            1,
            VotingSystemError::QuestionTooLong,
        ),
        (
            "q".repeat(201),
            vec!["a".to_string(), "b".to_string()],
            24,
            1,
            VotingSystemError::QuestionTooLong,
        ),
        ("q".to_string(), vec!["a".to_string()], 24, 1, VotingSystemError::InvalidOptionsCount),
        (
            "q".to_string(),
            vec!["a".to_string(); 5],
            24,
            1,
            VotingSystemError::InvalidOptionsCount,
        ),
        (
            "q".to_string(),
            vec!["a".to_string(), "b".to_string()],
            0,
            1,
            VotingSystemError::InvalidDeadline,
        ),
        (
            "q".to_string(),
            vec!["a".to_string(), "b".to_string()],
            169,
            1,
            VotingSystemError::InvalidDeadline,
        ),
        (
            "q".to_string(),
            vec!["a".to_string(), "b".to_string()],
            24,
            0,
            VotingSystemError::InvalidQuorum,
        ),
        (
            "q".to_string(),
            vec!["a".to_string(), "x".repeat(51)],
            24,
            1,
            VotingSystemError::OptionTooLong,
        ),
    ];
    for (question, options, hours, quorum, expected) in cases {
        let mut c = community();
        let r = create_voting(
            &mut c,
            COMMUNITY_KEY,
            &creator,
            creator.wallet,
            question,
            options,
            VoteType::Opinion,
            None,
            None,
            false,
            hours,
            quorum,
            None,
            false,
            NOW,
        );
        assert_eq!(r.unwrap_err(), expected);
        assert_eq!(c.total_votes, 0);
        assert_eq!(c.fee_collected, 0);
    }
}

#[test]
fn create_voting_knowledge_needs_answer() {
    let creator = create_user(9, NOW);
    let mut c = community();
    let r = create_voting(
        &mut c,
        COMMUNITY_KEY,
        &creator,
        creator.wallet,
        "q".to_string(),
        vec!["a".to_string(), "b".to_string()],
        VoteType::Knowledge,
        None,
        Some("b".to_string()),
        false,
        24,
        1,
        None,
        false,
        NOW,
    );
    assert_eq!(r.unwrap_err(), VotingSystemError::MissingCorrectAnswer);
    let r = create_voting(
        &mut c,
        COMMUNITY_KEY,
        &creator,
        creator.wallet,
        "q".to_string(),
        vec!["a".to_string(), "b".to_string()],
        VoteType::Knowledge,
        Some(2),
        Some("b".to_string()),
        false,
        24,
        1,
        None,
        false,
        NOW,
    );
    assert_eq!(r.unwrap_err(), VotingSystemError::InvalidCorrectAnswer);
}

#[test]
fn results_always_sum_to_total_votes() {
    let mut c = community();
    let creator = create_user(9, NOW);
    let mut v = opinion_poll(&mut c, &creator, 10);
    for wallet in 1..=4u64 {
        let mut voter = create_user(wallet, NOW);
        let m = member_of(wallet);
        let option = (wallet % 2) as u8;
        cast_vote(&mut v, VOTE_KEY, &mut voter, &m, wallet, option, 10, NOW + 60).unwrap();
        let total: u64 = v.results.iter().sum();
        assert_eq!(total, v.total_votes);
        assert_eq!(v.total_votes as usize, v.participants.len());
    }
    assert_eq!(v.results, vec![2, 2]);
}

#[test]
fn double_vote_is_rejected() {
    let mut c = community();
    let creator = create_user(9, NOW);
    let mut v = opinion_poll(&mut c, &creator, 10);
    let mut voter = create_user(5, NOW);
    let m = member_of(5);
    cast_vote(&mut v, VOTE_KEY, &mut voter, &m, 5, 0, 10, NOW + 60).unwrap();
    let before_results = v.results.clone();
    let before_total = v.total_votes;
    let r = cast_vote(&mut v, VOTE_KEY, &mut voter, &m, 5, 1, 10, NOW + 120);
    assert_eq!(r.unwrap_err(), VotingSystemError::AlreadyVoted);
    assert_eq!(v.results, before_results);
    assert_eq!(v.total_votes, before_total);
    assert_eq!(v.participants.len(), 1);
}

#[test]
fn cast_vote_rejections() {
    let mut c = community();
    let creator = create_user(9, NOW);
    let mut v = opinion_poll(&mut c, &creator, 10);
    let mut voter = create_user(5, NOW);
    let m = member_of(5);

    let r = cast_vote(&mut v, VOTE_KEY, &mut voter, &m, 5, 2, 10, NOW + 60);
    assert_eq!(r.unwrap_err(), VotingSystemError::InvalidOption);

    let r = cast_vote(&mut v, VOTE_KEY, &mut voter, &m, 5, 0, 10, NOW + 24 * 3600);
    assert_eq!(r.unwrap_err(), VotingSystemError::VoteExpired);

    let mut inactive = member_of(5);
    inactive.is_active = false;
    let r = cast_vote(&mut v, VOTE_KEY, &mut voter, &inactive, 5, 0, 10, NOW + 60);
    assert_eq!(r.unwrap_err(), VotingSystemError::NotCommunityMember);

    let mut stranger_profile = create_user(6, NOW);
    let r = cast_vote(&mut v, VOTE_KEY, &mut stranger_profile, &m, 5, 0, 10, NOW + 60);
    assert_eq!(r.unwrap_err(), VotingSystemError::InvalidUser);
}

#[test]
fn cast_vote_rewards_voter() {
    let mut c = community();
    let creator = create_user(9, NOW);
    let mut v = opinion_poll(&mut c, &creator, 10);
    let mut voter = create_user(5, NOW);
    let m = member_of(5);
    cast_vote(&mut v, VOTE_KEY, &mut voter, &m, 5, 0, 10, NOW + 60).unwrap();
    assert_eq!(voter.reputation_points, 1);
    assert_eq!(voter.total_votes_cast, 1);
    assert_eq!(voter.voting_weight, voter.calculate_voting_weight());
}

#[test]
fn knowledge_answer_earns_bonus() {
    let mut c = community();
    let creator = create_user(9, NOW);
    let mut v = create_voting(
        &mut c,
        COMMUNITY_KEY,
        &creator,
        creator.wallet,
        "Capital of France?".to_string(),
        vec!["Lyon".to_string(), "Paris".to_string()],
        VoteType::Knowledge,
        Some(1),
        Some("Paris".to_string()),
        false,
        24,
        10,
        None,
        false,
        NOW,
    )
    .unwrap();
    let mut right = create_user(5, NOW);
    cast_vote(&mut v, VOTE_KEY, &mut right, &member_of(5), 5, 1, 10, NOW + 60).unwrap();
    assert_eq!(right.reputation_points, 4);
    let mut wrong = create_user(6, NOW);
    cast_vote(&mut v, VOTE_KEY, &mut wrong, &member_of(6), 6, 0, 10, NOW + 60).unwrap();
    assert_eq!(wrong.reputation_points, 1);
}

#[test]
fn percentage_quorum_completes_after_half_of_ten() {
    let mut c = community();
    let creator = create_user(9, NOW);
    let mut v = create_voting(
        &mut c,
        COMMUNITY_KEY,
        &creator,
        creator.wallet,
        "q".to_string(),
        vec!["a".to_string(), "b".to_string()],
        VoteType::Opinion,
        None,
        None,
        false,
        24,
        0,
        Some(50),
        true,
        NOW,
    )
    .unwrap();
    for wallet in 1..=5u64 {
        assert!(matches!(v.status, VoteStatus::Active));
        let mut voter = create_user(wallet, NOW);
        cast_vote(&mut v, VOTE_KEY, &mut voter, &member_of(wallet), wallet, 0, 10, NOW + 60)
            .unwrap();
    }
    assert!(matches!(v.status, VoteStatus::Completed));
}

#[test]
fn expired_poll_short_of_quorum_fails() {
    let mut c = community();
    let creator = create_user(9, NOW);
    let mut v = create_voting(
        &mut c,
        COMMUNITY_KEY,
        &creator,
        creator.wallet,
        "q".to_string(),
        vec!["a".to_string(), "b".to_string()],
        VoteType::Opinion,
        None,
        None,
        false,
        24,
        0,
        Some(50),
        true,
        NOW,
    )
    .unwrap();
    for wallet in 1..=4u64 {
        let mut voter = create_user(wallet, NOW);
        cast_vote(&mut v, VOTE_KEY, &mut voter, &member_of(wallet), wallet, 0, 10, NOW + 60)
            .unwrap();
    }
    assert!(matches!(v.status, VoteStatus::Active));

    let too_early = check_and_fail_expired_vote(&mut v, 10, NOW + 60);
    assert_eq!(too_early.unwrap_err(), VotingSystemError::VoteNotExpired);

    check_and_fail_expired_vote(&mut v, 10, NOW + 24 * 3600).unwrap();
    assert!(matches!(v.status, VoteStatus::Failed));
}

#[test]
fn expiry_check_keeps_quorum_met_polls() {
    let mut c = community();
    let creator = create_user(9, NOW);
    let mut v = opinion_poll(&mut c, &creator, 1);
    let mut voter = create_user(5, NOW);
    cast_vote(&mut v, VOTE_KEY, &mut voter, &member_of(5), 5, 0, 10, NOW + 60).unwrap();
    assert!(matches!(v.status, VoteStatus::Completed));
    let r = check_and_fail_expired_vote(&mut v, 10, NOW + 48 * 3600);
    assert_eq!(r.unwrap_err(), VotingSystemError::VoteNotActive);
    assert!(matches!(v.status, VoteStatus::Completed));
}

#[test]
fn weighted_poll_tracks_weight_tenths() {
    let mut c = community();
    let creator = create_user(9, NOW);
    let mut v = create_voting(
        &mut c,
        COMMUNITY_KEY,
        &creator,
        creator.wallet,
        "q".to_string(),
        vec!["a".to_string(), "b".to_string()],
        VoteType::Opinion,
        None,
        None,
        true,
        24,
        10,
        None,
        false,
        NOW,
    )
    .unwrap();
    let mut heavy = create_user(5, NOW);
    heavy.add_reputation(100);
    assert_eq!(heavy.voting_weight, 15);
    cast_vote(&mut v, VOTE_KEY, &mut heavy, &member_of(5), 5, 1, 10, NOW + 60).unwrap();
    assert_eq!(v.weighted_results, vec![0, 15]);
    assert_eq!(v.results, vec![0, 1]);
}

#[test]
fn force_close_cancels_active_poll() {
    let mut c = community();
    let creator = create_user(9, NOW);
    let mut v = opinion_poll(&mut c, &creator, 10);
    let mut moderator = member_of(3);
    moderator.role = UserRole::Moderator;
    let log = force_close_vote(&mut v, VOTE_KEY, &moderator, "spam".to_string(), NOW + 60)
        .unwrap();
    assert!(matches!(v.status, VoteStatus::Cancelled));
    assert_eq!(log.target_vote, Some(VOTE_KEY));
    assert_eq!(log.moderator, 3);
}

#[test]
fn flat_fee_knowledge_poll() {
    let mut c = community();
    let mut creator = create_user(9, NOW);
    creator.add_reputation(6000);
    let v = create_knowledge_voting(
        &mut c,
        COMMUNITY_KEY,
        creator.wallet,
        "Capital of France?".to_string(),
        vec!["Lyon".to_string(), "Paris".to_string()],
        VoteType::Knowledge,
        Some(1),
        24,
        3,
        NOW,
    )
    .unwrap();
    assert_eq!(v.fee_per_vote, 10_000_000);
    assert!(v.answer_hash.is_none());
    assert!(!v.use_percentage_quorum);
    assert_eq!(v.quorum_required, 3);
    assert_eq!(c.fee_collected, 10_000_000);
    assert_eq!(c.total_votes, 1);
}

#[test]
fn force_close_needs_moderator() {
    let mut c = community();
    let creator = create_user(9, NOW);
    let mut v = opinion_poll(&mut c, &creator, 10);
    let plain = member_of(3);
    let r = force_close_vote(&mut v, VOTE_KEY, &plain, "spam".to_string(), NOW + 60);
    assert_eq!(r.unwrap_err(), VotingSystemError::InsufficientPermissions);
    assert!(matches!(v.status, VoteStatus::Active));
}
