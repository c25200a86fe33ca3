//! The error taxonomy. Every operation rejects the whole transaction with
//! one of these; no partial mutation survives an error.

use vstd::prelude::*;

verus! {

/// Reasons an operation can reject a transaction. Validation, state,
/// authorization, economic and integrity failures are all local and
/// synchronous: the caller's records are left exactly as they were.
#[derive(Clone, Copy, PartialEq, Eq, Structural, Debug)]
pub enum VotingSystemError {
    NameTooLong,
    InvalidQuorum,
    QuestionTooLong,
    InvalidOptionsCount,
    OptionTooLong,
    MissingCorrectAnswer,
    InvalidCorrectAnswer,
    InvalidDeadline,
    CommunityInactive,
    InsufficientFunds,
    InvalidUser,
    AlreadyMember,
    VoteNotActive,
    VoteExpired,
    InvalidOption,
    NotCommunityMember,
    AlreadyVoted,
    InsufficientPermissions,
    UserBanned,
    CannotBanModerator,
    InvalidBanDuration,
    ReasonTooLong,
    InvalidCommunity,
    InvalidReportStatus,
    InvalidAppealStatus,
    BanNotActive,
    DescriptionTooLong,
    AppealReasonTooLong,
    NoActionToAppeal,
    NotesTooLong,
    OnlyMembersCanReport,
    CannotReportOwnContent,
    ReportAlreadyExists,
    AppealAlreadyExists,
    OnlyModeratorsCanReview,
    ReportNotPending,
    AppealNotPending,
    DistributionNotReady,
    NoFundsToDistribute,
    NoRewardsAvailable,
    AlreadyClaimedToday,
    NotEligibleForReward,
    InvalidWithdrawalAmount,
    CannotRemoveAdmin,
    CannotRemoveModerator,
    RequestMessageTooLong,
    AdminNotesTooLong,
    MembershipRequestNotFound,
    RequestNotPending,
    RequestAlreadyExists,
    CommunityRequiresApproval,
    ColorTooLong,
    IconTooLong,
    InvalidCategory,
    CategoryMismatch,
    MissingQuorumPercentage,
    InvalidQuorumPercentage,
    VoteFailedQuorum,
    VoteNotExpired,
    InvalidVoteType,
    VoteNotCompleted,
    NoAnswerHashStored,
    InvalidAnswerHash,
    RevealDeadlineExpired,
    NotInConfidencePhase,
    ConfidenceDeadlineExpired,
    ConfidenceVotingStillActive,
}

} // verus!
