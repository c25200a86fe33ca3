//! The reporting pipeline and ban appeals: per-(poll, reporter) abuse
//! reports, the per-poll counter that aggregates them by category and
//! exposes the advisory auto-escalation predicate, and the one appeal a
//! banned user may file against a ban.
//!
//! Of the two report and appeal schemas the project has carried, the ones
//! here — a report keyed by the poll it targets, and an appeal keyed by
//! its ban record with a Pending/Approved/Denied outcome — are the
//! canonical ones.

use vstd::prelude::*;
use crate::errors::VotingSystemError;
use crate::membership::{Membership, ModerationAction, ModerationLog, UserRole};
use crate::user::AccountId;
use crate::vote::Vote;

verus! {

/// Why content was reported.
#[derive(Clone, Copy, PartialEq, Eq, Structural, Debug)]
pub enum ReportType {
    Spam,
    Offensive,
    OffTopic,
    Misinformation,
    Harassment,
    Inappropriate,
    Copyright,
    Other,
}

/// Lifecycle of one report.
#[derive(Clone, Copy, PartialEq, Eq, Structural, Debug)]
pub enum ReportStatus {
    Pending,
    UnderReview,
    Reviewed,
    Resolved,
    Dismissed,
    Escalated,
}

/// Outcome of a ban appeal; `Approved` and `Denied` are terminal.
#[derive(Clone, Copy, PartialEq, Eq, Structural, Debug)]
pub enum AppealStatus {
    Pending,
    Approved,
    Denied,
}

/// One member's report of one poll; at most one per (poll, reporter).
#[derive(Debug)]
pub struct Report {
    pub reporter: AccountId,
    pub target_vote: AccountId,
    pub community: AccountId,
    pub report_type: ReportType,
    /// Why, at most 200 characters.
    pub reason: String,
    pub status: ReportStatus,
    pub reviewed_by: Option<AccountId>,
    pub reported_at: i64,
    pub reviewed_at: Option<i64>,
}

/// The per-poll aggregate of reports, by category. Derived state,
/// recomputed additively: each report bumps its category and the total.
#[derive(Debug)]
pub struct ReportCounter {
    pub target_vote: AccountId,
    pub community: AccountId,
    pub total_reports: u32,
    pub spam_count: u32,
    pub offensive_count: u32,
    pub off_topic_count: u32,
    pub misinformation_count: u32,
    pub harassment_count: u32,
    pub inappropriate_count: u32,
    pub copyright_count: u32,
    pub other_count: u32,
    /// Advisory flag; escalation itself is a moderator's manual step.
    pub auto_action_triggered: bool,
    pub last_reported_at: i64,
}

/// One appeal against one ban record; the banned user may file it once,
/// and an admin's decision is final.
#[derive(Debug)]
pub struct Appeal {
    pub appellant: AccountId,
    pub ban_record: AccountId,
    pub community: AccountId,
    /// The appellant's case, at most 300 characters.
    pub reason: String,
    pub status: AppealStatus,
    pub reviewed_by: Option<AccountId>,
    pub appealed_at: i64,
    pub reviewed_at: Option<i64>,
}

impl ReportCounter {
    /// A fresh counter for a poll nobody has reported yet.
    pub fn new(target_vote: AccountId, community: AccountId, now: i64) -> (c: ReportCounter)
        ensures
            c == (ReportCounter {
                target_vote,
                community,
                total_reports: 0,
                spam_count: 0,
                offensive_count: 0,
                off_topic_count: 0,
                misinformation_count: 0,
                harassment_count: 0,
                inappropriate_count: 0,
                copyright_count: 0,
                other_count: 0,
                auto_action_triggered: false,
                last_reported_at: now,
            }),
    {
        ReportCounter {
            target_vote,
            community,
            total_reports: 0,
            spam_count: 0,
            offensive_count: 0,
            off_topic_count: 0,
            misinformation_count: 0,
            harassment_count: 0,
            inappropriate_count: 0,
            copyright_count: 0,
            other_count: 0,
            auto_action_triggered: false,
            last_reported_at: now,
        }
    }

    /// The escalation rule: five reports in all, three of one ordinary
    /// category, or two of a high-severity one (offensive, harassment,
    /// inappropriate). Advisory — it asks for a moderator's review, it
    /// forces no transition.
    pub open spec fn should_trigger_spec(self) -> bool {
        ||| self.total_reports >= 5
        ||| self.spam_count >= 3
        ||| self.off_topic_count >= 3
        ||| self.misinformation_count >= 3
        ||| self.offensive_count >= 2
        ||| self.harassment_count >= 2
        ||| self.inappropriate_count >= 2
        ||| self.copyright_count >= 3
    }

    /// Whether the counts have crossed the escalation rule.
    pub fn should_trigger_auto_action(&self) -> (trigger_now: bool)
        ensures
            trigger_now == self.should_trigger_spec(),
    {
        self.total_reports >= 5 || self.spam_count >= 3 || self.off_topic_count >= 3
            || self.misinformation_count >= 3 || self.offensive_count >= 2
            || self.harassment_count >= 2 || self.inappropriate_count >= 2
            || self.copyright_count >= 3
    }

    /// Count one report: its category's counter and the total each grow
    /// by one.
    pub fn increment_report(&mut self, report_type: ReportType)
        requires
            old(self).total_reports < u32::MAX,
            old(self).spam_count < u32::MAX,
            old(self).offensive_count < u32::MAX,
            old(self).off_topic_count < u32::MAX,
            old(self).misinformation_count < u32::MAX,
            old(self).harassment_count < u32::MAX,
            old(self).inappropriate_count < u32::MAX,
            old(self).copyright_count < u32::MAX,
            old(self).other_count < u32::MAX,
        ensures
            *final(self) == (ReportCounter {
                total_reports: (old(self).total_reports + 1) as u32,
                spam_count: if report_type is Spam {
                    (old(self).spam_count + 1) as u32
                } else {
                    old(self).spam_count
                },
                offensive_count: if report_type is Offensive {
                    (old(self).offensive_count + 1) as u32
                } else {
                    old(self).offensive_count
                },
                off_topic_count: if report_type is OffTopic {
                    (old(self).off_topic_count + 1) as u32
                } else {
                    old(self).off_topic_count
                },
                misinformation_count: if report_type is Misinformation {
                    (old(self).misinformation_count + 1) as u32
                } else {
                    old(self).misinformation_count
                },
                harassment_count: if report_type is Harassment {
                    (old(self).harassment_count + 1) as u32
                } else {
                    old(self).harassment_count
                },
                inappropriate_count: if report_type is Inappropriate {
                    (old(self).inappropriate_count + 1) as u32
                } else {
                    old(self).inappropriate_count
                },
                copyright_count: if report_type is Copyright {
                    (old(self).copyright_count + 1) as u32
                } else {
                    old(self).copyright_count
                },
                other_count: if report_type is Other {
                    (old(self).other_count + 1) as u32
                } else {
                    old(self).other_count
                },
                ..*old(self)
            }),
    {
        self.total_reports = self.total_reports + 1;
        match report_type {
            ReportType::Spam => {
                self.spam_count = self.spam_count + 1;
            },
            ReportType::Offensive => {
                self.offensive_count = self.offensive_count + 1;
            },
            ReportType::OffTopic => {
                self.off_topic_count = self.off_topic_count + 1;
            },
            ReportType::Misinformation => {
                self.misinformation_count = self.misinformation_count + 1;
            },
            ReportType::Harassment => {
                self.harassment_count = self.harassment_count + 1;
            },
            ReportType::Inappropriate => {
                self.inappropriate_count = self.inappropriate_count + 1;
            },
            ReportType::Copyright => {
                self.copyright_count = self.copyright_count + 1;
            },
            ReportType::Other => {
                self.other_count = self.other_count + 1;
            },
        }
    }
}

/// Report a poll. A report record is created and counted on the poll's
/// counter, which is started fresh when it does not yet belong to this
/// poll.
///
/// The reason is capped at 200 characters (`ReasonTooLong`); nobody
/// reports their own poll (`CannotReportOwnContent`), and only an active
/// member may report (`OnlyMembersCanReport`, with `InvalidUser` when the
/// membership is not the reporter's). Nothing changes on error.
pub fn report_content(
    vote: &Vote,
    vote_key: AccountId,
    reporter: AccountId,
    reporter_membership: &Membership,
    report_counter: &mut ReportCounter,
    report_type: ReportType,
    reason: String,
    now: i64,
) -> (r: Result<Report, VotingSystemError>)
    requires
        old(report_counter).target_vote == vote_key ==> {
            &&& old(report_counter).total_reports < u32::MAX
            &&& old(report_counter).spam_count < u32::MAX
            &&& old(report_counter).offensive_count < u32::MAX
            &&& old(report_counter).off_topic_count < u32::MAX
            &&& old(report_counter).misinformation_count < u32::MAX
            &&& old(report_counter).harassment_count < u32::MAX
            &&& old(report_counter).inappropriate_count < u32::MAX
            &&& old(report_counter).copyright_count < u32::MAX
            &&& old(report_counter).other_count < u32::MAX
        },
    ensures
        r matches Err(e) ==> {
            &&& *final(report_counter) == *old(report_counter)
            &&& if reason@.len() > 200 {
                e == VotingSystemError::ReasonTooLong
            } else if vote.creator == reporter {
                e == VotingSystemError::CannotReportOwnContent
            } else if reporter_membership.user != reporter {
                e == VotingSystemError::InvalidUser
            } else {
                e == VotingSystemError::OnlyMembersCanReport
                    && !reporter_membership.is_active
            }
        },
        r matches Ok(report) ==> {
            &&& report == (Report {
                reporter,
                target_vote: vote_key,
                community: vote.community,
                report_type,
                reason,
                status: ReportStatus::Pending,
                reviewed_by: None,
                reported_at: now,
                reviewed_at: None,
            })
            &&& final(report_counter).target_vote == vote_key
            &&& final(report_counter).community == (
                if old(report_counter).target_vote == vote_key {
                    old(report_counter).community
                } else {
                    vote.community
                })
            &&& final(report_counter).last_reported_at == now
            &&& final(report_counter).total_reports == (
                if old(report_counter).target_vote == vote_key {
                    old(report_counter).total_reports + 1
                } else {
                    1int
                })
        },
        r is Ok <==> (reason@.len() <= 200 && vote.creator != reporter
            && reporter_membership.user == reporter && reporter_membership.is_active),
{
    if reason.as_str().unicode_len() > 200 {
        return Err(VotingSystemError::ReasonTooLong);
    }
    if vote.creator == reporter {
        return Err(VotingSystemError::CannotReportOwnContent);
    }
    if reporter_membership.user != reporter {
        return Err(VotingSystemError::InvalidUser);
    }
    if !reporter_membership.is_active {
        return Err(VotingSystemError::OnlyMembersCanReport);
    }
    let report = Report {
        reporter,
        target_vote: vote_key,
        community: vote.community,
        report_type,
        reason,
        status: ReportStatus::Pending,
        reviewed_by: None,
        reported_at: now,
        reviewed_at: None,
    };
    if report_counter.target_vote != vote_key {
        *report_counter = ReportCounter::new(vote_key, vote.community, now);
    }
    report_counter.increment_report(report_type);
    report_counter.last_reported_at = now;
    Ok(report)
}

/// A moderator reviews a pending report, closing it and logging the
/// action taken.
///
/// Only a pending report can be closed (`ReportNotPending`), only an
/// active moderator or admin may close it (`OnlyModeratorsCanReview`),
/// and the notes are capped at 200 characters (`NotesTooLong`). Nothing
/// changes on error.
pub fn review_report(
    report: &mut Report,
    report_key: AccountId,
    moderator_membership: &Membership,
    action: ModerationAction,
    notes: String,
    now: i64,
) -> (r: Result<ModerationLog, VotingSystemError>)
    ensures
        r matches Err(e) ==> {
            &&& *final(report) == *old(report)
            &&& if notes@.len() > 200 {
                e == VotingSystemError::NotesTooLong
            } else if !(old(report).status is Pending) {
                e == VotingSystemError::ReportNotPending
            } else {
                e == VotingSystemError::OnlyModeratorsCanReview
                    && !moderator_membership.can_moderate()
            }
        },
        r matches Ok(log) ==> {
            &&& *final(report) == (Report {
                status: ReportStatus::Reviewed,
                reviewed_at: Some(now),
                reviewed_by: Some(moderator_membership.user),
                ..*old(report)
            })
            &&& log.community == old(report).community
            &&& log.moderator == moderator_membership.user
            &&& log.target_user == Some(old(report).reporter)
            &&& log.target_vote == Some(old(report).target_vote)
            &&& log.action == action
            &&& log.reason == notes
            &&& log.executed_at == now
        },
        r is Ok <==> (notes@.len() <= 200 && old(report).status is Pending
            && moderator_membership.can_moderate()),
{
    if notes.as_str().unicode_len() > 200 {
        return Err(VotingSystemError::NotesTooLong);
    }
    if !matches!(report.status, ReportStatus::Pending) {
        return Err(VotingSystemError::ReportNotPending);
    }
    if !moderator_membership.can_moderate() {
        return Err(VotingSystemError::OnlyModeratorsCanReview);
    }
    report.status = ReportStatus::Reviewed;
    report.reviewed_at = Some(now);
    report.reviewed_by = Some(moderator_membership.user);
    let log = ModerationLog::new(
        report.community,
        moderator_membership.user,
        Some(report.reporter),
        Some(report.target_vote),
        action,
        notes,
        now,
    );
    Ok(log)
}

/// A banned user appeals an active ban. The new appeal starts pending.
///
/// The reason is capped at 300 characters (`AppealReasonTooLong`); the
/// ban must still be active (`BanNotActive`) and belong to the appellant
/// (`InvalidUser`, also when the given membership is not the caller's).
pub fn appeal_ban(
    ban_record: &crate::membership::BanRecord,
    ban_record_key: AccountId,
    appellant: AccountId,
    appellant_membership: &Membership,
    reason: String,
    now: i64,
) -> (r: Result<Appeal, VotingSystemError>)
    ensures
        r matches Err(e) ==> (
            if appellant_membership.user != appellant {
                e == VotingSystemError::InvalidUser
            } else if reason@.len() > 300 {
                e == VotingSystemError::AppealReasonTooLong
            } else if !ban_record.is_active {
                e == VotingSystemError::BanNotActive
            } else {
                e == VotingSystemError::InvalidUser
                    && ban_record.user != appellant_membership.user
            }
        ),
        r matches Ok(appeal) ==> appeal == (Appeal {
            appellant,
            ban_record: ban_record_key,
            community: ban_record.community,
            reason,
            status: AppealStatus::Pending,
            reviewed_by: None,
            appealed_at: now,
            reviewed_at: None,
        }),
        r is Ok <==> (appellant_membership.user == appellant && reason@.len() <= 300
            && ban_record.is_active && ban_record.user == appellant_membership.user),
{
    if appellant_membership.user != appellant {
        return Err(VotingSystemError::InvalidUser);
    }
    if reason.as_str().unicode_len() > 300 {
        return Err(VotingSystemError::AppealReasonTooLong);
    }
    if !ban_record.is_active {
        return Err(VotingSystemError::BanNotActive);
    }
    if ban_record.user != appellant_membership.user {
        return Err(VotingSystemError::InvalidUser);
    }
    Ok(Appeal {
        appellant,
        ban_record: ban_record_key,
        community: ban_record.community,
        reason,
        status: AppealStatus::Pending,
        reviewed_by: None,
        appealed_at: now,
        reviewed_at: None,
    })
}

/// An admin decides a pending appeal, once and for all, and logs the
/// decision.
///
/// Only an admin may review (`InsufficientPermissions`), only a pending
/// appeal can be decided (`AppealNotPending`), the decision must itself
/// be a decision — `Approved` or `Denied`, not `Pending`
/// (`InvalidAppealStatus`) — and the notes at most 200 characters
/// (`NotesTooLong`). Approval lifts the ban: the ban record is
/// deactivated and the membership restored to an active `Member`. Denial
/// leaves ban and membership exactly as they were. Nothing changes on
/// error.
pub fn review_appeal(
    appeal: &mut Appeal,
    ban_record: &mut crate::membership::BanRecord,
    membership: &mut Membership,
    admin_membership: &Membership,
    decision: AppealStatus,
    admin_notes: String,
    now: i64,
) -> (r: Result<ModerationLog, VotingSystemError>)
    ensures
        r matches Err(e) ==> {
            &&& *final(appeal) == *old(appeal)
            &&& *final(ban_record) == *old(ban_record)
            &&& *final(membership) == *old(membership)
            &&& if admin_notes@.len() > 200 {
                e == VotingSystemError::NotesTooLong
            } else if !admin_membership.is_admin() {
                e == VotingSystemError::InsufficientPermissions
            } else if !(old(appeal).status is Pending) {
                e == VotingSystemError::AppealNotPending
            } else {
                e == VotingSystemError::InvalidAppealStatus && decision is Pending
            }
        },
        r matches Ok(log) ==> {
            &&& (decision is Approved || decision is Denied)
            &&& *final(appeal) == (Appeal {
                status: decision,
                reviewed_by: Some(admin_membership.user),
                reviewed_at: Some(now),
                ..*old(appeal)
            })
            &&& (decision is Approved ==> {
                &&& *final(ban_record) == (crate::membership::BanRecord {
                    is_active: false,
                    ..*old(ban_record)
                })
                &&& *final(membership) == (Membership {
                    role: UserRole::Member,
                    is_active: true,
                    ..*old(membership)
                })
            })
            &&& (decision is Denied ==> {
                &&& *final(ban_record) == *old(ban_record)
                &&& *final(membership) == *old(membership)
            })
            &&& log.community == old(appeal).community
            &&& log.moderator == admin_membership.user
            &&& log.target_user == Some(old(appeal).appellant)
            &&& log.target_vote is None
            &&& log.action == ModerationAction::ReviewAppeal
            &&& log.reason == admin_notes
            &&& log.executed_at == now
        },
        r is Ok <==> (admin_notes@.len() <= 200 && admin_membership.is_admin()
            && old(appeal).status is Pending && !(decision is Pending)),
{
    if admin_notes.as_str().unicode_len() > 200 {
        return Err(VotingSystemError::NotesTooLong);
    }
    if !admin_membership.is_admin() {
        return Err(VotingSystemError::InsufficientPermissions);
    }
    if !matches!(appeal.status, AppealStatus::Pending) {
        return Err(VotingSystemError::AppealNotPending);
    }
    if matches!(decision, AppealStatus::Pending) {
        return Err(VotingSystemError::InvalidAppealStatus);
    }
    appeal.status = decision;
    appeal.reviewed_by = Some(admin_membership.user);
    appeal.reviewed_at = Some(now);
    if matches!(decision, AppealStatus::Approved) {
        ban_record.is_active = false;
        membership.role = UserRole::Member;
        membership.is_active = true;
    }
    let log = ModerationLog::new(
        appeal.community,
        admin_membership.user,
        Some(appeal.appellant),
        None,
        ModerationAction::ReviewAppeal,
        admin_notes,
        now,
    );
    Ok(log)
}

} // verus!
