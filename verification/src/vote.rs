//! The poll engine: poll records, their counters and their finite state
//! machine.
//!
//! A poll starts `Active` and moves only forward: to `Completed` when its
//! quorum is met at cast time, to `Failed` when a caller finds it expired
//! short of quorum, or to `Cancelled` when a moderator force-closes it.
//! A completed knowledge poll may enter `ConfidenceVoting` once its
//! creator reveals the committed answer, and returns to `Completed` for
//! good when the confidence window is finalized. `Cancelled` and `Failed`
//! are terminal. The awaiting-reveal stage between completion and reveal
//! is represented implicitly by a completed poll that still carries an
//! unrevealed answer hash.

use vstd::prelude::*;
use crate::errors::VotingSystemError;
use crate::user::AccountId;

verus! {

/// Whether a poll gathers opinions or tests knowledge against a committed
/// correct answer.
#[derive(Clone, Copy, PartialEq, Eq, Structural, Debug)]
pub enum VoteType {
    Opinion,
    Knowledge,
}

/// The poll state machine's states.
#[derive(Clone, Copy, PartialEq, Eq, Structural, Debug)]
pub enum VoteStatus {
    Active,
    Completed,
    Cancelled,
    /// Expired without reaching quorum.
    Failed,
    /// Reserved stage between completion and reveal; in practice it is
    /// carried implicitly by a completed poll with an unrevealed hash.
    AwaitingReveal,
    /// The revealed answer is under community confidence voting.
    ConfidenceVoting,
}

/// One member's vote in one poll. Its existence is the record that the
/// member voted; it is created exactly once and never changed.
#[derive(Debug)]
pub struct Participation {
    pub user: AccountId,
    pub vote: AccountId,
    /// Index into the poll's options.
    pub option_selected: u8,
    pub voted_at: i64,
}

/// The sum of a sequence of counters.
pub open spec fn sum(s: Seq<u64>) -> int
    decreases s.len(),
{
    if s.len() == 0 {
        0
    } else {
        s[0] + sum(s.drop_first())
    }
}

pub proof fn lemma_sum_nonneg(s: Seq<u64>)
    ensures
        sum(s) >= 0,
    decreases s.len(),
{
    if s.len() > 0 {
        lemma_sum_nonneg(s.drop_first());
    }
}

/// Each counter is at most the total.
pub proof fn lemma_sum_elem(s: Seq<u64>, i: int)
    requires
        0 <= i < s.len(),
    ensures
        s[i] <= sum(s),
    decreases s.len(),
{
    lemma_sum_nonneg(s.drop_first());
    if i > 0 {
        lemma_sum_elem(s.drop_first(), i - 1);
    }
}

/// Replacing one counter moves the sum by the difference.
pub proof fn lemma_sum_update(s: Seq<u64>, i: int, v: u64)
    requires
        0 <= i < s.len(),
    ensures
        sum(s.update(i, v)) == sum(s) - s[i] + v,
    decreases s.len(),
{
    if i == 0 {
        assert(s.update(0, v).drop_first() =~= s.drop_first());
    } else {
        assert(s.update(i, v).drop_first() =~= s.drop_first().update(i - 1, v));
        lemma_sum_update(s.drop_first(), i - 1, v);
    }
}

/// Appending a counter adds it to the sum.
pub proof fn lemma_sum_push(s: Seq<u64>, v: u64)
    ensures
        sum(s.push(v)) == sum(s) + v,
    decreases s.len(),
{
    if s.len() == 0 {
        assert(s.push(v).drop_first() =~= s);
    } else {
        assert(s.push(v).drop_first() =~= s.drop_first().push(v));
        lemma_sum_push(s.drop_first(), v);
    }
}

/// Every option string is 1 to 50 characters.
pub open spec fn options_ok(opts: Seq<String>) -> bool {
    forall|i: int| 0 <= i < opts.len() ==> 1 <= (#[trigger] opts[i])@.len() <= 50
}

/// One poll of a community.
///
/// Well-formedness ([`Vote::wf`]) keeps the counters coherent: one result
/// slot per option, the results summing to `total_votes`, `total_votes`
/// equal to the number of participants, and no participant listed twice.
#[derive(Debug)]
pub struct Vote {
    /// The community the poll belongs to.
    pub community: AccountId,
    /// The wallet that created the poll.
    pub creator: AccountId,
    /// The question, 1 to 200 characters.
    pub question: String,
    pub vote_type: VoteType,
    /// 2 to 4 answer options, 1 to 50 characters each.
    pub options: Vec<String>,
    /// For knowledge polls, the index of the correct option.
    pub correct_answer: Option<u8>,
    /// Every wallet that has voted; membership in this list is the
    /// double-voting guard.
    pub participants: Vec<AccountId>,
    /// Ballots per option.
    pub results: Vec<u64>,
    /// How many ballots were cast in all.
    pub total_votes: u64,
    /// Absolute quorum, used while `use_percentage_quorum` is false.
    pub quorum_required: u64,
    /// Percentage quorum, set exactly while `use_percentage_quorum`.
    pub quorum_percentage: Option<u8>,
    /// Selects which of the two quorum rules applies.
    pub use_percentage_quorum: bool,
    /// Casting closes at this timestamp.
    pub deadline: i64,
    pub status: VoteStatus,
    /// The creation fee that was charged, in lamports.
    pub fee_per_vote: u64,
    pub created_at: i64,
    /// SHA-256 commitment to the correct answer's text, for knowledge
    /// polls created with one.
    pub answer_hash: Option<Vec<u8>>,
    /// The answer text, once revealed against the hash.
    pub revealed_answer: Option<String>,
    /// The reveal must happen by this timestamp.
    pub reveal_deadline: Option<i64>,
    pub confidence_votes_for: u32,
    pub confidence_votes_against: u32,
    /// End of the confidence-voting window, set when the reveal opens it.
    pub confidence_deadline: Option<i64>,
    /// Selects the aggregation strategy: plain counts, or additionally a
    /// reputation-weighted tally in `weighted_results`.
    pub weighted_voting_enabled: bool,
    /// Per-option sums of voter weights (in tenths), filled while
    /// `weighted_voting_enabled`.
    pub weighted_results: Vec<u64>,
}

/// Which status changes the state machine allows in one operation.
pub open spec fn status_step_allowed(pre: VoteStatus, post: VoteStatus) -> bool {
    ||| pre == post
    ||| (pre is Active && (post is Completed || post is Cancelled || post is Failed))
    ||| (pre is Completed && post is ConfidenceVoting)
    ||| (pre is ConfidenceVoting && post is Completed)
}

/// The status lattice only moves forward: `Cancelled` and `Failed` are
/// terminal, nothing returns to `Active`, and a poll that reached
/// `Completed` can only alternate with `ConfidenceVoting`, never become
/// `Cancelled` or `Failed`.
pub proof fn lemma_status_forward(pre: VoteStatus, post: VoteStatus)
    requires
        status_step_allowed(pre, post),
    ensures
        pre is Cancelled ==> post is Cancelled,
        pre is Failed ==> post is Failed,
        pre is Completed ==> (post is Completed || post is ConfidenceVoting),
        pre is ConfidenceVoting ==> (post is ConfidenceVoting || post is Completed),
        post is Active ==> pre is Active,
        (pre is Completed || pre is ConfidenceVoting) ==> !(post is Cancelled || post is Failed),
{
}

/// On every well-formed poll — so after every creation and every cast —
/// the per-option results sum to `total_votes`, which equals the number
/// of participants, and no participant is listed twice.
pub proof fn lemma_counters_coherent(v: Vote)
    requires
        v.wf(),
    ensures
        sum(v.results@) == v.total_votes,
        v.total_votes == v.participants@.len(),
        v.participants@.no_duplicates(),
{
}

impl Vote {
    /// The record's internal coherence, established at creation and kept
    /// by every operation.
    pub open spec fn wf(self) -> bool {
        &&& 2 <= self.options@.len() <= 4
        &&& options_ok(self.options@)
        &&& 1 <= self.question@.len() <= 200
        &&& self.results@.len() == self.options@.len()
        &&& self.weighted_results@.len() == self.options@.len()
        &&& self.total_votes == self.participants@.len()
        &&& sum(self.results@) == self.total_votes
        &&& sum(self.weighted_results@) <= 30 * self.total_votes
        &&& self.participants@.no_duplicates()
        &&& (self.vote_type is Knowledge ==> (self.correct_answer matches Some(a)
            && (a as int) < self.options@.len()))
        &&& (self.use_percentage_quorum ==> (self.quorum_percentage matches Some(p)
            && 1 <= p <= 100))
        &&& (!self.use_percentage_quorum ==> self.quorum_required > 0)
        &&& (self.answer_hash matches Some(h) ==> h@.len() == 32)
    }

    /// The quorum this poll needs against a roster snapshot: the absolute
    /// figure, or the configured percentage of the roster, never less
    /// than one ballot.
    pub open spec fn required_quorum_spec(self, total_members: u64) -> int {
        if self.use_percentage_quorum {
            match self.quorum_percentage {
                Some(p) => {
                    if total_members * p / 100 < 1 {
                        1
                    } else {
                        total_members * p / 100
                    }
                },
                None => self.quorum_required as int,
            }
        } else {
            self.quorum_required as int
        }
    }

    /// The quorum required against a roster snapshot.
    pub fn calculate_required_quorum(&self, total_members: u64) -> (q: u64)
        requires
            self.use_percentage_quorum ==> (self.quorum_percentage matches Some(p)
                && p <= 100),
        ensures
            q == self.required_quorum_spec(total_members),
    {
        if self.use_percentage_quorum {
            match self.quorum_percentage {
                Some(percentage) => {
                    assert((total_members as u128) * (percentage as u128)
                        <= u64::MAX as u128 * 100) by (nonlinear_arith)
                        requires
                            total_members <= u64::MAX,
                            percentage <= 100;
                    let wide: u128 = (total_members as u128) * (percentage as u128) / 100;
                    assert(wide <= total_members) by (nonlinear_arith)
                        requires
                            wide == (total_members as u128) * (percentage as u128) / 100,
                            percentage <= 100;
                    let by_percentage = wide as u64;
                    if by_percentage < 1 {
                        1
                    } else {
                        by_percentage
                    }
                },
                None => self.quorum_required,
            }
        } else {
            self.quorum_required
        }
    }

    /// Whether the ballots cast so far meet the quorum.
    pub fn has_reached_quorum(&self, total_members: u64) -> (reached: bool)
        requires
            self.use_percentage_quorum ==> (self.quorum_percentage matches Some(p)
                && p <= 100),
        ensures
            reached == (self.total_votes >= self.required_quorum_spec(total_members)),
    {
        self.total_votes >= self.calculate_required_quorum(total_members)
    }

    /// Whether the casting window has closed.
    pub fn is_expired(&self, current_timestamp: i64) -> (expired: bool)
        ensures
            expired == (current_timestamp >= self.deadline),
    {
        current_timestamp >= self.deadline
    }

    /// Expired without meeting quorum: the condition under which an
    /// explicit expiry check marks the poll `Failed`.
    pub fn should_fail_for_quorum(&self, total_members: u64, current_timestamp: i64) -> (fail:
        bool)
        requires
            self.use_percentage_quorum ==> (self.quorum_percentage matches Some(p)
                && p <= 100),
        ensures
            fail == (current_timestamp >= self.deadline
                && !(self.total_votes >= self.required_quorum_spec(total_members))),
    {
        self.is_expired(current_timestamp) && !self.has_reached_quorum(total_members)
    }
}

/// A counter vector of the given length, all zeroes.
fn zero_counters(n: usize) -> (v: Vec<u64>)
    ensures
        v@.len() == n,
        forall|j: int| 0 <= j < n ==> v@[j] == 0,
        sum(v@) == 0,
{
    let mut v: Vec<u64> = Vec::new();
    while v.len() < n
        invariant
            v@.len() <= n,
            forall|j: int| 0 <= j < v@.len() ==> v@[j] == 0,
            sum(v@) == 0,
        decreases n - v.len(),
    {
        proof {
            lemma_sum_push(v@, 0u64);
        }
        v.push(0);
    }
    v
}

/// The first rejection `create_voting` finds, in the order the checks
/// run, or `None` when the poll may be created.
pub open spec fn create_voting_error(
    community: crate::community::Community,
    creator: crate::user::User,
    creator_wallet: AccountId,
    question: Seq<char>,
    options: Seq<String>,
    vote_type: VoteType,
    correct_answer: Option<u8>,
    answer_text: Option<String>,
    deadline_hours: u32,
    quorum_required: u64,
    quorum_percentage: Option<u8>,
    use_percentage_quorum: bool,
) -> Option<VotingSystemError> {
    if !community.is_active {
        Some(VotingSystemError::CommunityInactive)
    } else if creator.wallet != creator_wallet {
        Some(VotingSystemError::InvalidUser)
    } else if !(1 <= question.len() <= 200) {
        Some(VotingSystemError::QuestionTooLong)
    } else if !(2 <= options.len() <= 4) {
        Some(VotingSystemError::InvalidOptionsCount)
    } else if !(1 <= deadline_hours <= 168) {
        Some(VotingSystemError::InvalidDeadline)
    } else if use_percentage_quorum && quorum_percentage is None {
        Some(VotingSystemError::MissingQuorumPercentage)
    } else if use_percentage_quorum && !(quorum_percentage matches Some(p) && 1 <= p <= 100) {
        Some(VotingSystemError::InvalidQuorumPercentage)
    } else if !use_percentage_quorum && quorum_required == 0 {
        Some(VotingSystemError::InvalidQuorum)
    } else if !options_ok(options) {
        Some(VotingSystemError::OptionTooLong)
    } else if vote_type is Knowledge && (correct_answer is None || answer_text is None) {
        Some(VotingSystemError::MissingCorrectAnswer)
    } else if vote_type is Knowledge && !(correct_answer matches Some(a) && (a as int)
        < options.len()) {
        Some(VotingSystemError::InvalidCorrectAnswer)
    } else {
        None
    }
}

/// Create a poll.
///
/// The question must be 1..=200 characters, with 2..=4 options of 1..=50
/// characters each and a casting window of 1..=168 hours. The quorum is
/// either absolute (> 0) or a percentage (1..=100) of the roster,
/// selected by `use_percentage_quorum`. A knowledge poll names its
/// correct option and commits to the answer's text: the poll stores the
/// text's SHA-256 and a reveal window closing a day after the casting
/// deadline. The creation fee follows the creator's reputation tier, is
/// added to the community's collected fees, and is recorded on the poll;
/// the host moves the lamports. On any rejection — listed exactly by
/// [`create_voting_error`] — the community is unchanged.
#[verifier::loop_isolation(false)]
pub fn create_voting(
    community: &mut crate::community::Community,
    community_key: AccountId,
    creator: &crate::user::User,
    creator_wallet: AccountId,
    question: String,
    options: Vec<String>,
    vote_type: VoteType,
    correct_answer: Option<u8>,
    answer_text: Option<String>,
    weighted_voting_enabled: bool,
    deadline_hours: u32,
    quorum_required: u64,
    quorum_percentage: Option<u8>,
    use_percentage_quorum: bool,
    now: i64,
) -> (r: Result<Vote, VotingSystemError>)
    requires
        now <= i64::MAX - 168 * 3600 - 86400,
        old(community).total_votes < u64::MAX,
        old(community).fee_collected <= u64::MAX - 10_000_000,
    ensures
        r matches Err(e) ==> *final(community) == *old(community)
            && Some(e) == create_voting_error(
                *old(community), *creator, creator_wallet, question@, options@, vote_type,
                correct_answer, answer_text, deadline_hours, quorum_required,
                quorum_percentage, use_percentage_quorum,
            ),
        r matches Ok(v) ==> {
            &&& create_voting_error(
                *old(community), *creator, creator_wallet, question@, options@, vote_type,
                correct_answer, answer_text, deadline_hours, quorum_required,
                quorum_percentage, use_percentage_quorum,
            ) is None
            &&& v.community == community_key
            &&& v.creator == creator_wallet
            &&& v.question == question
            &&& v.vote_type == vote_type
            &&& v.options == options
            &&& v.correct_answer == correct_answer
            &&& v.participants@.len() == 0
            &&& v.results@.len() == options@.len()
            &&& (forall|j: int| 0 <= j < v.results@.len() ==> v.results@[j] == 0)
            &&& v.total_votes == 0
            &&& v.quorum_required == quorum_required
            &&& v.quorum_percentage == quorum_percentage
            &&& v.use_percentage_quorum == use_percentage_quorum
            &&& v.deadline == now + deadline_hours * 3600
            &&& v.status == VoteStatus::Active
            &&& v.fee_per_vote == crate::fees::voting_fee_of(
                crate::fees::tier_of(creator.reputation_points))
            &&& v.created_at == now
            &&& (vote_type is Knowledge ==> {
                &&& (v.answer_hash matches Some(h) && (answer_text matches Some(t)
                    && h@ == crate::digest::sha256_of_text(t@)))
                &&& v.reveal_deadline == Some((now + deadline_hours * 3600 + 86400) as i64)
            })
            &&& (vote_type is Opinion ==> v.answer_hash is None && v.reveal_deadline is None)
            &&& v.revealed_answer is None
            &&& v.confidence_votes_for == 0
            &&& v.confidence_votes_against == 0
            &&& v.confidence_deadline is None
            &&& v.weighted_voting_enabled == weighted_voting_enabled
            &&& v.weighted_results@.len() == options@.len()
            &&& (forall|j: int| 0 <= j < v.weighted_results@.len() ==> v.weighted_results@[j] == 0)
            &&& v.wf()
            &&& *final(community) == (crate::community::Community {
                total_votes: (old(community).total_votes + 1) as u64,
                fee_collected: (old(community).fee_collected + v.fee_per_vote) as u64,
                ..*old(community)
            })
        },
        r is Ok <==> create_voting_error(
            *old(community), *creator, creator_wallet, question@, options@, vote_type,
            correct_answer, answer_text, deadline_hours, quorum_required,
            quorum_percentage, use_percentage_quorum,
        ) is None,
{
    if !community.is_active {
        return Err(VotingSystemError::CommunityInactive);
    }
    if creator.wallet != creator_wallet {
        return Err(VotingSystemError::InvalidUser);
    }
    let question_len = question.as_str().unicode_len();
    if !(question_len >= 1 && question_len <= 200) {
        return Err(VotingSystemError::QuestionTooLong);
    }
    if !(options.len() >= 2 && options.len() <= 4) {
        return Err(VotingSystemError::InvalidOptionsCount);
    }
    if !(deadline_hours >= 1 && deadline_hours <= 168) {
        return Err(VotingSystemError::InvalidDeadline);
    }
    if use_percentage_quorum {
        match quorum_percentage {
            None => {
                return Err(VotingSystemError::MissingQuorumPercentage);
            },
            Some(percentage) => {
                if !(percentage >= 1 && percentage <= 100) {
                    return Err(VotingSystemError::InvalidQuorumPercentage);
                }
            },
        }
    } else {
        if quorum_required == 0 {
            return Err(VotingSystemError::InvalidQuorum);
        }
    }
    let mut i: usize = 0;
    while i < options.len()
        invariant
            i <= options@.len(),
            forall|j: int| 0 <= j < i ==> 1 <= (#[trigger] options@[j])@.len() <= 50,
        decreases options@.len() - i,
    {
        let olen = options[i].as_str().unicode_len();
        if !(olen >= 1 && olen <= 50) {
            proof {
                assert(!(1 <= (options@[i as int])@.len() <= 50));
            }
            return Err(VotingSystemError::OptionTooLong);
        }
        i = i + 1;
    }
    let answer_hash: Option<Vec<u8>>;
    let reveal_deadline: Option<i64>;
    let deadline: i64 = now + (deadline_hours as i64) * 3600;
    if matches!(vote_type, VoteType::Knowledge) {
        let answer_index = match correct_answer {
            Some(a) => a,
            None => {
                return Err(VotingSystemError::MissingCorrectAnswer);
            },
        };
        let answer_string = match answer_text {
            Some(t) => t,
            None => {
                return Err(VotingSystemError::MissingCorrectAnswer);
            },
        };
        if !((answer_index as usize) < options.len()) {
            return Err(VotingSystemError::InvalidCorrectAnswer);
        }
        answer_hash = Some(crate::digest::hash_text(answer_string.as_str()));
        reveal_deadline = Some(deadline + 86400);
    } else {
        answer_hash = None;
        reveal_deadline = None;
    }
    let fee_tier = crate::fees::FeeTier::from_reputation(creator.reputation_points);
    let voting_fee = fee_tier.get_voting_fee();
    let results = zero_counters(options.len());
    let weighted_results = zero_counters(options.len());
    let vote = Vote {
        community: community_key,
        creator: creator_wallet,
        question,
        vote_type,
        options,
        correct_answer,
        participants: Vec::new(),
        results,
        total_votes: 0,
        quorum_required,
        quorum_percentage,
        use_percentage_quorum,
        deadline,
        status: VoteStatus::Active,
        fee_per_vote: voting_fee,
        created_at: now,
        answer_hash,
        revealed_answer: None,
        reveal_deadline,
        confidence_votes_for: 0,
        confidence_votes_against: 0,
        confidence_deadline: None,
        weighted_voting_enabled,
        weighted_results,
    };
    community.total_votes = community.total_votes + 1;
    community.fee_collected = community.fee_collected + voting_fee;
    Ok(vote)
}

/// Create a knowledge poll at the flat fee, with an absolute quorum and
/// no answer commitment.
///
/// The validations are those of [`create_voting`] without the
/// percentage-quorum and answer-text branches; every creator pays the
/// flat 10,000,000-lamport fee regardless of reputation. Without a stored
/// hash the poll cannot go through the reveal workflow.
#[verifier::loop_isolation(false)]
pub fn create_knowledge_voting(
    community: &mut crate::community::Community,
    community_key: AccountId,
    creator_wallet: AccountId,
    question: String,
    options: Vec<String>,
    vote_type: VoteType,
    correct_answer: Option<u8>,
    deadline_hours: u32,
    quorum_required: u64,
    now: i64,
) -> (r: Result<Vote, VotingSystemError>)
    requires
        now <= i64::MAX - 168 * 3600,
        old(community).total_votes < u64::MAX,
        old(community).fee_collected <= u64::MAX - 10_000_000,
    ensures
        r matches Err(e) ==> *final(community) == *old(community) && (
            if !old(community).is_active {
                e == VotingSystemError::CommunityInactive
            } else if !(1 <= question@.len() <= 200) {
                e == VotingSystemError::QuestionTooLong
            } else if !(2 <= options@.len() <= 4) {
                e == VotingSystemError::InvalidOptionsCount
            } else if !(1 <= deadline_hours <= 168) {
                e == VotingSystemError::InvalidDeadline
            } else if quorum_required == 0 {
                e == VotingSystemError::InvalidQuorum
            } else if !options_ok(options@) {
                e == VotingSystemError::OptionTooLong
            } else if vote_type is Knowledge && correct_answer is None {
                e == VotingSystemError::MissingCorrectAnswer
            } else {
                e == VotingSystemError::InvalidCorrectAnswer
                    && vote_type is Knowledge
                    && !(correct_answer matches Some(a) && (a as int) < options@.len())
            }
        ),
        r matches Ok(v) ==> {
            &&& v.community == community_key
            &&& v.creator == creator_wallet
            &&& v.question == question
            &&& v.vote_type == vote_type
            &&& v.options == options
            &&& v.correct_answer == correct_answer
            &&& v.participants@.len() == 0
            &&& v.total_votes == 0
            &&& v.quorum_required == quorum_required
            &&& v.quorum_percentage is None
            &&& !v.use_percentage_quorum
            &&& v.deadline == now + deadline_hours * 3600
            &&& v.status == VoteStatus::Active
            &&& v.fee_per_vote == 10_000_000
            &&& v.created_at == now
            &&& v.answer_hash is None
            &&& v.revealed_answer is None
            &&& v.reveal_deadline is None
            &&& !v.weighted_voting_enabled
            &&& v.wf()
            &&& *final(community) == (crate::community::Community {
                total_votes: (old(community).total_votes + 1) as u64,
                fee_collected: (old(community).fee_collected + 10_000_000) as u64,
                ..*old(community)
            })
        },
        r is Ok <==> (old(community).is_active
            && 1 <= question@.len() <= 200
            && 2 <= options@.len() <= 4
            && 1 <= deadline_hours <= 168
            && quorum_required > 0
            && options_ok(options@)
            && (vote_type is Knowledge ==> (correct_answer matches Some(a) && (a as int)
                < options@.len()))),
{
    if !community.is_active {
        return Err(VotingSystemError::CommunityInactive);
    }
    let question_len = question.as_str().unicode_len();
    if !(question_len >= 1 && question_len <= 200) {
        return Err(VotingSystemError::QuestionTooLong);
    }
    if !(options.len() >= 2 && options.len() <= 4) {
        return Err(VotingSystemError::InvalidOptionsCount);
    }
    if !(deadline_hours >= 1 && deadline_hours <= 168) {
        return Err(VotingSystemError::InvalidDeadline);
    }
    if quorum_required == 0 {
        return Err(VotingSystemError::InvalidQuorum);
    }
    let mut i: usize = 0;
    while i < options.len()
        invariant
            i <= options@.len(),
            forall|j: int| 0 <= j < i ==> 1 <= (#[trigger] options@[j])@.len() <= 50,
        decreases options@.len() - i,
    {
        let olen = options[i].as_str().unicode_len();
        if !(olen >= 1 && olen <= 50) {
            proof {
                assert(!(1 <= (options@[i as int])@.len() <= 50));
            }
            return Err(VotingSystemError::OptionTooLong);
        }
        i = i + 1;
    }
    if matches!(vote_type, VoteType::Knowledge) {
        let answer_index = match correct_answer {
            Some(a) => a,
            None => {
                return Err(VotingSystemError::MissingCorrectAnswer);
            },
        };
        if !((answer_index as usize) < options.len()) {
            return Err(VotingSystemError::InvalidCorrectAnswer);
        }
    }
    let voting_fee: u64 = 10_000_000;
    let results = zero_counters(options.len());
    let weighted_results = zero_counters(options.len());
    let vote = Vote {
        community: community_key,
        creator: creator_wallet,
        question,
        vote_type,
        options,
        correct_answer,
        participants: Vec::new(),
        results,
        total_votes: 0,
        quorum_required,
        quorum_percentage: None,
        use_percentage_quorum: false,
        deadline: now + (deadline_hours as i64) * 3600,
        status: VoteStatus::Active,
        fee_per_vote: voting_fee,
        created_at: now,
        answer_hash: None,
        revealed_answer: None,
        reveal_deadline: None,
        confidence_votes_for: 0,
        confidence_votes_against: 0,
        confidence_deadline: None,
        weighted_voting_enabled: false,
        weighted_results,
    };
    community.total_votes = community.total_votes + 1;
    community.fee_collected = community.fee_collected + voting_fee;
    Ok(vote)
}

/// The first rejection `cast_vote` finds, in the order the checks run,
/// or `None` when the ballot is accepted. In particular a voter already
/// listed among the participants is turned away with `AlreadyVoted`:
/// retrying a cast can never count twice.
pub open spec fn cast_vote_error(
    vote: Vote,
    user: crate::user::User,
    membership: crate::membership::Membership,
    voter: AccountId,
    option_selected: u8,
    now: i64,
) -> Option<VotingSystemError> {
    if !(vote.status is Active) {
        Some(VotingSystemError::VoteNotActive)
    } else if now >= vote.deadline {
        Some(VotingSystemError::VoteExpired)
    } else if !((option_selected as int) < vote.options@.len()) {
        Some(VotingSystemError::InvalidOption)
    } else if !(membership.community == vote.community && membership.user == voter
        && membership.is_active) {
        Some(VotingSystemError::NotCommunityMember)
    } else if user.wallet != voter {
        Some(VotingSystemError::InvalidUser)
    } else if vote.participants@.contains(voter) {
        Some(VotingSystemError::AlreadyVoted)
    } else {
        None
    }
}

/// A user can never hold two voting records for one poll: once the voter
/// stands among the participants — as every successful cast leaves them —
/// any further cast by the same voter, whatever else holds, is rejected
/// with `AlreadyVoted` or an earlier error, never accepted.
pub proof fn lemma_cast_rejected_on_retry(
    vote: Vote,
    user: crate::user::User,
    membership: crate::membership::Membership,
    voter: AccountId,
    option_selected: u8,
    now: i64,
)
    requires
        vote.participants@.contains(voter),
    ensures
        cast_vote_error(vote, user, membership, voter, option_selected, now) is Some,
{
}

/// The reputation a cast earns: one point for voting, three more when a
/// knowledge poll's correct answer was picked.
pub open spec fn cast_gain(vote: Vote, option_selected: u8) -> u64 {
    if vote.vote_type is Knowledge && vote.correct_answer == Some(option_selected) {
        4u64
    } else {
        1u64
    }
}

/// Cast a ballot in an active poll.
///
/// The poll must be active and inside its window, the option index valid,
/// and the caller an active member of the poll's community who has not
/// voted here before — the exact rejection order is [`cast_vote_error`].
/// On success the caller joins the participants, the chosen option's
/// count grows by one (and, on a weighted poll, its weighted tally by the
/// caller's voting weight), the caller's vote count and reputation grow —
/// with the knowledge bonus when the correct option was picked — and the
/// caller's level and voting weight are rederived. If the new total meets
/// the quorum against the given roster snapshot, the poll completes in
/// the same step. The returned `Participation` is the caller's one
/// immutable voting record.
#[verifier::loop_isolation(false)]
pub fn cast_vote(
    vote: &mut Vote,
    vote_key: AccountId,
    user: &mut crate::user::User,
    membership: &crate::membership::Membership,
    voter: AccountId,
    option_selected: u8,
    total_members: u64,
    now: i64,
) -> (r: Result<Participation, VotingSystemError>)
    requires
        old(vote).wf(),
        old(user).wf(),
        old(vote).total_votes < u64::MAX / 31,
        old(user).reputation_points <= u64::MAX - 4,
        old(user).total_votes_cast < u64::MAX,
    ensures
        r matches Err(e) ==> {
            &&& *final(vote) == *old(vote)
            &&& *final(user) == *old(user)
            &&& Some(e) == cast_vote_error(*old(vote), *old(user), *membership, voter,
                option_selected, now)
        },
        r matches Ok(p) ==> {
            &&& cast_vote_error(*old(vote), *old(user), *membership, voter, option_selected,
                now) is None
            &&& p == (Participation {
                user: voter,
                vote: vote_key,
                option_selected,
                voted_at: now,
            })
            &&& final(vote).participants@ == old(vote).participants@.push(voter)
            &&& final(vote).results@ == old(vote).results@.update(
                option_selected as int,
                (old(vote).results@[option_selected as int] + 1) as u64,
            )
            &&& final(vote).weighted_results@ == (if old(vote).weighted_voting_enabled {
                old(vote).weighted_results@.update(
                    option_selected as int,
                    (old(vote).weighted_results@[option_selected as int]
                        + old(user).voting_weight) as u64,
                )
            } else {
                old(vote).weighted_results@
            })
            &&& final(vote).total_votes == old(vote).total_votes + 1
            &&& final(vote).status == (if old(vote).total_votes + 1
                >= old(vote).required_quorum_spec(total_members) {
                VoteStatus::Completed
            } else {
                VoteStatus::Active
            })
            &&& *final(vote) == (Vote {
                participants: final(vote).participants,
                results: final(vote).results,
                weighted_results: final(vote).weighted_results,
                total_votes: final(vote).total_votes,
                status: final(vote).status,
                ..*old(vote)
            })
            &&& final(vote).wf()
            &&& final(user).reputation_points == old(user).reputation_points
                + cast_gain(*old(vote), option_selected)
            &&& final(user).total_votes_cast == old(user).total_votes_cast + 1
            &&& final(user).wallet == old(user).wallet
            &&& final(user).created_at == old(user).created_at
            &&& final(user).wf()
        },
        r is Ok <==> cast_vote_error(*old(vote), *old(user), *membership, voter,
            option_selected, now) is None,
        status_step_allowed(old(vote).status, final(vote).status),
{
    if !matches!(vote.status, VoteStatus::Active) {
        return Err(VotingSystemError::VoteNotActive);
    }
    if now >= vote.deadline {
        return Err(VotingSystemError::VoteExpired);
    }
    if !((option_selected as usize) < vote.options.len()) {
        return Err(VotingSystemError::InvalidOption);
    }
    if !(membership.community == vote.community && membership.user == voter
        && membership.is_active) {
        return Err(VotingSystemError::NotCommunityMember);
    }
    if user.wallet != voter {
        return Err(VotingSystemError::InvalidUser);
    }
    let mut k: usize = 0;
    while k < vote.participants.len()
        invariant
            k <= vote.participants@.len(),
            forall|j: int| 0 <= j < k ==> vote.participants@[j] != voter,
        decreases vote.participants@.len() - k,
    {
        if vote.participants[k] == voter {
            return Err(VotingSystemError::AlreadyVoted);
        }
        k = k + 1;
    }
    assert(!old(vote).participants@.contains(voter));

    let ghost pre_vote = *vote;
    let idx = option_selected as usize;

    vote.participants.push(voter);
    proof {
        let s = pre_vote.participants@.push(voter);
        assert forall|i: int, j: int|
            0 <= i < s.len() && 0 <= j < s.len() && i != j implies s[i] != s[j] by {
            if i == s.len() - 1 {
                assert(s[j] == pre_vote.participants@[j]);
            } else if j == s.len() - 1 {
                assert(s[i] == pre_vote.participants@[i]);
            }
        }
        assert(s.no_duplicates());
    }

    proof {
        lemma_sum_elem(pre_vote.results@, idx as int);
    }
    let current = vote.results[idx];
    vote.results.set(idx, current + 1);
    proof {
        lemma_sum_update(pre_vote.results@, idx as int, (current + 1) as u64);
    }

    if vote.weighted_voting_enabled {
        proof {
            lemma_sum_elem(pre_vote.weighted_results@, idx as int);
        }
        let weight = user.voting_weight;
        assert(weight <= 30);
        let wcurrent = vote.weighted_results[idx];
        assert(wcurrent <= 30 * pre_vote.total_votes);
        vote.weighted_results.set(idx, wcurrent + weight as u64);
        proof {
            lemma_sum_update(pre_vote.weighted_results@, idx as int,
                (wcurrent + weight) as u64);
        }
    }

    vote.total_votes = vote.total_votes + 1;

    user.total_votes_cast = user.total_votes_cast + 1;
    let correct_bonus = matches!(vote.vote_type, VoteType::Knowledge)
        && match vote.correct_answer {
            Some(answer) => answer == option_selected,
            None => false,
        };
    if correct_bonus {
        user.add_reputation(4);
    } else {
        user.add_reputation(1);
    }

    if vote.has_reached_quorum(total_members) {
        vote.status = VoteStatus::Completed;
    }

    Ok(Participation { user: voter, vote: vote_key, option_selected, voted_at: now })
}

/// Mark an expired poll `Failed` for missing its quorum.
///
/// Expiry is cooperative: nothing sweeps polls in the background, so any
/// caller invokes this once the wall clock has passed the deadline. The
/// poll must still be active (`VoteNotActive`), actually expired
/// (`VoteNotExpired`), and short of quorum against the roster snapshot
/// (`VoteFailedQuorum` names the rejection when quorum was in fact met —
/// such a poll stays `Completed`-bound, never turns `Failed`).
pub fn check_and_fail_expired_vote(
    vote: &mut Vote,
    total_members: u64,
    now: i64,
) -> (r: Result<(), VotingSystemError>)
    requires
        old(vote).wf(),
    ensures
        r matches Err(e) ==> {
            &&& *final(vote) == *old(vote)
            &&& if !(old(vote).status is Active) {
                e == VotingSystemError::VoteNotActive
            } else if now < old(vote).deadline {
                e == VotingSystemError::VoteNotExpired
            } else {
                e == VotingSystemError::VoteFailedQuorum
                    && old(vote).total_votes >= old(vote).required_quorum_spec(total_members)
            }
        },
        r is Ok ==> *final(vote) == (Vote { status: VoteStatus::Failed, ..*old(vote) })
            && final(vote).wf(),
        r is Ok <==> (old(vote).status is Active && now >= old(vote).deadline
            && old(vote).total_votes < old(vote).required_quorum_spec(total_members)),
        status_step_allowed(old(vote).status, final(vote).status),
{
    if !matches!(vote.status, VoteStatus::Active) {
        return Err(VotingSystemError::VoteNotActive);
    }
    if !vote.is_expired(now) {
        return Err(VotingSystemError::VoteNotExpired);
    }
    if vote.has_reached_quorum(total_members) {
        return Err(VotingSystemError::VoteFailedQuorum);
    }
    vote.status = VoteStatus::Failed;
    Ok(())
}

/// A moderator force-closes an active poll, cancelling it and logging the
/// action.
///
/// Only an active moderator or admin of the poll's community may close
/// (`InsufficientPermissions`, then `InvalidCommunity` on a membership of
/// another community); the poll must be active (`VoteNotActive`) and the
/// reason at most 200 characters (`ReasonTooLong`). Nothing changes on
/// error.
pub fn force_close_vote(
    vote: &mut Vote,
    vote_key: AccountId,
    moderator_membership: &crate::membership::Membership,
    reason: String,
    now: i64,
) -> (r: Result<crate::membership::ModerationLog, VotingSystemError>)
    requires
        old(vote).wf(),
    ensures
        r matches Err(e) ==> {
            &&& *final(vote) == *old(vote)
            &&& if !(old(vote).status is Active) {
                e == VotingSystemError::VoteNotActive
            } else if !moderator_membership.can_moderate() {
                e == VotingSystemError::InsufficientPermissions
            } else if moderator_membership.community != old(vote).community {
                e == VotingSystemError::InvalidCommunity
            } else {
                e == VotingSystemError::ReasonTooLong && reason@.len() > 200
            }
        },
        r matches Ok(log) ==> {
            &&& *final(vote) == (Vote { status: VoteStatus::Cancelled, ..*old(vote) })
            &&& final(vote).wf()
            &&& log.community == old(vote).community
            &&& log.moderator == moderator_membership.user
            &&& log.target_user is None
            &&& log.target_vote == Some(vote_key)
            &&& log.action == crate::membership::ModerationAction::CloseVote
            &&& log.reason == reason
            &&& log.executed_at == now
        },
        r is Ok <==> (old(vote).status is Active && moderator_membership.can_moderate()
            && moderator_membership.community == old(vote).community
            && reason@.len() <= 200),
        status_step_allowed(old(vote).status, final(vote).status),
{
    if !matches!(vote.status, VoteStatus::Active) {
        return Err(VotingSystemError::VoteNotActive);
    }
    if !moderator_membership.can_moderate() {
        return Err(VotingSystemError::InsufficientPermissions);
    }
    if moderator_membership.community != vote.community {
        return Err(VotingSystemError::InvalidCommunity);
    }
    if reason.as_str().unicode_len() > 200 {
        return Err(VotingSystemError::ReasonTooLong);
    }
    vote.status = VoteStatus::Cancelled;
    let log = crate::membership::ModerationLog::new(
        vote.community,
        moderator_membership.user,
        None,
        Some(vote_key),
        crate::membership::ModerationAction::CloseVote,
        reason,
        now,
    );
    Ok(log)
}

/// The creator reveals the committed answer of a completed knowledge
/// poll, opening a day of confidence voting.
///
/// The poll must be completed (`VoteNotCompleted`) and the caller its
/// creator (`InsufficientPermissions`); only knowledge polls reveal
/// (`InvalidVoteType`), and only ones created with a commitment
/// (`NoAnswerHashStored`). The revealed text's SHA-256 must equal the
/// stored commitment (`InvalidAnswerHash`), and the reveal window must
/// still be open (`RevealDeadlineExpired`). On success the text is
/// recorded and the poll enters `ConfidenceVoting` until a day from now.
pub fn reveal_correct_answer(
    vote: &mut Vote,
    caller: AccountId,
    answer: String,
    now: i64,
) -> (r: Result<(), VotingSystemError>)
    requires
        old(vote).wf(),
        now <= i64::MAX - 86400,
    ensures
        r matches Err(e) ==> {
            &&& *final(vote) == *old(vote)
            &&& if !(old(vote).status is Completed) {
                e == VotingSystemError::VoteNotCompleted
            } else if old(vote).creator != caller {
                e == VotingSystemError::InsufficientPermissions
            } else if !(old(vote).vote_type is Knowledge) {
                e == VotingSystemError::InvalidVoteType
            } else if old(vote).answer_hash is None {
                e == VotingSystemError::NoAnswerHashStored
            } else if (old(vote).answer_hash matches Some(h)
                && h@ != crate::digest::sha256_of_text(answer@)) {
                e == VotingSystemError::InvalidAnswerHash
            } else {
                e == VotingSystemError::RevealDeadlineExpired
                    && (old(vote).reveal_deadline matches Some(d) && now > d)
            }
        },
        r is Ok ==> {
            &&& (old(vote).answer_hash matches Some(h)
                && h@ == crate::digest::sha256_of_text(answer@))
            &&& (old(vote).reveal_deadline matches Some(d) ==> now <= d)
            &&& final(vote).revealed_answer == Some(answer)
            &&& final(vote).confidence_deadline == Some((now + 86400) as i64)
            &&& *final(vote) == (Vote {
                revealed_answer: Some(answer),
                status: VoteStatus::ConfidenceVoting,
                confidence_deadline: Some((now + 86400) as i64),
                ..*old(vote)
            })
            &&& final(vote).wf()
        },
        r is Ok <==> (old(vote).status is Completed && old(vote).creator == caller
            && old(vote).vote_type is Knowledge
            && (old(vote).answer_hash matches Some(h)
                && h@ == crate::digest::sha256_of_text(answer@))
            && (old(vote).reveal_deadline matches Some(d) ==> now <= d)),
        status_step_allowed(old(vote).status, final(vote).status),
{
    if !matches!(vote.status, VoteStatus::Completed) {
        return Err(VotingSystemError::VoteNotCompleted);
    }
    if vote.creator != caller {
        return Err(VotingSystemError::InsufficientPermissions);
    }
    if !matches!(vote.vote_type, VoteType::Knowledge) {
        return Err(VotingSystemError::InvalidVoteType);
    }
    let hash_matches: bool = match &vote.answer_hash {
        None => {
            return Err(VotingSystemError::NoAnswerHashStored);
        },
        Some(stored) => {
            let answer_hash = crate::digest::hash_text(answer.as_str());
            crate::digest::bytes_eq(stored, &answer_hash)
        },
    };
    if !hash_matches {
        return Err(VotingSystemError::InvalidAnswerHash);
    }
    match vote.reveal_deadline {
        Some(deadline) => {
            if now > deadline {
                return Err(VotingSystemError::RevealDeadlineExpired);
            }
        },
        None => {},
    }
    vote.revealed_answer = Some(answer);
    vote.status = VoteStatus::ConfidenceVoting;
    vote.confidence_deadline = Some(now + 86400);
    Ok(())
}

/// One member's confidence ballot on a revealed answer: for or against.
///
/// The poll must be in its confidence window (`NotInConfidencePhase`,
/// `ConfidenceDeadlineExpired`) and a knowledge poll (`InvalidVoteType`);
/// the caller needs an active membership of the poll's community
/// (`InvalidCommunity`, `NotCommunityMember`) matching the given profile
/// (`InvalidUser`). A ballot in favour raises the caller's reputation by
/// two; one against lowers it by two when the caller has that much, and
/// otherwise leaves it alone. Level and weight are rederived either way.
pub fn vote_confidence(
    vote: &mut Vote,
    user: &mut crate::user::User,
    membership: &crate::membership::Membership,
    is_confident: bool,
    now: i64,
) -> (r: Result<(), VotingSystemError>)
    requires
        old(vote).wf(),
        old(user).wf(),
        old(user).reputation_points <= u64::MAX - 2,
        old(vote).confidence_votes_for < u32::MAX,
        old(vote).confidence_votes_against < u32::MAX,
    ensures
        r matches Err(e) ==> {
            &&& *final(vote) == *old(vote)
            &&& *final(user) == *old(user)
            &&& if !(old(vote).status is ConfidenceVoting) {
                e == VotingSystemError::NotInConfidencePhase
            } else if !(old(vote).vote_type is Knowledge) {
                e == VotingSystemError::InvalidVoteType
            } else if membership.community != old(vote).community {
                e == VotingSystemError::InvalidCommunity
            } else if !membership.is_active {
                e == VotingSystemError::NotCommunityMember
            } else if membership.user != old(user).wallet {
                e == VotingSystemError::InvalidUser
            } else {
                e == VotingSystemError::ConfidenceDeadlineExpired
                    && (old(vote).confidence_deadline matches Some(d) && now > d)
            }
        },
        r is Ok ==> {
            &&& *final(vote) == (Vote {
                confidence_votes_for: if is_confident {
                    (old(vote).confidence_votes_for + 1) as u32
                } else {
                    old(vote).confidence_votes_for
                },
                confidence_votes_against: if is_confident {
                    old(vote).confidence_votes_against
                } else {
                    (old(vote).confidence_votes_against + 1) as u32
                },
                ..*old(vote)
            })
            &&& final(vote).wf()
            &&& final(user).reputation_points == (if is_confident {
                old(user).reputation_points + 2
            } else if old(user).reputation_points >= 2 {
                old(user).reputation_points - 2
            } else {
                old(user).reputation_points as int
            })
            &&& final(user).wallet == old(user).wallet
            &&& final(user).total_votes_cast == old(user).total_votes_cast
            &&& final(user).wf()
        },
        r is Ok <==> (old(vote).status is ConfidenceVoting
            && old(vote).vote_type is Knowledge
            && membership.community == old(vote).community
            && membership.is_active
            && membership.user == old(user).wallet
            && (old(vote).confidence_deadline matches Some(d) ==> now <= d)),
        status_step_allowed(old(vote).status, final(vote).status),
{
    if !matches!(vote.status, VoteStatus::ConfidenceVoting) {
        return Err(VotingSystemError::NotInConfidencePhase);
    }
    if !matches!(vote.vote_type, VoteType::Knowledge) {
        return Err(VotingSystemError::InvalidVoteType);
    }
    if membership.community != vote.community {
        return Err(VotingSystemError::InvalidCommunity);
    }
    if !membership.is_active {
        return Err(VotingSystemError::NotCommunityMember);
    }
    if membership.user != user.wallet {
        return Err(VotingSystemError::InvalidUser);
    }
    match vote.confidence_deadline {
        Some(deadline) => {
            if now > deadline {
                return Err(VotingSystemError::ConfidenceDeadlineExpired);
            }
        },
        None => {},
    }
    if is_confident {
        user.add_reputation(2);
        vote.confidence_votes_for = vote.confidence_votes_for + 1;
    } else {
        if user.reputation_points >= 2 {
            user.cut_reputation(2);
        }
        vote.confidence_votes_against = vote.confidence_votes_against + 1;
    }
    Ok(())
}

/// Whether the community validated the revealed answer: the ballots in
/// favour reach sixty percent of all confidence ballots cast.
pub open spec fn answer_validated(votes_for: u32, votes_against: u32) -> bool {
    votes_for >= (votes_for + votes_against) * 60 / 100
}

/// Close the confidence window and settle the creator's reputation.
///
/// The poll must be in its confidence phase (`NotInConfidencePhase`), the
/// profile the creator's (`InvalidUser`), the poll a knowledge poll
/// (`InvalidVoteType`), and the window over (`ConfidenceVotingStillActive`).
/// The poll returns to `Completed` for good. A validated answer earns the
/// creator ten reputation; a questioned one costs five, floored at zero.
/// Level and weight are rederived.
pub fn finalize_confidence_voting(
    vote: &mut Vote,
    creator_user: &mut crate::user::User,
    now: i64,
) -> (r: Result<(), VotingSystemError>)
    requires
        old(vote).wf(),
        old(creator_user).wf(),
        old(creator_user).reputation_points <= u64::MAX - 10,
        old(vote).confidence_votes_for + old(vote).confidence_votes_against <= u32::MAX,
    ensures
        r matches Err(e) ==> {
            &&& *final(vote) == *old(vote)
            &&& *final(creator_user) == *old(creator_user)
            &&& if !(old(vote).status is ConfidenceVoting) {
                e == VotingSystemError::NotInConfidencePhase
            } else if old(creator_user).wallet != old(vote).creator {
                e == VotingSystemError::InvalidUser
            } else if !(old(vote).vote_type is Knowledge) {
                e == VotingSystemError::InvalidVoteType
            } else {
                e == VotingSystemError::ConfidenceVotingStillActive
                    && (old(vote).confidence_deadline matches Some(d) && now <= d)
            }
        },
        r is Ok ==> {
            &&& *final(vote) == (Vote { status: VoteStatus::Completed, ..*old(vote) })
            &&& final(vote).wf()
            &&& final(creator_user).reputation_points == (if answer_validated(
                old(vote).confidence_votes_for, old(vote).confidence_votes_against) {
                old(creator_user).reputation_points + 10
            } else if old(creator_user).reputation_points >= 5 {
                old(creator_user).reputation_points - 5
            } else {
                0int
            })
            &&& final(creator_user).wallet == old(creator_user).wallet
            &&& final(creator_user).total_votes_cast == old(creator_user).total_votes_cast
            &&& final(creator_user).wf()
        },
        r is Ok <==> (old(vote).status is ConfidenceVoting
            && old(creator_user).wallet == old(vote).creator
            && old(vote).vote_type is Knowledge
            && (old(vote).confidence_deadline matches Some(d) ==> now > d)),
        status_step_allowed(old(vote).status, final(vote).status),
{
    if !matches!(vote.status, VoteStatus::ConfidenceVoting) {
        return Err(VotingSystemError::NotInConfidencePhase);
    }
    if creator_user.wallet != vote.creator {
        return Err(VotingSystemError::InvalidUser);
    }
    if !matches!(vote.vote_type, VoteType::Knowledge) {
        return Err(VotingSystemError::InvalidVoteType);
    }
    match vote.confidence_deadline {
        Some(deadline) => {
            if now <= deadline {
                return Err(VotingSystemError::ConfidenceVotingStillActive);
            }
        },
        None => {},
    }
    let total_confidence_votes: u32 = vote.confidence_votes_for + vote.confidence_votes_against;
    let threshold: u64 = (total_confidence_votes as u64) * 60 / 100;
    let is_answer_validated = (vote.confidence_votes_for as u64) >= threshold;
    vote.status = VoteStatus::Completed;
    if is_answer_validated {
        creator_user.add_reputation(10);
    } else {
        creator_user.cut_reputation(5);
    }
    Ok(())
}

} // verus!
