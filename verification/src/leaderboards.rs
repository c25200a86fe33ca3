//! Best-effort derived rankings: a global top-five by reputation and a
//! per-community top-three by activity. Nothing authoritative depends on
//! them.

use vstd::prelude::*;
use crate::community::Community;
use crate::errors::VotingSystemError;
use crate::membership::Membership;
use crate::user::{AccountId, User};

verus! {

broadcast use vstd::seq_lib::group_to_multiset_ensures;

/// One ranked user, as captured at the last update.
#[derive(Clone, Copy, PartialEq, Eq, Structural, Debug)]
pub struct LeaderboardEntry {
    pub user: AccountId,
    pub reputation_points: u64,
    pub level: u32,
    /// Voting weight in tenths, as on the profile.
    pub voting_weight: u32,
    pub total_votes_cast: u64,
    pub total_votations_created: u64,
    /// Position in the ranking, 1 for the top entry.
    pub rank: u8,
}

/// The platform-wide top five by reputation.
#[derive(Debug)]
pub struct GlobalLeaderboard {
    pub top_users: Vec<LeaderboardEntry>,
    pub last_updated: i64,
    /// How many profile updates were counted in.
    pub total_users: u64,
    /// Sum of the reputation counted in.
    pub total_reputation: u64,
    /// The only account allowed to push updates.
    pub update_authority: AccountId,
}

/// One community's top three by votes cast.
#[derive(Debug)]
pub struct CommunityLeaderboard {
    pub community: AccountId,
    pub top_users: Vec<LeaderboardEntry>,
    pub last_updated: i64,
    pub total_votes_cast: u64,
    pub total_votations_created: u64,
    pub most_active_user: AccountId,
}

/// The ordering key: votes cast for community rankings, reputation for
/// the global one.
pub open spec fn entry_key(e: LeaderboardEntry, by_votes: bool) -> u64 {
    if by_votes {
        e.total_votes_cast
    } else {
        e.reputation_points
    }
}

/// Descending by the chosen key.
pub open spec fn sorted_desc(s: Seq<LeaderboardEntry>, by_votes: bool) -> bool {
    forall|i: int, j: int| 0 <= i < j < s.len()
        ==> entry_key(#[trigger] s[i], by_votes) >= entry_key(#[trigger] s[j], by_votes)
}

/// An entry with its rank normalized away, for comparisons across a
/// re-ranking.
pub open spec fn entry_core(e: LeaderboardEntry) -> LeaderboardEntry {
    LeaderboardEntry { rank: 0, ..e }
}

/// Sort entries descending by the chosen key, by repeatedly extracting a
/// maximum; the result is a permutation of the input.
fn sort_entries_desc(entries: Vec<LeaderboardEntry>, by_votes: bool) -> (out: Vec<
    LeaderboardEntry>)
    ensures
        out@.len() == entries@.len(),
        out@.to_multiset() == entries@.to_multiset(),
        sorted_desc(out@, by_votes),
{
    let mut src = entries;
    let mut out: Vec<LeaderboardEntry> = Vec::new();
    proof {
        assert(out@.to_multiset().add(src@.to_multiset()) =~= entries@.to_multiset());
    }
    while src.len() > 0
        invariant
            out@.to_multiset().add(src@.to_multiset()) == entries@.to_multiset(),
            out@.len() + src@.len() == entries@.len(),
            sorted_desc(out@, by_votes),
            forall|i: int, j: int| 0 <= i < out@.len() && 0 <= j < src@.len()
                ==> entry_key(#[trigger] out@[i], by_votes)
                    >= entry_key(#[trigger] src@[j], by_votes),
        decreases src@.len(),
    {
        let mut m: usize = 0;
        let mut k: usize = 1;
        while k < src.len()
            invariant
                m < k <= src@.len(),
                src@.len() > 0,
                forall|t: int| 0 <= t < k
                    ==> entry_key(src@[m as int], by_votes)
                        >= entry_key(#[trigger] src@[t], by_votes),
            decreases src@.len() - k,
        {
            let km = if by_votes {
                src[m].total_votes_cast
            } else {
                src[m].reputation_points
            };
            let kk = if by_votes {
                src[k].total_votes_cast
            } else {
                src[k].reputation_points
            };
            if kk > km {
                m = k;
            }
            k = k + 1;
        }
        let ghost pre_src = src@;
        let ghost pre_out = out@;
        let e = src.remove(m);
        out.push(e);
        proof {
            assert(pre_src.remove(m as int).to_multiset() =~= pre_src.to_multiset().remove(e));
            assert(pre_out.push(e).to_multiset() =~= pre_out.to_multiset().insert(e));
            assert(pre_src.to_multiset().count(e) > 0);
            assert(out@.to_multiset().add(src@.to_multiset()) =~= entries@.to_multiset());
        }
    }
    out
}

/// Find a user's position among the entries, scanning from the front.
fn position_of_user(entries: &Vec<LeaderboardEntry>, user: AccountId) -> (pos: Option<usize>)
    ensures
        pos matches Some(i) ==> i < entries@.len() && entries@[i as int].user == user,
        pos is None ==> forall|i: int| 0 <= i < entries@.len()
            ==> (#[trigger] entries@[i]).user != user,
{
    let mut i: usize = 0;
    while i < entries.len()
        invariant
            i <= entries@.len(),
            forall|j: int| 0 <= j < i ==> (#[trigger] entries@[j]).user != user,
        decreases entries@.len() - i,
    {
        if entries[i].user == user {
            return Some(i);
        }
        i = i + 1;
    }
    None
}

/// Re-rank a sorted list: the entry at position `i` gets rank `i + 1`.
fn assign_ranks(entries: &mut Vec<LeaderboardEntry>, by_votes: bool)
    requires
        old(entries)@.len() <= 255,
        sorted_desc(old(entries)@, by_votes),
    ensures
        final(entries)@.len() == old(entries)@.len(),
        sorted_desc(final(entries)@, by_votes),
        forall|i: int| 0 <= i < final(entries)@.len()
            ==> (#[trigger] final(entries)@[i]).rank == i + 1,
        forall|i: int| 0 <= i < final(entries)@.len()
            ==> entry_core(#[trigger] final(entries)@[i]) == entry_core(old(entries)@[i]),
{
    let n = entries.len();
    let mut i: usize = 0;
    while i < n
        invariant
            i <= n,
            n == entries@.len() == old(entries)@.len(),
            n <= 255,
            forall|j: int| 0 <= j < i ==> (#[trigger] entries@[j]).rank == j + 1,
            forall|j: int| 0 <= j < n
                ==> entry_core(#[trigger] entries@[j]) == entry_core(old(entries)@[j]),
            forall|j: int| i <= j < n
                ==> #[trigger] entries@[j] == old(entries)@[j],
        decreases n - i,
    {
        let mut e = entries[i];
        e.rank = (i + 1) as u8;
        entries.set(i, e);
        i = i + 1;
    }
    proof {
        assert forall|a: int, b: int| 0 <= a < b < final(entries)@.len() implies entry_key(
            final(entries)@[a], by_votes) >= entry_key(final(entries)@[b], by_votes) by {
            assert(entry_core(final(entries)@[a]) == entry_core(old(entries)@[a]));
            assert(entry_core(final(entries)@[b]) == entry_core(old(entries)@[b]));
        }
    }
}

/// The pool an update ranks over: the old entries with the user's entry
/// replaced in place, or appended when the user was not listed.
pub open spec fn has_user(s: Seq<LeaderboardEntry>, user: AccountId) -> bool {
    exists|i: int| 0 <= i < s.len() && s[i].user == user
}

/// Every entry of `s`, rank aside, is the fresh entry or one of the old
/// ones.
pub open spec fn entries_from(
    s: Seq<LeaderboardEntry>,
    older: Seq<LeaderboardEntry>,
    fresh: LeaderboardEntry,
) -> bool {
    forall|i: int| 0 <= i < s.len() ==> (entry_core(#[trigger] s[i]) == entry_core(fresh)
        || exists|j: int| 0 <= j < older.len() && entry_core(s[i]) == entry_core(older[j]))
}

/// Replace-or-append the user's entry, sort descending, keep the best
/// `cap`, re-rank.
fn rank_update(
    entries: &mut Vec<LeaderboardEntry>,
    user: AccountId,
    entry: LeaderboardEntry,
    by_votes: bool,
    cap: usize,
) -> (kept: usize)
    requires
        1 <= cap <= 255,
    ensures
        kept == final(entries)@.len(),
        final(entries)@.len() == vstd::math::min(
            old(entries)@.len() as int + (if has_user(old(entries)@, user) { 0int } else { 1int }),
            cap as int,
        ),
        sorted_desc(final(entries)@, by_votes),
        forall|i: int| 0 <= i < final(entries)@.len()
            ==> (#[trigger] final(entries)@[i]).rank == i + 1,
        entries_from(final(entries)@, old(entries)@, entry),
{
    let ghost older = entries@;
    match position_of_user(entries, user) {
        Some(pos) => {
            entries.set(pos, entry);
        },
        None => {
            entries.push(entry);
        },
    }
    assert(entries_from(entries@, older, entry));
    let ghost pooled = entries@;
    let mut pool: Vec<LeaderboardEntry> = Vec::new();
    core::mem::swap(entries, &mut pool);
    let mut sorted = sort_entries_desc(pool, by_votes);
    proof {
        assert forall|i: int| 0 <= i < sorted@.len() implies (
            entry_core(sorted@[i]) == entry_core(entry)
            || exists|j: int| 0 <= j < older.len()
                && entry_core(sorted@[i]) == entry_core(older[j])) by {
            assert(sorted@.to_multiset().count(sorted@[i]) > 0);
            assert(pooled.to_multiset().count(sorted@[i]) > 0);
            assert(pooled.contains(sorted@[i]));
            let w = choose|w: int| 0 <= w < pooled.len() && pooled[w] == sorted@[i];
            assert(entry_core(pooled[w]) == entry_core(entry) || exists|j: int|
                0 <= j < older.len() && entry_core(pooled[w]) == entry_core(older[j]));
        }
    }
    if sorted.len() > cap {
        sorted.truncate(cap);
    }
    assign_ranks(&mut sorted, by_votes);
    let kept = sorted.len();
    *entries = sorted;
    kept
}

impl LeaderboardEntry {
    /// Capture a profile as a ranking entry; the rank is assigned when
    /// the ranking is rebuilt.
    pub fn from_user_data(
        user: AccountId,
        reputation_points: u64,
        level: u32,
        voting_weight: u32,
        total_votes_cast: u64,
        total_votations_created: u64,
    ) -> (e: LeaderboardEntry)
        ensures
            e == (LeaderboardEntry {
                user,
                reputation_points,
                level,
                voting_weight,
                total_votes_cast,
                total_votations_created,
                rank: 0,
            }),
    {
        LeaderboardEntry {
            user,
            reputation_points,
            level,
            voting_weight,
            total_votes_cast,
            total_votations_created,
            rank: 0,
        }
    }

    /// A combined score: the reputation, a tenth of a point per vote
    /// cast and half a point per poll created, rounded down and capped
    /// at the counter's range.
    pub fn calculate_score(&self) -> (score: u64)
        ensures
            score == vstd::math::min(
                self.reputation_points + self.total_votes_cast / 10
                    + self.total_votations_created / 2,
                u64::MAX as int,
            ),
    {
        let wide: u128 = self.reputation_points as u128 + (self.total_votes_cast / 10) as u128
            + (self.total_votations_created / 2) as u128;
        if wide > u64::MAX as u128 {
            u64::MAX
        } else {
            wide as u64
        }
    }
}

impl GlobalLeaderboard {
    /// An empty global ranking controlled by the given authority.
    pub fn initialize_global_leaderboard(update_authority: AccountId, now: i64) -> (board:
        GlobalLeaderboard)
        ensures
            board.top_users@.len() == 0,
            board.last_updated == now,
            board.total_users == 0,
            board.total_reputation == 0,
            board.update_authority == update_authority,
    {
        GlobalLeaderboard {
            top_users: Vec::new(),
            last_updated: now,
            total_users: 0,
            total_reputation: 0,
            update_authority,
        }
    }

    /// Whether an hour has passed since the last rebuild.
    pub fn needs_update(&self, current_timestamp: i64) -> (stale: bool)
        ensures
            stale == (current_timestamp - self.last_updated >= 3600),
    {
        (current_timestamp as i128) - (self.last_updated as i128) >= 3600
    }

    /// Replace or add the user's entry, keep the five highest by
    /// reputation, and re-rank them 1 to 5.
    pub fn update_user_ranking(&mut self, user: AccountId, entry: LeaderboardEntry)
        ensures
            final(self).top_users@.len() == vstd::math::min(
                old(self).top_users@.len() as int
                    + (if has_user(old(self).top_users@, user) { 0int } else { 1int }),
                5,
            ),
            sorted_desc(final(self).top_users@, false),
            forall|i: int| 0 <= i < final(self).top_users@.len()
                ==> (#[trigger] final(self).top_users@[i]).rank == i + 1,
            entries_from(final(self).top_users@, old(self).top_users@, entry),
            *final(self) == (GlobalLeaderboard {
                top_users: final(self).top_users,
                ..*old(self)
            }),
    {
        rank_update(&mut self.top_users, user, entry, false, 5);
    }
}

impl CommunityLeaderboard {
    /// An empty community ranking.
    pub fn initialize_community_leaderboard(community: AccountId, now: i64) -> (board:
        CommunityLeaderboard)
        ensures
            board.community == community,
            board.top_users@.len() == 0,
            board.last_updated == now,
            board.total_votes_cast == 0,
            board.total_votations_created == 0,
            board.most_active_user == 0,
    {
        CommunityLeaderboard {
            community,
            top_users: Vec::new(),
            last_updated: now,
            total_votes_cast: 0,
            total_votations_created: 0,
            most_active_user: 0,
        }
    }

    /// Whether half an hour has passed since the last rebuild.
    pub fn needs_update(&self, current_timestamp: i64) -> (stale: bool)
        ensures
            stale == (current_timestamp - self.last_updated >= 1800),
    {
        (current_timestamp as i128) - (self.last_updated as i128) >= 1800
    }

    /// Replace or add the user's entry, keep the three most active by
    /// votes cast, re-rank them, and record the most active user.
    pub fn update_user_ranking(&mut self, user: AccountId, entry: LeaderboardEntry)
        ensures
            final(self).top_users@.len() == vstd::math::min(
                old(self).top_users@.len() as int
                    + (if has_user(old(self).top_users@, user) { 0int } else { 1int }),
                3,
            ),
            sorted_desc(final(self).top_users@, true),
            forall|i: int| 0 <= i < final(self).top_users@.len()
                ==> (#[trigger] final(self).top_users@[i]).rank == i + 1,
            entries_from(final(self).top_users@, old(self).top_users@, entry),
            final(self).top_users@.len() > 0
                ==> final(self).most_active_user == final(self).top_users@[0].user,
            *final(self) == (CommunityLeaderboard {
                top_users: final(self).top_users,
                most_active_user: final(self).most_active_user,
                ..*old(self)
            }),
    {
        let kept = rank_update(&mut self.top_users, user, entry, true, 3);
        if kept > 0 {
            self.most_active_user = self.top_users[0].user;
        }
    }
}

/// Rebuild the global ranking with a user's current profile.
///
/// Only the board's update authority may push updates
/// (`InsufficientPermissions`); the running totals then count the profile
/// in and the clock restarts.
pub fn update_global_leaderboard(
    leaderboard: &mut GlobalLeaderboard,
    user: &User,
    authority: AccountId,
    now: i64,
) -> (r: Result<(), VotingSystemError>)
    requires
        old(leaderboard).total_users < u64::MAX,
        old(leaderboard).total_reputation + user.reputation_points <= u64::MAX,
    ensures
        r matches Err(e) ==> {
            &&& *final(leaderboard) == *old(leaderboard)
            &&& e == VotingSystemError::InsufficientPermissions
            &&& authority != old(leaderboard).update_authority
        },
        r is Ok ==> {
            &&& final(leaderboard).last_updated == now
            &&& final(leaderboard).total_users == old(leaderboard).total_users + 1
            &&& final(leaderboard).total_reputation == old(leaderboard).total_reputation
                + user.reputation_points
            &&& final(leaderboard).update_authority == old(leaderboard).update_authority
            &&& sorted_desc(final(leaderboard).top_users@, false)
            &&& entries_from(final(leaderboard).top_users@, old(leaderboard).top_users@,
                LeaderboardEntry {
                    user: user.wallet,
                    reputation_points: user.reputation_points,
                    level: user.level,
                    voting_weight: user.voting_weight,
                    total_votes_cast: user.total_votes_cast,
                    total_votations_created: 0,
                    rank: 0,
                })
            &&& final(leaderboard).top_users@.len() <= 5
        },
        r is Ok <==> authority == old(leaderboard).update_authority,
{
    if authority != leaderboard.update_authority {
        return Err(VotingSystemError::InsufficientPermissions);
    }
    let entry = LeaderboardEntry::from_user_data(
        user.wallet,
        user.reputation_points,
        user.level,
        user.voting_weight,
        user.total_votes_cast,
        0,
    );
    leaderboard.update_user_ranking(user.wallet, entry);
    leaderboard.last_updated = now;
    leaderboard.total_users = leaderboard.total_users + 1;
    leaderboard.total_reputation = leaderboard.total_reputation + user.reputation_points;
    Ok(())
}

/// Rebuild a community's ranking with a member's current profile.
///
/// The membership must belong to this community (`InvalidCommunity`), to
/// this user (`InvalidUser`), and be active (`NotCommunityMember`); the
/// board then mirrors the community's vote total and restarts its clock.
pub fn update_community_leaderboard(
    leaderboard: &mut CommunityLeaderboard,
    community: &Community,
    community_key: AccountId,
    user: &User,
    membership: &Membership,
    now: i64,
) -> (r: Result<(), VotingSystemError>)
    ensures
        r matches Err(e) ==> {
            &&& *final(leaderboard) == *old(leaderboard)
            &&& if membership.community != community_key {
                e == VotingSystemError::InvalidCommunity
            } else if membership.user != user.wallet {
                e == VotingSystemError::InvalidUser
            } else {
                e == VotingSystemError::NotCommunityMember && !membership.is_active
            }
        },
        r is Ok ==> {
            &&& final(leaderboard).last_updated == now
            &&& final(leaderboard).total_votes_cast == community.total_votes
            &&& final(leaderboard).community == old(leaderboard).community
            &&& sorted_desc(final(leaderboard).top_users@, true)
            &&& final(leaderboard).top_users@.len() <= 3
            &&& (final(leaderboard).top_users@.len() > 0
                ==> final(leaderboard).most_active_user
                    == final(leaderboard).top_users@[0].user)
        },
        r is Ok <==> (membership.community == community_key && membership.user == user.wallet
            && membership.is_active),
{
    if membership.community != community_key {
        return Err(VotingSystemError::InvalidCommunity);
    }
    if membership.user != user.wallet {
        return Err(VotingSystemError::InvalidUser);
    }
    if !membership.is_active {
        return Err(VotingSystemError::NotCommunityMember);
    }
    let entry = LeaderboardEntry::from_user_data(
        user.wallet,
        user.reputation_points,
        user.level,
        user.voting_weight,
        user.total_votes_cast,
        0,
    );
    leaderboard.update_user_ranking(user.wallet, entry);
    leaderboard.last_updated = now;
    leaderboard.total_votes_cast = community.total_votes;
    Ok(())
}

} // verus!
