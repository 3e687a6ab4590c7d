use vstd::prelude::*;
use vstd::arithmetic::div_mod::lemma_fundamental_div_mod_converse;
use crate::error::ErrorCode;
use crate::key::Pubkey;

verus! {

/// Reputation band, ordered Newbie < Regular < Veteran < Legend.
#[derive(Debug, Clone, Copy, PartialEq, Eq, Structural)]
pub enum ReputationTier {
    Newbie,
    Regular,
    Veteran,
    Legend,
}

impl ReputationTier {
    /// Ordinal rank of the tier, compared with a campaign's `min_reputation`.
    pub open spec fn rank(self) -> int {
        match self {
            ReputationTier::Newbie => 0,
            ReputationTier::Regular => 1,
            ReputationTier::Veteran => 2,
            ReputationTier::Legend => 3,
        }
    }

    pub fn ordinal(&self) -> (r: u64)
        ensures
            r == self.rank(),
    {
        match self {
            ReputationTier::Newbie => 0,
            ReputationTier::Regular => 1,
            ReputationTier::Veteran => 2,
            ReputationTier::Legend => 3,
        }
    }
}

/// The band of a score: 0-99, 100-299, 300-499, 500 and up.
pub open spec fn tier_for(score: int) -> ReputationTier {
    if score <= 99 {
        ReputationTier::Newbie
    } else if score <= 299 {
        ReputationTier::Regular
    } else if score <= 499 {
        ReputationTier::Veteran
    } else {
        ReputationTier::Legend
    }
}

pub fn tier_from_score(score: u32) -> (t: ReputationTier)
    ensures
        t == tier_for(score as int),
{
    if score <= 99 {
        ReputationTier::Newbie
    } else if score <= 299 {
        ReputationTier::Regular
    } else if score <= 499 {
        ReputationTier::Veteran
    } else {
        ReputationTier::Legend
    }
}

/// One voter's reputation across all campaigns.
#[derive(Debug, Clone, Copy)]
pub struct UserReputation {
    pub user: Pubkey,
    pub total_votes: u32,
    pub current_streak: u32,
    pub longest_streak: u32,
    pub last_vote_timestamp: i64,
    pub reputation_score: u32,
    pub tier: ReputationTier,
    pub bump: u8,
}

/// The day bucket of a unix timestamp: `floor(t / 86400)`.
pub open spec fn day(t: int) -> int {
    t / 86400
}

/// Whether the record has no earlier vote on it.
pub open spec fn is_first_vote(r: UserReputation) -> bool {
    day(r.last_vote_timestamp as int) == 0
}

pub open spec fn is_next_day(r: UserReputation, now: int) -> bool {
    !is_first_vote(r) && day(now) == day(r.last_vote_timestamp as int) + 1
}

pub open spec fn is_later_day(r: UserReputation, now: int) -> bool {
    !is_first_vote(r) && day(now) > day(r.last_vote_timestamp as int) + 1
}

/// The streak after a vote at `now`.
pub open spec fn streak_after(r: UserReputation, now: int) -> int {
    if is_first_vote(r) || is_later_day(r, now) {
        1
    } else if is_next_day(r, now) {
        r.current_streak + 1
    } else {
        r.current_streak as int
    }
}

/// Points earned by a vote at `now`, milestone bonuses included.
pub open spec fn score_gain(r: UserReputation, now: int) -> int {
    if is_first_vote(r) || is_later_day(r, now) {
        10
    } else if is_next_day(r, now) {
        15 + if r.current_streak + 1 == 7 {
            50int
        } else if r.current_streak + 1 == 30 {
            200int
        } else {
            0int
        }
    } else {
        5
    }
}

/// The longest streak after a vote at `now`: only a consecutive day extends it.
pub open spec fn longest_after(r: UserReputation, now: int) -> int {
    if is_next_day(r, now) && r.current_streak + 1 > r.longest_streak {
        r.current_streak + 1
    } else {
        r.longest_streak as int
    }
}

/// Whether every counter of the updated record fits its type.
pub open spec fn step_fits(r: UserReputation, now: int) -> bool {
    &&& r.total_votes + 1 <= u32::MAX
    &&& streak_after(r, now) <= u32::MAX
    &&& r.reputation_score + score_gain(r, now) <= u32::MAX
}

/// The record after one vote at `now`, where `step_fits` holds.
pub open spec fn stepped(r: UserReputation, now: i64) -> UserReputation {
    UserReputation {
        user: r.user,
        total_votes: (r.total_votes + 1) as u32,
        current_streak: streak_after(r, now as int) as u32,
        longest_streak: longest_after(r, now as int) as u32,
        last_vote_timestamp: now,
        reputation_score: (r.reputation_score + score_gain(r, now as int)) as u32,
        tier: tier_for(r.reputation_score + score_gain(r, now as int)),
        bump: r.bump,
    }
}

impl UserReputation {
    /// The tier is the band of the current score.
    pub open spec fn wf(&self) -> bool {
        self.tier == tier_for(self.reputation_score as int)
    }

    /// Whether the record meets `wf`.
    pub fn is_valid(&self) -> (r: bool)
        ensures
            r == self.wf(),
    {
        self.tier == tier_from_score(self.reputation_score)
    }

    /// A user's record before any vote: all counters zero.
    pub fn new(user: Pubkey, bump: u8) -> (r: UserReputation)
        ensures
            r.wf(),
            r.user == user,
            r.bump == bump,
            r.total_votes == 0,
            r.current_streak == 0,
            r.longest_streak == 0,
            r.last_vote_timestamp == 0,
            r.reputation_score == 0,
            is_first_vote(r),
    {
        UserReputation {
            user,
            total_votes: 0,
            current_streak: 0,
            longest_streak: 0,
            last_vote_timestamp: 0,
            reputation_score: 0,
            tier: ReputationTier::Newbie,
            bump,
        }
    }
}

/// The day bucket of `t`, rounding down also before 1970.
pub fn day_index(t: i64) -> (d: i64)
    ensures
        d == day(t as int),
{
    if t >= 0 {
        ((t as u64) / 86400) as i64
    } else {
        let m: u64 = (0i128 - t as i128) as u64;
        let q: u64 = (m + 86399) / 86400;
        proof {
            let rem = (t as int) + 86400 * (q as int);
            assert(86400 * (q as int) <= m + 86399 < 86400 * (q as int) + 86400);
            assert(0 <= rem < 86400);
            lemma_fundamental_div_mod_converse(t as int, 86400, 0 - q, rem);
        }
        0 - (q as i64)
    }
}

/// Advances the record by one vote at `current_time`: streak, score with
/// milestone bonuses, vote count, timestamp, and the tier of the new score.
/// On overflow of a counter nothing changes.
pub fn update_reputation(reputation: &mut UserReputation, current_time: i64) -> (r: Result<(), ErrorCode>)
    ensures
        r is Ok <==> step_fits(*old(reputation), current_time as int),
        r is Ok ==> *final(reputation) == stepped(*old(reputation), current_time),
        r is Err ==> r->Err_0 == ErrorCode::ArithmeticOverflow && *final(reputation) == *old(reputation),
{
    let current_day: i64 = day_index(current_time);
    let last_day: i64 = day_index(reputation.last_vote_timestamp);
    let mut streak: u32 = reputation.current_streak;
    let mut longest: u32 = reputation.longest_streak;
    let gain: u32;
    if last_day == 0 {
        streak = 1;
        gain = 10;
    } else if current_day == last_day + 1 {
        if streak == u32::MAX {
            return Err(ErrorCode::ArithmeticOverflow);
        }
        streak = streak + 1;
        if streak == 7 {
            gain = 65;
        } else if streak == 30 {
            gain = 215;
        } else {
            gain = 15;
        }
        if streak > longest {
            longest = streak;
        }
    } else if current_day > last_day + 1 {
        streak = 1;
        gain = 10;
    } else {
        gain = 5;
    }
    if reputation.reputation_score > u32::MAX - gain || reputation.total_votes == u32::MAX {
        return Err(ErrorCode::ArithmeticOverflow);
    }
    let score: u32 = reputation.reputation_score + gain;
    reputation.current_streak = streak;
    reputation.longest_streak = longest;
    reputation.reputation_score = score;
    reputation.last_vote_timestamp = current_time;
    reputation.total_votes = reputation.total_votes + 1;
    reputation.tier = tier_from_score(score);
    Ok(())
}

/// Reputation never falls: a vote keeps the score or raises it, and the tier
/// of the updated record is the band of its score.
pub proof fn lemma_score_monotone(r: UserReputation, now: i64)
    requires
        step_fits(r, now as int),
    ensures
        stepped(r, now).reputation_score >= r.reputation_score,
        stepped(r, now).wf(),
{
}

/// Streak law: a first vote on day `D`, then votes on `D + 1` and `D + 2`
/// give a streak of 3, a longest streak of at least 3, and 10 + 15 + 15 points.
pub proof fn lemma_three_day_streak(r: UserReputation, t1: i64, t2: i64, t3: i64)
    requires
        is_first_vote(r),
        day(t1 as int) >= 1,
        day(t2 as int) == day(t1 as int) + 1,
        day(t3 as int) == day(t2 as int) + 1,
        r.total_votes + 3 <= u32::MAX,
        r.reputation_score + 40 <= u32::MAX,
    ensures
        step_fits(r, t1 as int),
        step_fits(stepped(r, t1), t2 as int),
        step_fits(stepped(stepped(r, t1), t2), t3 as int),
        stepped(stepped(stepped(r, t1), t2), t3).current_streak == 3,
        stepped(stepped(stepped(r, t1), t2), t3).longest_streak >= 3,
        stepped(stepped(stepped(r, t1), t2), t3).reputation_score == r.reputation_score + 40,
{
}

/// Milestone law: a vote on the day after the last one earns 15 points, plus
/// 50 exactly when the streak reaches 7 and 200 exactly when it reaches 30.
pub proof fn lemma_streak_milestones(r: UserReputation, now: i64)
    requires
        is_next_day(r, now as int),
    ensures
        streak_after(r, now as int) == r.current_streak + 1,
        streak_after(r, now as int) < 7 ==> score_gain(r, now as int) == 15,
        streak_after(r, now as int) == 7 ==> score_gain(r, now as int) == 65,
        streak_after(r, now as int) == 30 ==> score_gain(r, now as int) == 215,
        streak_after(r, now as int) != 7 && streak_after(r, now as int) != 30 ==> score_gain(
            r,
            now as int,
        ) == 15,
{
}

} // verus!
