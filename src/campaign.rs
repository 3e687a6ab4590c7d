use vstd::prelude::*;
use crate::economics::{byte_len, platform_fee_of, reward_per_participant, split_fee};
use crate::error::ErrorCode;
use crate::key::{contains_key, Pubkey};
use crate::reputation::{step_fits, stepped, update_reputation, UserReputation};

verus! {

/// Highest fee the platform may charge, in basis points (exclusive).
pub const MAX_FEE_BPS: u16 = 1000;

pub const MAX_TITLE_LEN: usize = 100;

pub const MAX_DESCRIPTION_LEN: usize = 500;

pub const MAX_OPTION_LEN: usize = 100;

pub const MIN_OPTIONS: usize = 2;

pub const MAX_OPTIONS: usize = 10;

/// The platform's singleton settings, counters and fee custody.
#[derive(Debug, Clone, Copy)]
pub struct PlatformConfig {
    pub authority: Pubkey,
    pub fee_percentage: u16,
    pub total_fee_collected: u64,
    pub total_campaigns: u64,
    pub bump: u8,
    /// Balance held in custody for the platform.
    pub lamports: u64,
}

impl PlatformConfig {
    pub open spec fn wf(&self) -> bool {
        self.fee_percentage < MAX_FEE_BPS
    }

    /// Whether the record meets `wf`.
    pub fn is_valid(&self) -> (r: bool)
        ensures
            r == self.wf(),
    {
        self.fee_percentage < MAX_FEE_BPS
    }
}

/// A funded poll and its escrow.
#[derive(Debug)]
pub struct Campaign {
    pub creator: Pubkey,
    pub title: String,
    pub description: String,
    pub options: Vec<String>,
    /// The distributable prize, after the platform fee.
    pub reward: u64,
    pub participants: Vec<Pubkey>,
    pub max_participants: u64,
    pub reward_per_participant: u64,
    pub vote_count: Vec<u64>,
    pub total_votes: u64,
    pub min_reputation: u64,
    pub end_date: u64,
    pub is_active: bool,
    pub created_at: u64,
    pub updated_at: u64,
    pub bump: u8,
    /// Balance held in escrow for the campaign.
    pub lamports: u64,
}

/// One cast vote; at most one exists per campaign and voter.
#[derive(Debug, Clone, Copy)]
pub struct Vote {
    pub campaign: Pubkey,
    pub voter: Pubkey,
    pub choice: u8,
    pub voted_at: i64,
    pub bump: u8,
}

/// Sum of the per-option counters.
pub open spec fn sum_counts(s: Seq<u64>) -> int
    decreases s.len(),
{
    if s.len() == 0 {
        0
    } else {
        sum_counts(s.drop_last()) + s.last()
    }
}

proof fn lemma_sum_counts_push(s: Seq<u64>, x: u64)
    ensures
        sum_counts(s.push(x)) == sum_counts(s) + x,
{
    assert(s.push(x).drop_last() =~= s);
}

proof fn lemma_sum_counts_update(s: Seq<u64>, i: int, x: u64)
    requires
        0 <= i < s.len(),
    ensures
        sum_counts(s.update(i, x)) == sum_counts(s) - s[i] + x,
        s[i] <= sum_counts(s),
    decreases s.len(),
{
    let t = s.update(i, x);
    if i == s.len() - 1 {
        assert(t.drop_last() =~= s.drop_last());
        lemma_sum_counts_nonneg(s.drop_last());
    } else {
        assert(t.drop_last() =~= s.drop_last().update(i, x));
        lemma_sum_counts_update(s.drop_last(), i, x);
    }
}

proof fn lemma_sum_counts_nonneg(s: Seq<u64>)
    ensures
        sum_counts(s) >= 0,
    decreases s.len(),
{
    if s.len() > 0 {
        lemma_sum_counts_nonneg(s.drop_last());
    }
}

/// The clock's unix seconds read as an unsigned count, as a two's-complement cast does.
pub open spec fn clock_secs(now: i64) -> u64 {
    if now >= 0 {
        now as u64
    } else {
        (now + 0x1_0000_0000_0000_0000) as u64
    }
}

pub fn clock_seconds(now: i64) -> (r: u64)
    ensures
        r == clock_secs(now),
{
    if now >= 0 {
        now as u64
    } else {
        (now as i128 + 0x1_0000_0000_0000_0000i128) as u64
    }
}

impl Campaign {
    /// Escrow still owed to the voters yet to come.
    pub open spec fn owed(&self) -> int {
        self.reward - self.participants@.len() * self.reward_per_participant
    }

    /// The campaign's invariant.
    pub open spec fn wf(&self) -> bool {
        &&& MIN_OPTIONS <= self.options@.len() <= MAX_OPTIONS
        &&& self.vote_count@.len() == self.options@.len()
        &&& 1 <= self.max_participants <= crate::economics::MAX_PARTICIPANTS
        &&& self.reward_per_participant > 0
        &&& self.reward_per_participant * self.max_participants <= self.reward
        &&& sum_counts(self.vote_count@) == self.total_votes
        &&& self.total_votes == self.participants@.len()
        &&& self.participants@.len() <= self.max_participants
        &&& self.participants@.no_duplicates()
        &&& !self.participants@.contains(self.creator)
        &&& self.participants@.len() == self.max_participants ==> !self.is_active
        &&& (self.is_active ==> self.lamports >= self.owed())
    }

    /// Whether the end date has passed at `now`.
    pub open spec fn expired_at(&self, now: i64) -> bool {
        self.end_date > 0 && clock_secs(now) >= self.end_date
    }

    /// What a vote does not change.
    pub open spec fn same_terms(&self, other: &Campaign) -> bool {
        &&& self.creator == other.creator
        &&& self.title@ == other.title@
        &&& self.description@ == other.description@
        &&& self.options@ == other.options@
        &&& self.reward == other.reward
        &&& self.max_participants == other.max_participants
        &&& self.reward_per_participant == other.reward_per_participant
        &&& self.min_reputation == other.min_reputation
        &&& self.end_date == other.end_date
        &&& self.created_at == other.created_at
        &&& self.bump == other.bump
    }

    /// Equal in every field but the active flag.
    pub open spec fn same_but_active(&self, other: &Campaign) -> bool {
        &&& self.same_terms(other)
        &&& self.participants@ == other.participants@
        &&& self.vote_count@ == other.vote_count@
        &&& self.total_votes == other.total_votes
        &&& self.updated_at == other.updated_at
        &&& self.lamports == other.lamports
    }

    /// Equal in every field.
    pub open spec fn same_as(&self, other: &Campaign) -> bool {
        &&& self.same_but_active(other)
        &&& self.is_active == other.is_active
    }
}

proof fn lemma_sum_counts_prefix(s: Seq<u64>, k: int)
    requires
        0 <= k < s.len(),
    ensures
        sum_counts(s.subrange(0, k + 1)) == sum_counts(s.subrange(0, k)) + s[k],
{
    assert(s.subrange(0, k + 1).drop_last() =~= s.subrange(0, k));
}

/// Whether no key occurs twice in `keys`.
fn all_distinct(keys: &Vec<Pubkey>) -> (r: bool)
    ensures
        r == keys@.no_duplicates(),
{
    let n: usize = keys.len();
    let mut i: usize = 0;
    while i < n
        invariant
            n == keys@.len(),
            0 <= i <= n,
            forall|a: int, b: int| 0 <= a < b < i ==> keys@[a] != keys@[b],
        decreases n - i,
    {
        let mut j: usize = 0;
        while j < i
            invariant
                n == keys@.len(),
                0 <= j <= i < n,
                forall|a: int| 0 <= a < j ==> keys@[a] != keys@[i as int],
            decreases i - j,
        {
            if keys[j].equals(&keys[i]) {
                return false;
            }
            j = j + 1;
        }
        i = i + 1;
    }
    true
}

impl Campaign {
    /// Whether the record meets `wf`.
    pub fn is_valid(&self) -> (r: bool)
        ensures
            r == self.wf(),
    {
        let n: usize = self.options.len();
        if n < MIN_OPTIONS || n > MAX_OPTIONS || self.vote_count.len() != n {
            return false;
        }
        if self.max_participants < 1 || self.max_participants > crate::economics::MAX_PARTICIPANTS {
            return false;
        }
        if self.reward_per_participant == 0 {
            return false;
        }
        let per: u128 = self.reward_per_participant as u128;
        proof {
            assert(per * (self.max_participants as u128) <= 0xffff_ffff_ffff_ffffu128 * 100u128)
                by (nonlinear_arith)
                requires
                    per <= 0xffff_ffff_ffff_ffffu128,
                    self.max_participants <= 100,
            ;
        }
        if per * (self.max_participants as u128) > self.reward as u128 {
            return false;
        }
        let p: usize = self.participants.len();
        if p as u128 > self.max_participants as u128 || self.total_votes as u128 != p as u128 {
            return false;
        }
        let mut acc: u128 = 0;
        let mut k: usize = 0;
        while k < n
            invariant
                n == self.vote_count@.len(),
                0 <= k <= n <= MAX_OPTIONS,
                acc == sum_counts(self.vote_count@.subrange(0, k as int)),
                acc <= k * 0xffff_ffff_ffff_ffffu128,
            decreases n - k,
        {
            proof {
                lemma_sum_counts_prefix(self.vote_count@, k as int);
            }
            acc = acc + self.vote_count[k] as u128;
            k = k + 1;
        }
        assert(self.vote_count@.subrange(0, n as int) =~= self.vote_count@);
        if acc != self.total_votes as u128 {
            return false;
        }
        if !all_distinct(&self.participants) {
            return false;
        }
        if contains_key(&self.participants, &self.creator) {
            return false;
        }
        if p as u64 == self.max_participants && self.is_active {
            return false;
        }
        proof {
            assert(p * per <= self.max_participants * per) by (nonlinear_arith)
                requires
                    p <= self.max_participants,
            ;
        }
        let owed: u64 = self.reward - (p as u64) * self.reward_per_participant;
        !self.is_active || self.lamports >= owed
    }
}

/// Sets up the platform's configuration with no campaigns and no fees yet.
pub fn initialize_platform(authority: Pubkey, fee_percentage: u16, bump: u8) -> (r: Result<PlatformConfig, ErrorCode>)
    ensures
        r is Ok <==> fee_percentage < MAX_FEE_BPS,
        r is Err ==> r->Err_0 == ErrorCode::FeeTooHigh,
        r is Ok ==> ({
            let c = r->Ok_0;
            &&& c.wf()
            &&& c.authority == authority
            &&& c.fee_percentage == fee_percentage
            &&& c.total_fee_collected == 0
            &&& c.total_campaigns == 0
            &&& c.bump == bump
            &&& c.lamports == 0
        }),
{
    if fee_percentage >= MAX_FEE_BPS {
        return Err(ErrorCode::FeeTooHigh);
    }
    Ok(PlatformConfig {
        authority,
        fee_percentage,
        total_fee_collected: 0,
        total_campaigns: 0,
        bump,
        lamports: 0,
    })
}

/// Whether some option label is longer than `MAX_OPTION_LEN` bytes.
pub open spec fn has_long_option(options: Seq<String>) -> bool {
    exists|i: int| 0 <= i < options.len() && byte_len(#[trigger] options[i]@) > MAX_OPTION_LEN
}

/// The failure that creating a campaign with these inputs reports, checked in
/// this order, or `None` where creation succeeds.
pub open spec fn create_error(
    config: PlatformConfig,
    creator_lamports: u64,
    title: Seq<char>,
    description: Seq<char>,
    options: Seq<String>,
    reward: u64,
    max_participants: u64,
) -> Option<ErrorCode> {
    let fee = platform_fee_of(reward as int, config.fee_percentage as int);
    if byte_len(title) > MAX_TITLE_LEN {
        Some(ErrorCode::TitleTooLong)
    } else if byte_len(description) > MAX_DESCRIPTION_LEN {
        Some(ErrorCode::DescriptionTooLong)
    } else if options.len() < MIN_OPTIONS {
        Some(ErrorCode::NotEnoughImages)
    } else if options.len() > MAX_OPTIONS {
        Some(ErrorCode::TooManyImages)
    } else if reward == 0 {
        Some(ErrorCode::InvalidPrize)
    } else if max_participants == 0 {
        Some(ErrorCode::InvalidParticipants)
    } else if has_long_option(options) {
        Some(ErrorCode::ImageHashTooLong)
    } else if (reward - fee) / (max_participants as int) == 0 {
        Some(ErrorCode::RewardTooSmall)
    } else if max_participants > crate::economics::MAX_PARTICIPANTS {
        Some(ErrorCode::InvalidParticipants)
    } else if creator_lamports < reward {
        Some(ErrorCode::InsufficientFunds)
    } else if config.lamports + fee > u64::MAX || config.total_fee_collected + fee > u64::MAX
        || config.total_campaigns + 1 > u64::MAX {
        Some(ErrorCode::ArithmeticOverflow)
    } else {
        None
    }
}

/// Creates a campaign: validates the texts and numbers, splits off the
/// platform fee, moves the full reward from the creator into escrow and then
/// the fee from escrow into the platform's custody.
pub fn create_campaign(
    config: &mut PlatformConfig,
    creator: Pubkey,
    creator_lamports: &mut u64,
    title: String,
    description: String,
    options: Vec<String>,
    reward: u64,
    max_participants: u64,
    min_reputation: u64,
    end_date: u64,
    now: i64,
    bump: u8,
) -> (r: Result<Campaign, ErrorCode>)
    requires
        old(config).wf(),
    ensures
        r is Err <==> create_error(
            *old(config),
            *old(creator_lamports),
            title@,
            description@,
            options@,
            reward,
            max_participants,
        ) is Some,
        r is Err ==> r->Err_0 == create_error(
            *old(config),
            *old(creator_lamports),
            title@,
            description@,
            options@,
            reward,
            max_participants,
        )->0 && *final(config) == *old(config) && *final(creator_lamports) == *old(creator_lamports),
        r is Ok ==> ({
            let c = r->Ok_0;
            let fee = platform_fee_of(reward as int, old(config).fee_percentage as int);
            &&& c.wf()
            &&& c.creator == creator
            &&& c.title@ == title@
            &&& c.description@ == description@
            &&& c.options@ == options@
            &&& c.reward == reward - fee
            &&& c.reward_per_participant == (reward - fee) / (max_participants as int)
            &&& c.max_participants == max_participants
            &&& c.participants@.len() == 0
            &&& c.vote_count@ == Seq::new(options@.len(), |i: int| 0u64)
            &&& c.total_votes == 0
            &&& c.min_reputation == min_reputation
            &&& c.end_date == end_date
            &&& c.is_active
            &&& c.created_at == clock_secs(now)
            &&& c.updated_at == clock_secs(now)
            &&& c.bump == bump
            &&& c.lamports == reward - fee
            &&& *final(creator_lamports) == *old(creator_lamports) - reward
            &&& final(config).lamports == old(config).lamports + fee
            &&& final(config).total_fee_collected == old(config).total_fee_collected + fee
            &&& final(config).total_campaigns == old(config).total_campaigns + 1
            &&& final(config).authority == old(config).authority
            &&& final(config).fee_percentage == old(config).fee_percentage
            &&& final(config).bump == old(config).bump
        }),
{
    if title.as_str().len() > MAX_TITLE_LEN {
        return Err(ErrorCode::TitleTooLong);
    }
    if description.as_str().len() > MAX_DESCRIPTION_LEN {
        return Err(ErrorCode::DescriptionTooLong);
    }
    let n: usize = options.len();
    if n < MIN_OPTIONS {
        return Err(ErrorCode::NotEnoughImages);
    }
    if n > MAX_OPTIONS {
        return Err(ErrorCode::TooManyImages);
    }
    if reward == 0 {
        return Err(ErrorCode::InvalidPrize);
    }
    if max_participants == 0 {
        return Err(ErrorCode::InvalidParticipants);
    }
    let mut i: usize = 0;
    while i < n
        invariant
            n == options@.len(),
            0 <= i <= n,
            forall|j: int| 0 <= j < i ==> byte_len(#[trigger] options@[j]@) <= MAX_OPTION_LEN,
            byte_len(title@) <= MAX_TITLE_LEN,
            byte_len(description@) <= MAX_DESCRIPTION_LEN,
            MIN_OPTIONS <= n <= MAX_OPTIONS,
            reward > 0,
            0 < max_participants,
        decreases n - i,
    {
        if options[i].as_str().len() > MAX_OPTION_LEN {
            assert(byte_len(options@[i as int]@) > MAX_OPTION_LEN);
            return Err(ErrorCode::ImageHashTooLong);
        }
        i = i + 1;
    }
    proof {
        crate::economics::lemma_fee_split(reward, config.fee_percentage);
    }
    let (platform_fee, distributable) = match split_fee(reward, config.fee_percentage) {
        Ok(parts) => parts,
        Err(e) => {
            return Err(e);
        },
    };
    let per_participant: u64 = match reward_per_participant(distributable, max_participants) {
        Ok(per) => per,
        Err(e) => {
            return Err(e);
        },
    };
    // room is reserved for at most this many participants
    if max_participants > crate::economics::MAX_PARTICIPANTS {
        return Err(ErrorCode::InvalidParticipants);
    }
    if *creator_lamports < reward {
        return Err(ErrorCode::InsufficientFunds);
    }
    if config.lamports > u64::MAX - platform_fee || config.total_fee_collected > u64::MAX
        - platform_fee || config.total_campaigns == u64::MAX {
        return Err(ErrorCode::ArithmeticOverflow);
    }
    // the full reward goes into escrow, then the fee comes back out of it
    *creator_lamports = *creator_lamports - reward;
    let mut escrow: u64 = reward;
    escrow = escrow - platform_fee;
    config.lamports = config.lamports + platform_fee;
    config.total_fee_collected = config.total_fee_collected + platform_fee;
    config.total_campaigns = config.total_campaigns + 1;

    let mut vote_count: Vec<u64> = Vec::new();
    let mut k: usize = 0;
    while k < n
        invariant
            0 <= k <= n,
            vote_count@ == Seq::new(k as nat, |j: int| 0u64),
            sum_counts(vote_count@) == 0,
        decreases n - k,
    {
        proof {
            lemma_sum_counts_push(vote_count@, 0u64);
        }
        vote_count.push(0);
        k = k + 1;
        assert(vote_count@ =~= Seq::new(k as nat, |j: int| 0u64));
    }
    proof {
        assert(per_participant * max_participants <= distributable) by (nonlinear_arith)
            requires
                per_participant == distributable / max_participants,
                max_participants > 0,
        ;
    }
    let secs: u64 = clock_seconds(now);
    let c = Campaign {
        creator,
        title,
        description,
        options,
        reward: distributable,
        participants: Vec::new(),
        max_participants,
        reward_per_participant: per_participant,
        vote_count,
        total_votes: 0,
        min_reputation,
        end_date,
        is_active: true,
        created_at: secs,
        updated_at: secs,
        bump,
        lamports: escrow,
    };
    assert(c.participants@.len() == 0);
    Ok(c)
}

/// The failure that a vote with these inputs reports, checked in this order,
/// or `None` where the vote is accepted.
pub open spec fn vote_error(
    c: Campaign,
    rep: UserReputation,
    voter: Pubkey,
    choice: u8,
    now: i64,
    voter_lamports: u64,
) -> Option<ErrorCode> {
    if !c.is_active {
        Some(ErrorCode::CampaignNotActive)
    } else if voter == c.creator {
        Some(ErrorCode::CreatorCannotVote)
    } else if c.expired_at(now) {
        Some(ErrorCode::CampaignExpired)
    } else if choice >= c.options@.len() {
        Some(ErrorCode::InvalidChoice)
    } else if rep.tier.rank() < c.min_reputation {
        Some(ErrorCode::InsufficientReputation)
    } else if c.participants@.len() >= c.max_participants {
        Some(ErrorCode::CampaignFull)
    } else if c.participants@.contains(voter) {
        Some(ErrorCode::AlreadyVoted)
    } else if !step_fits(rep, now as int) {
        Some(ErrorCode::ArithmeticOverflow)
    } else if c.lamports < c.reward_per_participant {
        Some(ErrorCode::InsufficientFunds)
    } else if voter_lamports + c.reward_per_participant > u64::MAX {
        Some(ErrorCode::ArithmeticOverflow)
    } else {
        None
    }
}

/// The amount paid for one vote.  Every voter is paid the base reward; this
/// is where an adjustment by reputation would go.
fn adjusted_reward(base: u64, rep: &UserReputation) -> (r: u64)
    ensures
        r == base,
{
    base
}

/// Casts `voter`'s vote for option `choice` at time `now`: records it, pays
/// the per-participant reward out of escrow, advances the voter's reputation,
/// and closes voting once the last slot is taken.  A vote after the end date
/// deactivates the campaign and is rejected.
pub fn submit_vote(
    campaign: &mut Campaign,
    reputation: &mut UserReputation,
    campaign_key: Pubkey,
    voter: Pubkey,
    voter_lamports: &mut u64,
    choice: u8,
    now: i64,
    bump: u8,
) -> (r: Result<Vote, ErrorCode>)
    requires
        old(campaign).wf(),
        old(reputation).wf(),
    ensures
        final(campaign).wf(),
        final(reputation).wf(),
        r is Err <==> vote_error(
            *old(campaign),
            *old(reputation),
            voter,
            choice,
            now,
            *old(voter_lamports),
        ) is Some,
        r is Err ==> r->Err_0 == vote_error(
            *old(campaign),
            *old(reputation),
            voter,
            choice,
            now,
            *old(voter_lamports),
        )->0 && *final(reputation) == *old(reputation) && *final(voter_lamports) == *old(
            voter_lamports,
        ),
        r is Err && r->Err_0 == ErrorCode::CampaignExpired ==> final(campaign).same_but_active(
            &*old(campaign),
        ) && !final(campaign).is_active,
        r is Err && r->Err_0 != ErrorCode::CampaignExpired ==> final(campaign).same_as(
            &*old(campaign),
        ),
        r is Ok ==> ({
            let v = r->Ok_0;
            let c0 = *old(campaign);
            let c1 = *final(campaign);
            &&& c1.same_terms(&c0)
            &&& c1.participants@ == c0.participants@.push(voter)
            &&& c1.vote_count@ == c0.vote_count@.update(
                choice as int,
                (c0.vote_count@[choice as int] + 1) as u64,
            )
            &&& c1.total_votes == c0.total_votes + 1
            &&& c1.updated_at == clock_secs(now)
            &&& c1.lamports == c0.lamports - c0.reward_per_participant
            &&& c1.is_active == (c1.participants@.len() < c1.max_participants)
            &&& *final(reputation) == stepped(*old(reputation), now)
            &&& *final(voter_lamports) == *old(voter_lamports) + c0.reward_per_participant
            &&& v.campaign == campaign_key
            &&& v.voter == voter
            &&& v.choice == choice
            &&& v.voted_at == now
            &&& v.bump == bump
        }),
{
    if !campaign.is_active {
        return Err(ErrorCode::CampaignNotActive);
    }
    if voter.equals(&campaign.creator) {
        return Err(ErrorCode::CreatorCannotVote);
    }
    let current_time: u64 = clock_seconds(now);
    if campaign.end_date > 0 && current_time >= campaign.end_date {
        campaign.is_active = false;
        return Err(ErrorCode::CampaignExpired);
    }
    if (choice as usize) >= campaign.options.len() {
        return Err(ErrorCode::InvalidChoice);
    }
    if reputation.tier.ordinal() < campaign.min_reputation {
        return Err(ErrorCode::InsufficientReputation);
    }
    if campaign.participants.len() as u64 >= campaign.max_participants {
        return Err(ErrorCode::CampaignFull);
    }
    if contains_key(&campaign.participants, &voter) {
        return Err(ErrorCode::AlreadyVoted);
    }
    let mut rep: UserReputation = *reputation;
    match update_reputation(&mut rep, now) {
        Ok(()) => {},
        Err(e) => {
            return Err(e);
        },
    }
    let final_reward: u64 = adjusted_reward(campaign.reward_per_participant, reputation);
    if campaign.lamports < final_reward {
        return Err(ErrorCode::InsufficientFunds);
    }
    if *voter_lamports > u64::MAX - final_reward {
        return Err(ErrorCode::ArithmeticOverflow);
    }
    let ghost c0 = *old(campaign);
    let ch: usize = choice as usize;
    let ghost n: int = c0.participants@.len() as int;
    proof {
        lemma_sum_counts_update(c0.vote_count@, ch as int, (c0.vote_count@[ch as int] + 1) as u64);
        assert((n + 1) * c0.reward_per_participant == n * c0.reward_per_participant
            + c0.reward_per_participant) by (nonlinear_arith);
        assert((n + 1) * c0.reward_per_participant <= c0.max_participants
            * c0.reward_per_participant) by (nonlinear_arith)
            requires
                n + 1 <= c0.max_participants,
        ;
    }
    let count: u64 = campaign.vote_count[ch];
    campaign.vote_count.set(ch, count + 1);
    campaign.participants.push(voter);
    campaign.total_votes = campaign.total_votes + 1;
    campaign.updated_at = current_time;
    *reputation = rep;
    campaign.lamports = campaign.lamports - final_reward;
    *voter_lamports = *voter_lamports + final_reward;
    if campaign.participants.len() as u64 >= campaign.max_participants {
        campaign.is_active = false;
    }
    proof {
        assert forall|a: int, b: int|
            0 <= a < b < campaign.participants@.len() implies campaign.participants@[a]
            != campaign.participants@[b] by {
            if b == n {
                assert(c0.participants@.contains(c0.participants@[a]));
            }
        }
        if campaign.participants@.contains(campaign.creator) {
            let k = choose|k: int| 0 <= k < campaign.participants@.len() && campaign.participants@[k] == campaign.creator;
            if k < n {
                assert(c0.participants@.contains(c0.creator));
            }
        }
    }
    Ok(Vote { campaign: campaign_key, voter, choice, voted_at: now, bump })
}

/// The failure that cancelling reports, or `None` where it succeeds.
pub open spec fn cancel_error(c: Campaign, caller: Pubkey, caller_lamports: u64) -> Option<ErrorCode> {
    if caller != c.creator {
        Some(ErrorCode::Unauthorized)
    } else if c.participants@.len() > 0 {
        Some(ErrorCode::CampaignHasVotes)
    } else if caller_lamports + c.lamports > u64::MAX {
        Some(ErrorCode::ArithmeticOverflow)
    } else {
        None
    }
}

/// Cancels a campaign that nobody has voted in: the whole escrow goes back to
/// the creator (the fee taken at creation stays with the platform) and the
/// campaign becomes inactive.
pub fn cancel_campaign(campaign: &mut Campaign, caller: Pubkey, caller_lamports: &mut u64) -> (r: Result<(), ErrorCode>)
    requires
        old(campaign).wf(),
    ensures
        final(campaign).wf(),
        r is Err <==> cancel_error(*old(campaign), caller, *old(caller_lamports)) is Some,
        r is Err ==> r->Err_0 == cancel_error(*old(campaign), caller, *old(caller_lamports))->0
            && final(campaign).same_as(&*old(campaign)) && *final(caller_lamports) == *old(
            caller_lamports,
        ),
        r is Ok ==> ({
            let c0 = *old(campaign);
            let c1 = *final(campaign);
            &&& c1.same_terms(&c0)
            &&& c1.participants@ == c0.participants@
            &&& c1.vote_count@ == c0.vote_count@
            &&& c1.total_votes == c0.total_votes
            &&& c1.updated_at == c0.updated_at
            &&& c1.lamports == 0
            &&& !c1.is_active
            &&& *final(caller_lamports) == *old(caller_lamports) + c0.lamports
        }),
{
    if !caller.equals(&campaign.creator) {
        return Err(ErrorCode::Unauthorized);
    }
    if campaign.participants.len() > 0 {
        return Err(ErrorCode::CampaignHasVotes);
    }
    if *caller_lamports > u64::MAX - campaign.lamports {
        return Err(ErrorCode::ArithmeticOverflow);
    }
    let refund: u64 = campaign.lamports;
    campaign.lamports = 0;
    *caller_lamports = *caller_lamports + refund;
    campaign.is_active = false;
    Ok(())
}

/// The failure that closing reports, or `None` where it succeeds.
pub open spec fn close_error(c: Campaign, platform_lamports: u64, now: i64) -> Option<ErrorCode> {
    if c.is_active && !c.expired_at(now) {
        Some(ErrorCode::CampaignStillActive)
    } else if platform_lamports + c.lamports > u64::MAX {
        Some(ErrorCode::ArithmeticOverflow)
    } else {
        None
    }
}

/// Closes an inactive (or by now expired) campaign, sweeping what is left in
/// escrow into the platform's custody.
pub fn close_campaign(campaign: &mut Campaign, config: &mut PlatformConfig, now: i64) -> (r: Result<(), ErrorCode>)
    requires
        old(campaign).wf(),
    ensures
        final(campaign).wf(),
        r is Err <==> close_error(*old(campaign), old(config).lamports, now) is Some,
        r is Err ==> r->Err_0 == close_error(*old(campaign), old(config).lamports, now)->0
            && final(campaign).same_as(&*old(campaign)) && *final(config) == *old(config),
        r is Ok ==> ({
            let c0 = *old(campaign);
            let c1 = *final(campaign);
            &&& c1.same_terms(&c0)
            &&& c1.participants@ == c0.participants@
            &&& c1.vote_count@ == c0.vote_count@
            &&& c1.total_votes == c0.total_votes
            &&& c1.updated_at == c0.updated_at
            &&& c1.lamports == 0
            &&& !c1.is_active
            &&& final(config).lamports == old(config).lamports + c0.lamports
            &&& final(config).authority == old(config).authority
            &&& final(config).fee_percentage == old(config).fee_percentage
            &&& final(config).total_fee_collected == old(config).total_fee_collected
            &&& final(config).total_campaigns == old(config).total_campaigns
            &&& final(config).bump == old(config).bump
        }),
{
    let current_time: u64 = clock_seconds(now);
    let expired: bool = campaign.end_date > 0 && current_time >= campaign.end_date;
    if campaign.is_active && !expired {
        return Err(ErrorCode::CampaignStillActive);
    }
    let remaining: u64 = campaign.lamports;
    if config.lamports > u64::MAX - remaining {
        return Err(ErrorCode::ArithmeticOverflow);
    }
    campaign.is_active = false;
    campaign.lamports = 0;
    config.lamports = config.lamports + remaining;
    Ok(())
}

/// The failure that withdrawing reports, or `None` where it succeeds.
pub open spec fn withdraw_error(config: PlatformConfig, caller: Pubkey, caller_lamports: u64, reserve: u64) -> Option<ErrorCode> {
    if caller != config.authority {
        Some(ErrorCode::Unauthorized)
    } else if config.lamports <= reserve {
        Some(ErrorCode::InsufficientFunds)
    } else if caller_lamports + (config.lamports - reserve) > u64::MAX {
        Some(ErrorCode::ArithmeticOverflow)
    } else {
        None
    }
}

/// Pays the platform's custody balance above `reserve` (the minimum the
/// storage runtime keeps on the record) to the authority, and resets the
/// fee counter.
pub fn withdraw_fees(config: &mut PlatformConfig, caller: Pubkey, caller_lamports: &mut u64, reserve: u64) -> (r: Result<(), ErrorCode>)
    ensures
        r is Err <==> withdraw_error(*old(config), caller, *old(caller_lamports), reserve) is Some,
        r is Err ==> r->Err_0 == withdraw_error(*old(config), caller, *old(caller_lamports), reserve)->0
            && *final(config) == *old(config) && *final(caller_lamports) == *old(caller_lamports),
        r is Ok ==> ({
            &&& final(config).lamports == reserve
            &&& *final(caller_lamports) == *old(caller_lamports) + (old(config).lamports - reserve)
            &&& final(config).total_fee_collected == 0
            &&& final(config).authority == old(config).authority
            &&& final(config).fee_percentage == old(config).fee_percentage
            &&& final(config).total_campaigns == old(config).total_campaigns
            &&& final(config).bump == old(config).bump
        }),
{
    if !caller.equals(&config.authority) {
        return Err(ErrorCode::Unauthorized);
    }
    if config.lamports <= reserve {
        return Err(ErrorCode::InsufficientFunds);
    }
    let available: u64 = config.lamports - reserve;
    if *caller_lamports > u64::MAX - available {
        return Err(ErrorCode::ArithmeticOverflow);
    }
    config.lamports = reserve;
    *caller_lamports = *caller_lamports + available;
    config.total_fee_collected = 0;
    Ok(())
}

/// Tally law: the option counters add up to the vote total, which is the
/// number of participants, which never exceeds the cap.
pub proof fn lemma_vote_tally(c: Campaign)
    requires
        c.wf(),
    ensures
        sum_counts(c.vote_count@) == c.total_votes,
        c.total_votes == c.participants@.len(),
        c.participants@.len() <= c.max_participants,
{
}

/// Escrow law: the distributable reward less one reward per vote cast never
/// goes below zero, and while a campaign is active its escrow holds at least
/// that.  (Creation puts exactly the distributable reward in escrow and each
/// vote takes exactly one reward out: see `create_campaign` and `submit_vote`.)
pub proof fn lemma_escrow_balance(c: Campaign)
    requires
        c.wf(),
    ensures
        c.participants@.len() * c.reward_per_participant <= c.reward,
        c.is_active ==> c.lamports >= c.reward - c.participants@.len() * c.reward_per_participant,
{
    assert(c.participants@.len() * c.reward_per_participant <= c.reward_per_participant
        * c.max_participants) by (nonlinear_arith)
        requires
            c.participants@.len() <= c.max_participants,
    ;
}

/// Uniqueness law: nobody appears twice among a campaign's participants.
pub proof fn lemma_participants_unique(c: Campaign, i: int, j: int)
    requires
        c.wf(),
        0 <= i < c.participants@.len(),
        0 <= j < c.participants@.len(),
        i != j,
    ensures
        c.participants@[i] != c.participants@[j],
{
}

/// The creator is never among a campaign's participants.
pub proof fn lemma_creator_not_participant(c: Campaign)
    requires
        c.wf(),
    ensures
        !c.participants@.contains(c.creator),
{
}

/// Creation succeeds on valid inputs: texts and counts within bounds, a
/// reward that leaves every participant something, a creator who can pay it,
/// and platform counters with room for it.
pub proof fn lemma_create_accepts(
    config: PlatformConfig,
    creator_lamports: u64,
    title: Seq<char>,
    description: Seq<char>,
    options: Seq<String>,
    reward: u64,
    max_participants: u64,
)
    requires
        config.wf(),
        byte_len(title) <= MAX_TITLE_LEN,
        byte_len(description) <= MAX_DESCRIPTION_LEN,
        MIN_OPTIONS <= options.len() <= MAX_OPTIONS,
        forall|i: int| 0 <= i < options.len() ==> byte_len(#[trigger] options[i]@) <= MAX_OPTION_LEN,
        reward > 0,
        0 < max_participants <= crate::economics::MAX_PARTICIPANTS,
        (reward - platform_fee_of(reward as int, config.fee_percentage as int)) / (
        max_participants as int) > 0,
        creator_lamports >= reward,
        config.lamports + reward <= u64::MAX,
        config.total_fee_collected + reward <= u64::MAX,
        config.total_campaigns < u64::MAX,
    ensures
        create_error(config, creator_lamports, title, description, options, reward, max_participants)
            is None,
{
    crate::economics::lemma_fee_split(reward, config.fee_percentage);
}

/// Cancelling succeeds for the creator of a campaign without votes, where the
/// refund fits the creator's balance.
pub proof fn lemma_cancel_accepts(c: Campaign, creator_lamports: u64)
    requires
        c.participants@.len() == 0,
        creator_lamports + c.lamports <= u64::MAX,
    ensures
        cancel_error(c, c.creator, creator_lamports) is None,
{
}

} // verus!
