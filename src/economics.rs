use vstd::prelude::*;
use vstd::utf8::encode_utf8;
use crate::error::ErrorCode;

verus! {

/// Participant slots reserved in a campaign record; no campaign may exceed it.
pub const MAX_PARTICIPANTS: u64 = 100;

/// Size in bytes of a string's UTF-8 encoding, as `str::len` reports it
/// (a string held in memory never exceeds `usize::MAX` bytes).
pub open spec fn byte_len(s: Seq<char>) -> int {
    encode_utf8(s).len() as usize as int
}

/// The platform's share of a reward: `floor(reward * bps / 10000)`.
pub open spec fn platform_fee_of(reward: int, fee_bps: int) -> int {
    reward * fee_bps / 10000
}

/// Splits `reward` into the platform's fee and the distributable rest,
/// computing the product in a wider integer.
pub fn split_fee(reward: u64, fee_percentage: u16) -> (r: Result<(u64, u64), ErrorCode>)
    ensures
        r is Ok <==> platform_fee_of(reward as int, fee_percentage as int) <= reward,
        r is Ok ==> r->Ok_0.0 == platform_fee_of(reward as int, fee_percentage as int)
            && r->Ok_0.1 == reward - r->Ok_0.0,
        r is Err ==> r->Err_0 == ErrorCode::ArithmeticOverflow,
{
    let wide: u128 = reward as u128;
    proof {
        assert(wide * (fee_percentage as u128) <= 0xffff_ffff_ffff_ffffu128 * 0xffffu128)
            by (nonlinear_arith)
            requires
                wide <= 0xffff_ffff_ffff_ffffu128,
                fee_percentage <= 0xffffu16,
        ;
    }
    let product: u128 = wide * (fee_percentage as u128);
    let fee_wide: u128 = product / 10000;
    if fee_wide > wide {
        return Err(ErrorCode::ArithmeticOverflow);
    }
    let fee: u64 = fee_wide as u64;
    Ok((fee, reward - fee))
}

/// What each participant is paid: `floor(distributable / max_participants)`,
/// which must not be zero.
pub fn reward_per_participant(distributable: u64, max_participants: u64) -> (r: Result<u64, ErrorCode>)
    ensures
        max_participants == 0 ==> r == Err::<u64, ErrorCode>(ErrorCode::InvalidParticipants),
        max_participants > 0 && distributable / max_participants == 0 ==> r == Err::<u64, ErrorCode>(
            ErrorCode::RewardTooSmall,
        ),
        max_participants > 0 && distributable / max_participants > 0 ==> r == Ok::<u64, ErrorCode>(
            distributable / max_participants,
        ),
{
    if max_participants == 0 {
        return Err(ErrorCode::InvalidParticipants);
    }
    let per: u64 = distributable / max_participants;
    if per == 0 {
        return Err(ErrorCode::RewardTooSmall);
    }
    Ok(per)
}

/// Bytes taken by the option labels: a length prefix and the text of each.
pub open spec fn options_space(options: Seq<String>) -> int
    decreases options.len(),
{
    if options.len() == 0 {
        0
    } else {
        options_space(options.drop_last()) + 4 + byte_len(options.last()@)
    }
}

/// Storage size of a campaign record with these texts, with room for
/// `MAX_PARTICIPANTS` participants whatever the campaign's own cap.
pub open spec fn campaign_space(title: Seq<char>, description: Seq<char>, options: Seq<String>) -> int {
    8 + 32 + 4 + byte_len(title) + 4 + byte_len(description) + 4 + options_space(options) + 4 + 8
        * options.len() + 8 + 4 + 32 * MAX_PARTICIPANTS + 8 + 8 + 8 + 8 + 8 + 1 + 8 + 8 + 1
}

proof fn lemma_options_space_push(options: Seq<String>, s: String)
    ensures
        options_space(options.push(s)) == options_space(options) + 4 + byte_len(s@),
{
    assert(options.push(s).drop_last() =~= options);
}

proof fn lemma_options_space_nonneg(options: Seq<String>)
    ensures
        options_space(options) >= 0,
    decreases options.len(),
{
    if options.len() > 0 {
        lemma_options_space_nonneg(options.drop_last());
    }
}

/// Storage size of a campaign record, computed from the byte lengths of its texts.
pub fn calculate_campaign_space(title: &str, description: &str, options: &Vec<String>) -> (r: usize)
    requires
        campaign_space(title@, description@, options@) <= usize::MAX,
    ensures
        r == campaign_space(title@, description@, options@),
{
    let n: usize = options.len();
    let mut opts: usize = 0;
    let mut i: usize = 0;
    while i < n
        invariant
            n == options@.len(),
            0 <= i <= n,
            opts == options_space(options@.subrange(0, i as int)),
            campaign_space(title@, description@, options@) <= usize::MAX,
        decreases n - i,
    {
        proof {
            assert(options@.subrange(0, i + 1) =~= options@.subrange(0, i as int).push(options@[i as int]));
            lemma_options_space_push(options@.subrange(0, i as int), options@[i as int]);
            assert(options@.subrange(0, i as int) + options@.subrange(i as int, n as int) =~= options@);
            lemma_options_space_split(options@.subrange(0, i + 1), options@.subrange(i + 1, n as int));
            assert(options@.subrange(0, i + 1) + options@.subrange(i + 1, n as int) =~= options@);
            lemma_options_space_nonneg(options@.subrange(i + 1, n as int));
        }
        let len: usize = options[i].as_str().len();
        opts = opts + 4 + len;
        i = i + 1;
    }
    assert(options@.subrange(0, n as int) =~= options@);
    let t: usize = title.len();
    let d: usize = description.len();
    8 + 32 + 4 + t + 4 + d + 4 + opts + 4 + 8 * n + 8 + 4 + 32 * 100 + 8 + 8 + 8 + 8 + 8 + 1 + 8 + 8 + 1
}

proof fn lemma_options_space_split(a: Seq<String>, b: Seq<String>)
    ensures
        options_space(a + b) == options_space(a) + options_space(b),
    decreases b.len(),
{
    if b.len() == 0 {
        assert(a + b =~= a);
    } else {
        assert((a + b).drop_last() =~= a + b.drop_last());
        lemma_options_space_split(a, b.drop_last());
    }
}

/// Fee split law: below a 10% fee the split always succeeds, the fee is
/// `floor(reward * bps / 10000)` and the two parts add up to the reward.
pub proof fn lemma_fee_split(reward: u64, fee_bps: u16)
    requires
        fee_bps < 1000,
    ensures
        0 <= platform_fee_of(reward as int, fee_bps as int) <= reward,
        platform_fee_of(reward as int, fee_bps as int) + (reward - platform_fee_of(
            reward as int,
            fee_bps as int,
        )) == reward,
{
    let p = reward as int * fee_bps as int;
    assert(0 <= p <= reward as int * 10000) by (nonlinear_arith)
        requires
            p == reward as int * fee_bps as int,
            0 <= fee_bps < 1000,
            reward >= 0,
    ;
    assert(p / 10000 <= reward) by (nonlinear_arith)
        requires
            0 <= p <= reward as int * 10000,
    ;
    assert(p / 10000 >= 0) by (nonlinear_arith)
        requires
            p >= 0,
    ;
}

} // verus!
