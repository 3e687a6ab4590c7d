use contract::campaign::{
    cancel_campaign, clock_seconds, close_campaign, create_campaign, initialize_platform, submit_vote,
    withdraw_fees, Campaign, PlatformConfig,
};
use contract::error::ErrorCode;
use contract::key::{contains_key, Pubkey};
use contract::reputation::{ReputationTier, UserReputation};

const NOW: i64 = 1_700_000_000;

fn key(b: u8) -> Pubkey {
    Pubkey::new([b; 32])
}

fn platform(fee: u16) -> PlatformConfig {
    initialize_platform(key(1), fee, 9).unwrap()
}

fn opts(n: usize) -> Vec<String> {
    (0..n).map(|i| format!("option {}", i)).collect()
}

fn make(config: &mut PlatformConfig, creator_lamports: &mut u64, reward: u64, max: u64, min_rep: u64, end: u64) -> Result<Campaign, ErrorCode> {
    create_campaign(
        config,
        key(2),
        creator_lamports,
        String::from("Best logo"),
        String::from("Pick one"),
        opts(3),
        reward,
        max,
        min_rep,
        end,
        NOW,
        4,
    )
}

fn vote(c: &mut Campaign, voter: u8, rep: &mut UserReputation, wallet: &mut u64, choice: u8, now: i64) -> Result<(), ErrorCode> {
    submit_vote(c, rep, key(200), key(voter), wallet, choice, now, 0).map(|_| ())
}

#[test]
fn platform_fee_limit() {
    assert_eq!(initialize_platform(key(1), 1000, 0).err(), Some(ErrorCode::FeeTooHigh));
    let c = initialize_platform(key(1), 999, 3).unwrap();
    assert_eq!(c.fee_percentage, 999);
    assert_eq!(c.total_campaigns, 0);
    assert_eq!(c.total_fee_collected, 0);
    assert_eq!(c.lamports, 0);
}

#[test]
fn two_participant_campaign_runs_dry() {
    let mut config = platform(500);
    let mut wallet = 5000u64;
    let mut c = make(&mut config, &mut wallet, 1000, 2, 0, 0).unwrap();
    assert_eq!(config.lamports, 50);
    assert_eq!(config.total_fee_collected, 50);
    assert_eq!(config.total_campaigns, 1);
    assert_eq!(wallet, 4000);
    assert_eq!(c.reward, 950);
    assert_eq!(c.reward_per_participant, 475);
    assert_eq!(c.lamports, 950);
    assert_eq!(c.vote_count, vec![0, 0, 0]);
    assert!(c.is_active);

    let (mut r1, mut r2) = (UserReputation::new(key(10), 0), UserReputation::new(key(11), 0));
    let (mut w1, mut w2) = (0u64, 0u64);
    let v = submit_vote(&mut c, &mut r1, key(200), key(10), &mut w1, 1, NOW, 6).unwrap();
    assert_eq!(v.choice, 1);
    assert_eq!(v.voted_at, NOW);
    assert!(v.voter.equals(&key(10)));
    assert_eq!(c.lamports, 475);
    assert!(c.is_active);
    vote(&mut c, 11, &mut r2, &mut w2, 1, NOW + 10).unwrap();
    assert_eq!(w1, 475);
    assert_eq!(w2, 475);
    assert_eq!(c.lamports, 0);
    assert!(!c.is_active);
    assert_eq!(c.vote_count, vec![0, 2, 0]);
    assert_eq!(c.total_votes, 2);
    assert_eq!(c.participants.len(), 2);
    assert_eq!(r1.reputation_score, 10);

    let mut r3 = UserReputation::new(key(12), 0);
    let mut w3 = 0u64;
    assert_eq!(vote(&mut c, 12, &mut r3, &mut w3, 0, NOW), Err(ErrorCode::CampaignNotActive));
}

#[test]
fn reward_too_small_is_rejected_before_transfer() {
    let mut config = platform(0);
    let mut wallet = 5000u64;
    let before = config;
    assert_eq!(make(&mut config, &mut wallet, 99, 100, 0, 0).err(), Some(ErrorCode::RewardTooSmall));
    assert_eq!(wallet, 5000);
    assert_eq!(config.lamports, before.lamports);
    assert_eq!(config.total_campaigns, 0);
}

#[test]
fn cancel_with_a_vote_is_rejected() {
    let mut config = platform(500);
    let mut wallet = 5000u64;
    let mut c = make(&mut config, &mut wallet, 1000, 4, 0, 0).unwrap();
    let mut r = UserReputation::new(key(10), 0);
    let mut w = 0u64;
    vote(&mut c, 10, &mut r, &mut w, 0, NOW).unwrap();
    assert_eq!(cancel_campaign(&mut c, key(2), &mut wallet), Err(ErrorCode::CampaignHasVotes));
    assert_eq!(c.lamports, 950 - 237);
    assert!(c.is_active);
}

#[test]
fn cancel_before_votes_refunds_escrow() {
    let mut config = platform(500);
    let mut wallet = 5000u64;
    let mut c = make(&mut config, &mut wallet, 1000, 4, 0, 0).unwrap();
    assert_eq!(cancel_campaign(&mut c, key(3), &mut wallet), Err(ErrorCode::Unauthorized));
    assert_eq!(cancel_campaign(&mut c, key(2), &mut wallet), Ok(()));
    assert_eq!(wallet, 4950);
    assert_eq!(c.lamports, 0);
    assert!(!c.is_active);
    assert_eq!(config.lamports, 50);
}

#[test]
fn creation_validation_errors() {
    let mut config = platform(100);
    let mut w = 1_000_000u64;
    let long = "a".repeat(101);
    let e = |c: &mut PlatformConfig, w: &mut u64, t: String, d: String, o: Vec<String>, reward: u64, max: u64| {
        create_campaign(c, key(2), w, t, d, o, reward, max, 0, 0, NOW, 0).err()
    };
    let t = || String::from("t");
    assert_eq!(e(&mut config, &mut w, long.clone(), t(), opts(2), 100, 1), Some(ErrorCode::TitleTooLong));
    assert_eq!(e(&mut config, &mut w, t(), "d".repeat(501), opts(2), 100, 1), Some(ErrorCode::DescriptionTooLong));
    assert_eq!(e(&mut config, &mut w, t(), t(), opts(1), 100, 1), Some(ErrorCode::NotEnoughImages));
    assert_eq!(e(&mut config, &mut w, t(), t(), opts(11), 100, 1), Some(ErrorCode::TooManyImages));
    assert_eq!(e(&mut config, &mut w, t(), t(), opts(2), 0, 1), Some(ErrorCode::InvalidPrize));
    assert_eq!(e(&mut config, &mut w, t(), t(), opts(2), 100, 0), Some(ErrorCode::InvalidParticipants));
    assert_eq!(e(&mut config, &mut w, t(), t(), opts(2), 100_000, 101), Some(ErrorCode::InvalidParticipants));
    assert_eq!(e(&mut config, &mut w, t(), t(), vec![t(), long.clone()], 100, 1), Some(ErrorCode::ImageHashTooLong));
    assert_eq!(e(&mut config, &mut w, t(), t(), opts(2), 2_000_000, 1), Some(ErrorCode::InsufficientFunds));
    assert_eq!(w, 1_000_000);
    assert_eq!(config.total_campaigns, 0);
    // exactly at the limits is fine
    let ok = create_campaign(&mut config, key(2), &mut w, "a".repeat(100), "d".repeat(500), opts(10), 100, 1, 0, 0, NOW, 0);
    assert!(ok.is_ok());
}

#[test]
fn creation_counter_overflow() {
    let mut config = platform(500);
    config.total_campaigns = u64::MAX;
    let mut w = 5000u64;
    assert_eq!(make(&mut config, &mut w, 1000, 2, 0, 0).err(), Some(ErrorCode::ArithmeticOverflow));
    assert_eq!(w, 5000);
}

#[test]
fn vote_rejections() {
    let mut config = platform(0);
    let mut wallet = 5000u64;
    let mut c = make(&mut config, &mut wallet, 1000, 10, 1, 0).unwrap();
    let mut r = UserReputation::new(key(10), 0);
    let mut w = 0u64;
    assert_eq!(vote(&mut c, 2, &mut r, &mut w, 0, NOW), Err(ErrorCode::CreatorCannotVote));
    assert_eq!(vote(&mut c, 10, &mut r, &mut w, 3, NOW), Err(ErrorCode::InvalidChoice));
    assert_eq!(vote(&mut c, 10, &mut r, &mut w, 0, NOW), Err(ErrorCode::InsufficientReputation));
    r.reputation_score = 150;
    r.tier = ReputationTier::Regular;
    assert_eq!(vote(&mut c, 10, &mut r, &mut w, 0, NOW), Ok(()));
    assert_eq!(vote(&mut c, 10, &mut r, &mut w, 0, NOW), Err(ErrorCode::AlreadyVoted));
    assert_eq!(w, 100);
    assert_eq!(c.total_votes, 1);
    assert!(contains_key(&c.participants, &key(10)));
    assert!(!contains_key(&c.participants, &key(2)));
}

#[test]
fn expired_vote_deactivates() {
    let mut config = platform(0);
    let mut wallet = 5000u64;
    let end = NOW as u64 + 100;
    let mut c = make(&mut config, &mut wallet, 1000, 10, 0, end).unwrap();
    let mut r = UserReputation::new(key(10), 0);
    let mut w = 0u64;
    assert_eq!(vote(&mut c, 10, &mut r, &mut w, 0, NOW + 99), Ok(()));
    assert_eq!(vote(&mut c, 11, &mut r, &mut w, 0, NOW + 100), Err(ErrorCode::CampaignExpired));
    assert!(!c.is_active);
    assert_eq!(c.total_votes, 1);
    assert_eq!(w, 100);
}

#[test]
fn close_sweeps_dust() {
    let mut config = platform(500);
    let mut wallet = 5000u64;
    // 950 / 3 = 316, leaving 2 behind
    let mut c = make(&mut config, &mut wallet, 1000, 3, 0, 0).unwrap();
    assert_eq!(close_campaign(&mut c, &mut config, NOW), Err(ErrorCode::CampaignStillActive));
    for v in 10..13u8 {
        let mut r = UserReputation::new(key(v), 0);
        let mut w = 0u64;
        vote(&mut c, v, &mut r, &mut w, 2, NOW).unwrap();
    }
    assert_eq!(c.lamports, 2);
    assert_eq!(close_campaign(&mut c, &mut config, NOW), Ok(()));
    assert_eq!(c.lamports, 0);
    assert_eq!(config.lamports, 52);
    // closing again moves nothing
    assert_eq!(close_campaign(&mut c, &mut config, NOW), Ok(()));
    assert_eq!(config.lamports, 52);
}

#[test]
fn close_after_end_date() {
    let mut config = platform(0);
    let mut wallet = 5000u64;
    let mut c = make(&mut config, &mut wallet, 1000, 10, 0, NOW as u64 + 5).unwrap();
    assert_eq!(close_campaign(&mut c, &mut config, NOW + 5), Ok(()));
    assert!(!c.is_active);
    assert_eq!(config.lamports, 1000);
}

#[test]
fn withdraw_keeps_reserve() {
    let mut config = platform(500);
    config.lamports = 1500;
    let mut w = 0u64;
    assert_eq!(withdraw_fees(&mut config, key(3), &mut w, 1000), Err(ErrorCode::Unauthorized));
    assert_eq!(withdraw_fees(&mut config, key(1), &mut w, 1500), Err(ErrorCode::InsufficientFunds));
    config.total_fee_collected = 77;
    assert_eq!(withdraw_fees(&mut config, key(1), &mut w, 1000), Ok(()));
    assert_eq!(w, 500);
    assert_eq!(config.lamports, 1000);
    assert_eq!(config.total_fee_collected, 0);
}

#[test]
fn clock_reads_as_unsigned() {
    assert_eq!(clock_seconds(5), 5);
    assert_eq!(clock_seconds(-1), u64::MAX);
}

#[test]
fn key_equality() {
    let mut b = [3u8; 32];
    assert!(key(3).equals(&Pubkey::new(b)));
    b[31] = 4;
    assert!(!key(3).equals(&Pubkey::new(b)));
}

#[test]
fn record_validity() {
    let mut config = platform(500);
    assert!(config.is_valid());
    let mut wallet = 5000u64;
    let mut c = make(&mut config, &mut wallet, 1000, 3, 0, 0).unwrap();
    assert!(c.is_valid());
    let mut r = UserReputation::new(key(10), 0);
    assert!(r.is_valid());
    let mut w = 0u64;
    vote(&mut c, 10, &mut r, &mut w, 0, NOW).unwrap();
    assert!(c.is_valid());
    assert!(r.is_valid());
    c.participants.push(key(10));
    c.total_votes = 2;
    c.vote_count[0] = 2;
    assert!(!c.is_valid());
    r.tier = ReputationTier::Legend;
    assert!(!r.is_valid());
    config.fee_percentage = 1000;
    assert!(!config.is_valid());
}

#[test]
fn escrow_mismatch_is_invalid() {
    let mut config = platform(500);
    let mut wallet = 5000u64;
    let mut c = make(&mut config, &mut wallet, 1000, 3, 0, 0).unwrap();
    c.lamports = 949;
    assert!(!c.is_valid());
    c.lamports = 950;
    c.participants.push(key(2));
    c.total_votes = 1;
    c.vote_count[1] = 1;
    assert!(!c.is_valid());
}

#[test]
fn reward_too_small_beyond_participant_cap() {
    let mut config = platform(500);
    let mut wallet = 5000u64;
    // 950 / 951 == 0
    assert_eq!(make(&mut config, &mut wallet, 1000, 951, 0, 0).err(), Some(ErrorCode::RewardTooSmall));
    // enough to share, but more slots than a record holds
    assert_eq!(make(&mut config, &mut wallet, 5000, 101, 0, 0).err(), Some(ErrorCode::InvalidParticipants));
    assert_eq!(wallet, 5000);
    assert_eq!(config.lamports, 0);
    assert_eq!(config.total_campaigns, 0);
}

#[test]
fn stray_deposit_keeps_campaign_usable() {
    let mut config = platform(500);
    let mut wallet = 5000u64;
    let mut c = make(&mut config, &mut wallet, 1000, 2, 0, 0).unwrap();
    c.lamports += 7;
    assert!(c.is_valid());
    let mut r = UserReputation::new(key(10), 0);
    let mut w = 0u64;
    vote(&mut c, 10, &mut r, &mut w, 0, NOW).unwrap();
    assert_eq!(c.lamports, 482);
    let mut r2 = UserReputation::new(key(11), 0);
    vote(&mut c, 11, &mut r2, &mut w, 0, NOW).unwrap();
    assert_eq!(c.lamports, 7);
    c.lamports += 3;
    assert!(c.is_valid());
    assert_eq!(close_campaign(&mut c, &mut config, NOW), Ok(()));
    assert_eq!(config.lamports, 60);
    assert_eq!(c.lamports, 0);
}
