use vstd::prelude::*;

verus! {

/// Every named failure that an operation can report.  A failed operation
/// leaves the records it was given unchanged (except for the lazy expiry of a
/// campaign, see `submit_vote`).
#[derive(Debug, Clone, Copy, PartialEq, Eq, Structural)]
pub enum ErrorCode {
    FeeTooHigh,
    TitleTooLong,
    DescriptionTooLong,
    NotEnoughImages,
    TooManyImages,
    ImageHashTooLong,
    InvalidPrize,
    InvalidParticipants,
    RewardTooSmall,
    CampaignNotActive,
    CampaignExpired,
    InvalidChoice,
    InsufficientReputation,
    CampaignFull,
    CampaignStillActive,
    Unauthorized,
    InsufficientFunds,
    CreatorCannotVote,
    CampaignHasVotes,
    AlreadyVoted,
    ArithmeticOverflow,
}

} // verus!
