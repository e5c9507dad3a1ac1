use vstd::prelude::*;

verus! {

/// The errors that the instructions of the staking program report.
#[derive(Debug, Clone, Copy, PartialEq, Eq, Structural)]
pub enum ThogError {
    /// "You are not authorized."
    Unautherized,
    /// "You are not super admin."
    InvalidAdmin,
    /// "Invalid item count."
    InvalidItemCount,
    /// "You can't unlock."
    LockPeriodNotOver,
    /// "You can withdraw after 24 hours."
    WithdrawNotOver,
    /// "You can withdraw after 1 day when you unlocked nft."
    WithdrawAfter,
    /// "You have already unlocked."
    AlreadyUnlocked,
    /// "Insufficient staked token amount."
    InsufficientStakedAmount,
    /// "Only owner can call this func."
    OnlyOwnerCanCall,
    /// "You can't unlock in LockTime"
    BeforeLockTime,
    /// "No Matching NFT to withdraw"
    InvalidNFTAddress,
    /// "Collection is invalid"
    InvalidCollection,
    /// "Can not parse creators in metadata"
    MetadataCreatorParseError,
    /// "time overflow"
    TimeOverflow,
    /// "multiplication overflow"
    MultiplicationOverflow,
    /// "Insufficient claim amount."
    InsufficientClaimAmount,
    /// "Insufficient reward vault amount."
    InsufficientRewardVaultBalance,
}

} // verus!
