use vstd::prelude::*;

verus! {

/// Seconds in one day.
pub const DAY: u64 = 86400;

/// Lamports in one SOL.
pub const SOLANA_LAMPORTS: u64 = 1_000_000_000;

/// Number of item slots in a user's staking pool.
pub const NFT_NUMBER: usize = 30;

/// Multiplier basis: a multiplier of this value weighs an item at its staked amount.
pub const MULTIPLIER_BASIS: u64 = 10000;

/// Multiplier given to plain THOG token stakes.
pub const THOG_MULTIPLIER: u64 = 10000;

/// Lock period, in days, given to plain THOG token stakes.
pub const THOG_PERIOD: u64 = 30;

} // verus!
