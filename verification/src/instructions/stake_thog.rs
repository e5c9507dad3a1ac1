use vstd::prelude::*;

use crate::account::{Address, GlobalPool, PoolState, StakedNFT, UserStakingPool};
use crate::constants::{NFT_NUMBER, THOG_MULTIPLIER, THOG_PERIOD};
use crate::error::ThogError;

verus! {

/// What staking plain THOG tokens reads: the signing owner, the global state
/// and the user's pool.
pub struct StakeThog {
    pub owner: Address,
    pub global_authority: GlobalPool,
    pub staking_pool: UserStakingPool,
}

impl StakeThog {
    /// The item recorded for a token stake made at `now`: no NFT, the base
    /// multiplier, a thirty-day period; the caller's `lock_time` argument
    /// becomes the item's id.
    pub open spec fn new_item(amount: u64, lock_time: u64, now: u64) -> StakedNFT {
        StakedNFT {
            nft_addr: Address::zero_spec(),
            staked_amount: amount,
            multiplier: THOG_MULTIPLIER,
            period: THOG_PERIOD,
            lock_time: now,
            item_id: lock_time,
            unlock_time: 0,
            last_update_time: now,
        }
    }

    /// A free slot remains and every total of the stake fits in a `u64`.
    pub open spec fn stake_fits(pool: PoolState, global: GlobalPool, amount: u64) -> bool {
        &&& pool.item_count < NFT_NUMBER
        &&& pool.total_staked_amount + amount <= u64::MAX
        &&& global.total_staked + amount <= u64::MAX
        &&& global.total_weight + pool.total_staked_amount + amount <= u64::MAX
    }

    /// The global state after the stake: the amount added to the total staked,
    /// and the pool's new total added to the total weight.
    pub open spec fn staked_global(pool: PoolState, global: GlobalPool, amount: u64) -> GlobalPool {
        GlobalPool {
            total_staked: (global.total_staked + amount) as u64,
            total_weight: (global.total_weight + pool.total_staked_amount + amount) as u64,
            ..global
        }
    }

    /// Whether a free slot remains and every total of the stake fits.
    pub fn can_stake(ctx: &StakeThog, amount: u64) -> (r: bool)
        ensures
            r == Self::stake_fits(ctx.staking_pool@, ctx.global_authority, amount),
    {
        if ctx.staking_pool.item_count >= NFT_NUMBER as u64 {
            return false;
        }
        let total = match ctx.staking_pool.total_staked_amount.checked_add(amount) {
            Some(v) => v,
            None => {
                return false;
            },
        };
        if ctx.global_authority.total_staked.checked_add(amount).is_none() {
            return false;
        }
        ctx.global_authority.total_weight.checked_add(total).is_some()
    }

    /// Records the stake of `amount` tokens, once they are moved to the vault.
    pub fn stake_thog_handler(
        ctx: &mut StakeThog,
        amount: u64,
        lock_time: u64,
        now: u64,
    ) -> (r: Result<(), ThogError>)
        requires
            Self::stake_fits(old(ctx).staking_pool@, old(ctx).global_authority, amount),
        ensures
            r == Ok::<(), ThogError>(()),
            final(ctx).owner == old(ctx).owner,
            final(ctx).staking_pool@ == old(ctx).staking_pool@.deposit_outcome(
                Self::new_item(amount, lock_time, now),
            ),
            final(ctx).global_authority == Self::staked_global(
                old(ctx).staking_pool@,
                old(ctx).global_authority,
                amount,
            ),
    {
        ctx.staking_pool.total_staked_amount += amount;
        let staked_item = StakedNFT {
            nft_addr: Address::zero(),
            staked_amount: amount,
            multiplier: THOG_MULTIPLIER,
            period: THOG_PERIOD,
            lock_time: now,
            item_id: lock_time,
            unlock_time: 0,
            last_update_time: now,
        };
        ctx.staking_pool.add_nft(staked_item);
        ctx.global_authority.total_staked += amount;
        ctx.global_authority.total_weight += ctx.staking_pool.total_staked_amount;
        assert(ctx.staking_pool@ =~= old(ctx).staking_pool@.deposit_outcome(staked_item));
        Ok(())
    }
}

} // verus!
