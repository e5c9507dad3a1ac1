use vstd::prelude::*;

use crate::account::{Address, GlobalPool, PoolState, StakedNFT, UserStakingPool};
use crate::constants::{MULTIPLIER_BASIS, NFT_NUMBER};
use crate::error::ThogError;

verus! {

/// What staking an NFT with tokens reads: the signing owner, the global state,
/// the user's pool and the NFT's token account.
pub struct Stake {
    pub owner: Address,
    pub global_authority: GlobalPool,
    pub staking_pool: UserStakingPool,
    pub nft_token_account: Address,
}

impl Stake {
    /// The item recorded for an NFT stake made at `now`; the caller's
    /// `lock_time` argument becomes the item's id.
    pub open spec fn new_item(
        nft_addr: Address,
        amount: u64,
        multiplier: u64,
        period: u64,
        lock_time: u64,
        now: u64,
    ) -> StakedNFT {
        StakedNFT {
            nft_addr,
            staked_amount: amount,
            multiplier,
            period,
            lock_time: now,
            item_id: lock_time,
            unlock_time: 0,
            last_update_time: now,
        }
    }

    /// A free slot remains and every total of the stake fits in a `u64`.
    pub open spec fn stake_fits(
        pool: PoolState,
        global: GlobalPool,
        amount: u64,
        multiplier: u64,
    ) -> bool {
        &&& pool.item_count < NFT_NUMBER
        &&& pool.total_staked_amount + amount <= u64::MAX
        &&& (pool.total_staked_amount + amount) * multiplier <= u64::MAX
        &&& global.total_staked + amount <= u64::MAX
        &&& global.total_weight + ((pool.total_staked_amount + amount) * multiplier) / (
        MULTIPLIER_BASIS as int) <= u64::MAX
    }

    /// The global state after the stake: the amount added to the total staked,
    /// and the weight of the pool's new total (scaled by this stake's
    /// multiplier) added to the total weight.
    pub open spec fn staked_global(
        pool: PoolState,
        global: GlobalPool,
        amount: u64,
        multiplier: u64,
    ) -> GlobalPool {
        GlobalPool {
            total_staked: (global.total_staked + amount) as u64,
            total_weight: (global.total_weight + ((pool.total_staked_amount + amount) * multiplier)
                / (MULTIPLIER_BASIS as int)) as u64,
            ..global
        }
    }

    /// Whether a free slot remains and every total of the stake fits.
    pub fn can_stake(ctx: &Stake, amount: u64, multiplier: u64) -> (r: bool)
        ensures
            r == Self::stake_fits(ctx.staking_pool@, ctx.global_authority, amount, multiplier),
    {
        if ctx.staking_pool.item_count >= NFT_NUMBER as u64 {
            return false;
        }
        let total = match ctx.staking_pool.total_staked_amount.checked_add(amount) {
            Some(v) => v,
            None => {
                return false;
            },
        };
        let scaled = match total.checked_mul(multiplier) {
            Some(v) => v,
            None => {
                return false;
            },
        };
        if ctx.global_authority.total_staked.checked_add(amount).is_none() {
            return false;
        }
        ctx.global_authority.total_weight.checked_add(scaled / MULTIPLIER_BASIS).is_some()
    }

    /// Records the stake of an NFT with `amount` tokens, once the NFT is locked
    /// and the tokens are moved to the vault.
    pub fn stake_thog_nft(
        ctx: &mut Stake,
        amount: u64,
        multiplier: u64,
        period: u64,
        lock_time: u64,
        now: u64,
    ) -> (r: Result<(), ThogError>)
        requires
            Self::stake_fits(
                old(ctx).staking_pool@,
                old(ctx).global_authority,
                amount,
                multiplier,
            ),
        ensures
            r == Ok::<(), ThogError>(()),
            final(ctx).owner == old(ctx).owner,
            final(ctx).nft_token_account == old(ctx).nft_token_account,
            final(ctx).staking_pool@ == old(ctx).staking_pool@.deposit_outcome(
                Self::new_item(old(ctx).nft_token_account, amount, multiplier, period, lock_time, now),
            ),
            final(ctx).global_authority == Self::staked_global(
                old(ctx).staking_pool@,
                old(ctx).global_authority,
                amount,
                multiplier,
            ),
    {
        ctx.staking_pool.total_staked_amount += amount;
        let staked_item = StakedNFT {
            nft_addr: ctx.nft_token_account,
            staked_amount: amount,
            multiplier,
            period,
            lock_time: now,
            item_id: lock_time,
            unlock_time: 0,
            last_update_time: now,
        };
        ctx.staking_pool.add_nft(staked_item);
        ctx.global_authority.total_staked += amount;
        ctx.global_authority.total_weight += ctx.staking_pool.total_staked_amount * multiplier
            / MULTIPLIER_BASIS;
        assert(ctx.staking_pool@ =~= old(ctx).staking_pool@.deposit_outcome(staked_item));
        Ok(())
    }
}

} // verus!
