use vstd::prelude::*;

use crate::account::{Address, GlobalPool, PoolState, UserStakingPool};
use crate::constants::DAY;
use crate::error::ThogError;
use crate::instructions::withdraw_thog::{
    settle_fits,
    settle_fits_check,
    settle_outcome,
    settle_withdrawal,
};
use crate::utils::select_item;

verus! {

/// What withdrawing a staked NFT reads: the signing owner, the user's pool and
/// the global state.
pub struct Withdraw {
    pub owner: Address,
    pub staking_pool: UserStakingPool,
    pub global_authority: GlobalPool,
}

impl Withdraw {
    /// The moment from which the looked-up item may be withdrawn: one day
    /// after its unlock time.
    pub open spec fn release_time(pool: PoolState, item_id: u64) -> int {
        pool.selected_item(item_id).unlock_time + DAY
    }

    /// The pool, global state and result of withdrawing an NFT: for the owner
    /// only; a day must have passed since the looked-up item's unlock time;
    /// then the withdrawal is settled.
    pub open spec fn withdraw_outcome(
        pool: PoolState,
        global: GlobalPool,
        owner: Address,
        item_id: u64,
        now: u64,
    ) -> (PoolState, GlobalPool, Result<u64, ThogError>) {
        if owner != pool.owner {
            (pool, global, Err(ThogError::OnlyOwnerCanCall))
        } else if now < Self::release_time(pool, item_id) {
            (pool, global, Err(ThogError::WithdrawNotOver))
        } else {
            settle_outcome(pool, global, owner, pool.selected_item(item_id), now)
        }
    }

    /// Every step of the withdrawal that is reached stays within bounds.
    pub open spec fn withdraw_fits(
        pool: PoolState,
        global: GlobalPool,
        owner: Address,
        item_id: u64,
        now: u64,
    ) -> bool {
        owner == pool.owner ==> {
            &&& pool.lookup_in_bounds(item_id)
            &&& Self::release_time(pool, item_id) <= u64::MAX
            &&& now >= Self::release_time(pool, item_id) ==> settle_fits(
                pool,
                global,
                pool.selected_item(item_id),
                now,
            )
        }
    }

    /// Whether every step of the withdrawal that is reached stays within bounds.
    pub fn can_withdraw(ctx: &Withdraw, item_id: u64, now: u64) -> (r: bool)
        ensures
            r == Self::withdraw_fits(
                ctx.staking_pool@,
                ctx.global_authority,
                ctx.owner,
                item_id,
                now,
            ),
    {
        if !ctx.owner.same_as(&ctx.staking_pool.owner) {
            return true;
        }
        if !ctx.staking_pool.can_look_up(item_id) {
            return false;
        }
        let (selected_item, _item_index) = select_item(&ctx.staking_pool, item_id);
        let release = match selected_item.unlock_time.checked_add(DAY) {
            Some(v) => v,
            None => {
                return false;
            },
        };
        if now < release {
            return true;
        }
        settle_fits_check(&ctx.staking_pool, &ctx.global_authority, selected_item, now)
    }

    /// Withdraws a staked NFT and its tokens a day after it was unlocked.
    /// Returns the amount of tokens to send from the vault back to the owner;
    /// the NFT itself is unlocked and its delegation revoked by the caller.
    pub fn withdraw_thog_nft_handler(ctx: &mut Withdraw, item_id: u64, now: u64) -> (r: Result<
        u64,
        ThogError,
    >)
        requires
            Self::withdraw_fits(
                old(ctx).staking_pool@,
                old(ctx).global_authority,
                old(ctx).owner,
                item_id,
                now,
            ),
        ensures
            final(ctx).owner == old(ctx).owner,
            final(ctx).staking_pool@ == Self::withdraw_outcome(
                old(ctx).staking_pool@,
                old(ctx).global_authority,
                old(ctx).owner,
                item_id,
                now,
            ).0,
            final(ctx).global_authority == Self::withdraw_outcome(
                old(ctx).staking_pool@,
                old(ctx).global_authority,
                old(ctx).owner,
                item_id,
                now,
            ).1,
            r == Self::withdraw_outcome(
                old(ctx).staking_pool@,
                old(ctx).global_authority,
                old(ctx).owner,
                item_id,
                now,
            ).2,
    {
        if !ctx.owner.same_as(&ctx.staking_pool.owner) {
            return Err(ThogError::OnlyOwnerCanCall);
        }
        let (selected_item, _item_index) = select_item(&ctx.staking_pool, item_id);
        if !(now >= selected_item.unlock_time + DAY) {
            return Err(ThogError::WithdrawNotOver);
        }
        let owner = ctx.owner;
        settle_withdrawal(&mut ctx.staking_pool, &mut ctx.global_authority, owner, selected_item, now)
    }
}

} // verus!
