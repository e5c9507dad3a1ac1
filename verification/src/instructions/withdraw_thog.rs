use vstd::prelude::*;

use crate::account::{Address, GlobalPool, PoolState, StakedNFT, UserStakingPool};
use crate::constants::{DAY, MULTIPLIER_BASIS, NFT_NUMBER};
use crate::error::ThogError;
use crate::utils::{period_end, select_item};

verus! {

/// What withdrawing staked tokens reads: the signing owner, the user's pool
/// and the global state.
pub struct WithdrawThog {
    pub owner: Address,
    pub staking_pool: UserStakingPool,
    pub global_authority: GlobalPool,
}

/// The pool's total once the looked-up item's amount is taken out.
pub open spec fn remaining_total(pool: PoolState, selected: StakedNFT) -> int {
    pool.total_staked_amount - selected.staked_amount
}

/// The weight taken out of the global total: the pool's remaining total
/// scaled by the looked-up item's multiplier.
pub open spec fn released_weight(pool: PoolState, selected: StakedNFT) -> int {
    (remaining_total(pool, selected) * selected.multiplier) / (MULTIPLIER_BASIS as int)
}

/// Every step of settling a withdrawal stays within `u64`, where it is reached:
/// the pool holds something staked; the amounts and the weight can be taken
/// out; the slot count is within the slots; the reward of the removed item can
/// be computed and added to the pending reward.
pub open spec fn settle_fits(
    pool: PoolState,
    global: GlobalPool,
    selected: StakedNFT,
    now: u64,
) -> bool {
    pool.total_staked_amount > 0 ==> {
        &&& remaining_total(pool, selected) >= 0
        &&& remaining_total(pool, selected) * selected.multiplier <= u64::MAX
        &&& global.total_staked >= selected.staked_amount
        &&& global.total_weight >= released_weight(pool, selected)
        &&& pool.item_count <= NFT_NUMBER
        &&& pool.has_item(selected.item_id) ==> {
            let removed = pool.selected_item(selected.item_id);
            &&& removed.reward_computable_at(global.daily_drip_percentage, now)
            &&& pool.pending_reward + removed.reward_at(global.daily_drip_percentage, now)
                <= u64::MAX
        }
    }
}

/// The pool, global state and result of settling a withdrawal of the
/// looked-up item: the pool must hold something staked; the item's amount
/// leaves the pool's and the global totals, the released weight leaves the
/// global weight, the item with the looked-up item's id is removed (which may
/// fail, and then nothing changes), and its reward joins the pending reward.
/// The result is the amount of tokens to return to the owner.
pub open spec fn settle_outcome(
    pool: PoolState,
    global: GlobalPool,
    owner: Address,
    selected: StakedNFT,
    now: u64,
) -> (PoolState, GlobalPool, Result<u64, ThogError>) {
    if pool.total_staked_amount == 0 {
        (pool, global, Err(ThogError::InsufficientStakedAmount))
    } else {
        let reduced = PoolState {
            total_staked_amount: remaining_total(pool, selected) as u64,
            ..pool
        };
        let new_global = GlobalPool {
            total_staked: (global.total_staked - selected.staked_amount) as u64,
            total_weight: (global.total_weight - released_weight(pool, selected)) as u64,
            ..global
        };
        let removal = reduced.remove_outcome(
            owner,
            selected.item_id,
            global.daily_drip_percentage,
            now,
        );
        match removal.1 {
            Ok(reward) => (
                PoolState {
                    pending_reward: (removal.0.pending_reward + reward) as u64,
                    ..removal.0
                },
                new_global,
                Ok(selected.staked_amount),
            ),
            Err(e) => (pool, global, Err(e)),
        }
    }
}

/// Settles the withdrawal of the looked-up item, changing nothing on failure.
pub(crate) fn settle_withdrawal(
    pool: &mut UserStakingPool,
    global: &mut GlobalPool,
    owner: Address,
    selected: StakedNFT,
    now: u64,
) -> (r: Result<u64, ThogError>)
    requires
        owner == old(pool).owner,
        settle_fits(old(pool)@, *old(global), selected, now),
    ensures
        final(pool)@ == settle_outcome(old(pool)@, *old(global), owner, selected, now).0,
        *final(global) == settle_outcome(old(pool)@, *old(global), owner, selected, now).1,
        r == settle_outcome(old(pool)@, *old(global), owner, selected, now).2,
{
    if pool.total_staked_amount == 0 {
        return Err(ThogError::InsufficientStakedAmount);
    }
    let mut new_pool = *pool;
    let mut new_global = *global;
    new_pool.total_staked_amount -= selected.staked_amount;
    let user_weight = (new_pool.total_staked_amount * selected.multiplier) / MULTIPLIER_BASIS;
    new_global.total_staked -= selected.staked_amount;
    new_global.total_weight -= user_weight;
    proof {
        new_pool@.lemma_selection_by_ids(old(pool)@, selected.item_id);
    }
    let reward = match new_pool.remove_nft(
        owner,
        selected.item_id,
        new_global.daily_drip_percentage,
        now,
    ) {
        Ok(reward) => reward,
        Err(e) => {
            return Err(e);
        },
    };
    new_pool.pending_reward += reward;
    *pool = new_pool;
    *global = new_global;
    assert(pool@ =~= settle_outcome(old(pool)@, *old(global), owner, selected, now).0);
    Ok(selected.staked_amount)
}

/// Whether settling the withdrawal of the looked-up item stays within bounds.
pub(crate) fn settle_fits_check(
    pool: &UserStakingPool,
    global: &GlobalPool,
    selected: StakedNFT,
    now: u64,
) -> (r: bool)
    ensures
        r == settle_fits(pool@, *global, selected, now),
{
    if pool.total_staked_amount == 0 {
        return true;
    }
    if pool.total_staked_amount < selected.staked_amount {
        return false;
    }
    let remaining = pool.total_staked_amount - selected.staked_amount;
    let scaled = match remaining.checked_mul(selected.multiplier) {
        Some(v) => v,
        None => {
            return false;
        },
    };
    if global.total_staked < selected.staked_amount {
        return false;
    }
    if global.total_weight < scaled / MULTIPLIER_BASIS {
        return false;
    }
    if pool.item_count > NFT_NUMBER as u64 {
        return false;
    }
    match pool.find_slot(selected.item_id) {
        None => true,
        Some(k) => {
            proof {
                pool@.lemma_selected_is_first(selected.item_id);
                pool@.lemma_first_match_unique(
                    selected.item_id,
                    k as int,
                    pool@.selected_index(selected.item_id),
                );
            }
            let removed = pool.items[k];
            if !removed.reward_fits_at(global.daily_drip_percentage, now) {
                return false;
            }
            let reward = removed.reward(global.daily_drip_percentage, now);
            pool.pending_reward.checked_add(reward).is_some()
        },
    }
}

impl WithdrawThog {
    /// The pool, global state and result of withdrawing the tokens of an
    /// item: for the owner only; the looked-up item's lock period must be over;
    /// then the withdrawal is settled.
    pub open spec fn withdraw_outcome(
        pool: PoolState,
        global: GlobalPool,
        owner: Address,
        item_id: u64,
        now: u64,
    ) -> (PoolState, GlobalPool, Result<u64, ThogError>) {
        let selected = pool.selected_item(item_id);
        if owner != pool.owner {
            (pool, global, Err(ThogError::OnlyOwnerCanCall))
        } else if now < period_end(selected.lock_time, selected.period) {
            (pool, global, Err(ThogError::WithdrawAfter))
        } else {
            settle_outcome(pool, global, owner, selected, now)
        }
    }

    /// Every step of the withdrawal that is reached stays within bounds.
    pub open spec fn withdraw_fits(
        pool: PoolState,
        global: GlobalPool,
        owner: Address,
        item_id: u64,
        now: u64,
    ) -> bool {
        let selected = pool.selected_item(item_id);
        owner == pool.owner ==> {
            &&& pool.lookup_in_bounds(item_id)
            &&& period_end(selected.lock_time, selected.period) <= u64::MAX
            &&& now >= period_end(selected.lock_time, selected.period) ==> settle_fits(
                pool,
                global,
                selected,
                now,
            )
        }
    }

    /// Whether every step of the withdrawal that is reached stays within bounds.
    pub fn can_withdraw(ctx: &WithdrawThog, item_id: u64, now: u64) -> (r: bool)
        ensures
            r == Self::withdraw_fits(
                ctx.staking_pool@,
                ctx.global_authority,
                ctx.owner,
                item_id,
                now,
            ),
    {
        if !ctx.owner.same_as(&ctx.staking_pool.owner) {
            return true;
        }
        if !ctx.staking_pool.can_look_up(item_id) {
            return false;
        }
        let (selected_item, _item_index) = select_item(&ctx.staking_pool, item_id);
        let span = match DAY.checked_mul(selected_item.period) {
            Some(v) => v,
            None => {
                return false;
            },
        };
        let end = match selected_item.lock_time.checked_add(span) {
            Some(v) => v,
            None => {
                return false;
            },
        };
        if now < end {
            return true;
        }
        settle_fits_check(&ctx.staking_pool, &ctx.global_authority, selected_item, now)
    }

    /// Withdraws the tokens of an item once its lock period is over. Returns
    /// the amount of tokens to send from the vault back to the owner.
    pub fn withdraw_thog_handler(ctx: &mut WithdrawThog, item_id: u64, now: u64) -> (r: Result<
        u64,
        ThogError,
    >)
        requires
            Self::withdraw_fits(
                old(ctx).staking_pool@,
                old(ctx).global_authority,
                old(ctx).owner,
                item_id,
                now,
            ),
        ensures
            final(ctx).owner == old(ctx).owner,
            final(ctx).staking_pool@ == Self::withdraw_outcome(
                old(ctx).staking_pool@,
                old(ctx).global_authority,
                old(ctx).owner,
                item_id,
                now,
            ).0,
            final(ctx).global_authority == Self::withdraw_outcome(
                old(ctx).staking_pool@,
                old(ctx).global_authority,
                old(ctx).owner,
                item_id,
                now,
            ).1,
            r == Self::withdraw_outcome(
                old(ctx).staking_pool@,
                old(ctx).global_authority,
                old(ctx).owner,
                item_id,
                now,
            ).2,
    {
        if !ctx.owner.same_as(&ctx.staking_pool.owner) {
            return Err(ThogError::OnlyOwnerCanCall);
        }
        let (selected_item, _item_index) = select_item(&ctx.staking_pool, item_id);
        if !(now >= selected_item.lock_time + DAY * selected_item.period) {
            return Err(ThogError::WithdrawAfter);
        }
        let owner = ctx.owner;
        settle_withdrawal(&mut ctx.staking_pool, &mut ctx.global_authority, owner, selected_item, now)
    }
}

} // verus!
