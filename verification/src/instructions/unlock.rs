use vstd::prelude::*;

use crate::account::{Address, PoolState, StakedNFT, UserStakingPool};
use crate::constants::NFT_NUMBER;
use crate::error::ThogError;
use crate::utils::select_item;

verus! {

broadcast use vstd::array::group_array_axioms;

/// What unlocking reads: the signing owner and the user's pool.
pub struct UnLock {
    pub owner: Address,
    pub staking_pool: UserStakingPool,
}

/// An item marked unlocked at `now`.
pub open spec fn unlocked_at(item: StakedNFT, now: u64) -> StakedNFT {
    StakedNFT { unlock_time: now, ..item }
}

impl UnLock {
    /// The pool and result of unlocking an item: for the owner only; the
    /// looked-up item (the first with the id, else an empty item standing for
    /// slot 0) must not be unlocked yet; its slot is then marked unlocked at `now`.
    pub open spec fn unlock_outcome(pool: PoolState, owner: Address, item_id: u64, now: u64) -> (
        PoolState,
        Result<(), ThogError>,
    ) {
        if owner != pool.owner {
            (pool, Err(ThogError::OnlyOwnerCanCall))
        } else if pool.selected_item(item_id).unlock_time != 0 {
            (pool, Err(ThogError::AlreadyUnlocked))
        } else {
            let k = pool.selected_index(item_id);
            (PoolState { items: pool.items.update(k, unlocked_at(pool.items[k], now)), ..pool }, Ok(()))
        }
    }

    /// The pool and result of unlocking every item: for the owner only; every
    /// item in use that is not unlocked yet is marked unlocked at `now`.
    pub open spec fn unlock_all_outcome(pool: PoolState, owner: Address, now: u64) -> (
        PoolState,
        Result<(), ThogError>,
    ) {
        if owner != pool.owner {
            (pool, Err(ThogError::OnlyOwnerCanCall))
        } else {
            (
                PoolState {
                    items: Seq::new(
                        pool.items.len(),
                        |i: int|
                            if i < pool.item_count && pool.items[i].unlock_time == 0 {
                                unlocked_at(pool.items[i], now)
                            } else {
                                pool.items[i]
                            },
                    ),
                    ..pool
                },
                Ok(()),
            )
        }
    }

    /// Marks one item unlocked at `now`.
    pub fn unlock_handler(ctx: &mut UnLock, item_id: u64, now: u64) -> (r: Result<(), ThogError>)
        requires
            old(ctx).owner == old(ctx).staking_pool.owner ==> old(
                ctx,
            ).staking_pool@.lookup_in_bounds(item_id),
        ensures
            final(ctx).owner == old(ctx).owner,
            final(ctx).staking_pool@ == Self::unlock_outcome(
                old(ctx).staking_pool@,
                old(ctx).owner,
                item_id,
                now,
            ).0,
            r == Self::unlock_outcome(old(ctx).staking_pool@, old(ctx).owner, item_id, now).1,
    {
        if !ctx.owner.same_as(&ctx.staking_pool.owner) {
            return Err(ThogError::OnlyOwnerCanCall);
        }
        let (selected_item, item_index) = select_item(&ctx.staking_pool, item_id);
        if selected_item.unlock_time != 0 {
            return Err(ThogError::AlreadyUnlocked);
        }
        ctx.staking_pool.items[item_index].unlock_time = now;
        assert(ctx.staking_pool@ =~= Self::unlock_outcome(
            old(ctx).staking_pool@,
            old(ctx).owner,
            item_id,
            now,
        ).0);
        Ok(())
    }

    /// Marks every item in use that is not unlocked yet as unlocked at `now`.
    pub fn unlock_all_handler(ctx: &mut UnLock, now: u64) -> (r: Result<(), ThogError>)
        requires
            old(ctx).owner == old(ctx).staking_pool.owner ==> old(ctx).staking_pool.item_count
                <= NFT_NUMBER,
        ensures
            final(ctx).owner == old(ctx).owner,
            final(ctx).staking_pool@ == Self::unlock_all_outcome(
                old(ctx).staking_pool@,
                old(ctx).owner,
                now,
            ).0,
            r == Self::unlock_all_outcome(old(ctx).staking_pool@, old(ctx).owner, now).1,
    {
        if !ctx.owner.same_as(&ctx.staking_pool.owner) {
            return Err(ThogError::OnlyOwnerCanCall);
        }
        let ghost start = ctx.staking_pool@;
        let count = ctx.staking_pool.item_count;
        let mut i: u64 = 0;
        while i < count
            invariant
                count == start.item_count <= NFT_NUMBER,
                i <= count,
                ctx.owner == old(ctx).owner,
                start == old(ctx).staking_pool@,
                ctx.staking_pool@ == (PoolState {
                    items: Seq::new(
                        start.items.len(),
                        |j: int|
                            if j < i && start.items[j].unlock_time == 0 {
                                unlocked_at(start.items[j], now)
                            } else {
                                start.items[j]
                            },
                    ),
                    ..start
                }),
            decreases count - i,
        {
            let index = i as usize;
            if ctx.staking_pool.items[index].unlock_time == 0 {
                ctx.staking_pool.items[index].unlock_time = now;
            }
            i += 1;
            assert(ctx.staking_pool@.items =~= Seq::new(
                start.items.len(),
                |j: int|
                    if j < i && start.items[j].unlock_time == 0 {
                        unlocked_at(start.items[j], now)
                    } else {
                        start.items[j]
                    },
            ));
        }
        assert(ctx.staking_pool@ =~= Self::unlock_all_outcome(start, old(ctx).owner, now).0);
        Ok(())
    }
}

} // verus!
