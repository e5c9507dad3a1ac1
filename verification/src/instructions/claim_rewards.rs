use vstd::prelude::*;

use crate::account::{Address, GlobalPool, PoolState, StakedNFT, UserStakingPool};
use crate::constants::NFT_NUMBER;
use crate::error::ThogError;
use crate::utils::{lemma_reward_nonnegative, select_item};

verus! {

broadcast use vstd::array::group_array_axioms;

/// What claiming rewards reads: the signing owner, the user's pool, the
/// global state and the reward vault's balance in lamports.
pub struct ClaimRewards {
    pub owner: Address,
    pub staking_pool: UserStakingPool,
    pub global_authority: GlobalPool,
    pub reward_vault_lamports: u64,
}

/// An item whose rewards were claimed at `now`.
pub open spec fn claimed_at(item: StakedNFT, now: u64) -> StakedNFT {
    StakedNFT { last_update_time: now, ..item }
}

/// The sum of the rewards at `now` of the first `n` items.
pub open spec fn rewards_total(items: Seq<StakedNFT>, n: int, daily_drip_percentage: u64, now: u64) -> int
    decreases n,
{
    if n <= 0 {
        0
    } else {
        rewards_total(items, n - 1, daily_drip_percentage, now) + items[n - 1].reward_at(
            daily_drip_percentage,
            now,
        )
    }
}

/// The items with the first `n` marked claimed at `now`.
pub open spec fn claimed_until(items: Seq<StakedNFT>, n: int, now: u64) -> Seq<StakedNFT> {
    Seq::new(items.len(), |i: int| if i < n { claimed_at(items[i], now) } else { items[i] })
}

/// The sum of the rewards of fewer items is no larger.
pub proof fn lemma_rewards_total_monotone(
    items: Seq<StakedNFT>,
    m: int,
    n: int,
    daily_drip_percentage: u64,
    now: u64,
)
    requires
        0 <= m <= n,
    ensures
        rewards_total(items, m, daily_drip_percentage, now) <= rewards_total(
            items,
            n,
            daily_drip_percentage,
            now,
        ),
    decreases n,
{
    if m < n {
        lemma_rewards_total_monotone(items, m, n - 1, daily_drip_percentage, now);
        let item = items[n - 1];
        lemma_reward_nonnegative(
            item.lock_time,
            item.period,
            item.staked_amount,
            item.last_update_time,
            item.multiplier,
            daily_drip_percentage,
            now,
        );
    }
}

impl ClaimRewards {
    /// The pool and result of claiming one item's reward: for the owner only;
    /// the looked-up item's reward at `now` must be positive and below the
    /// vault's balance; the item's slot is then marked claimed at `now`. The
    /// result is the reward, in lamports to send from the vault to the owner.
    pub open spec fn claim_outcome(
        pool: PoolState,
        global: GlobalPool,
        owner: Address,
        vault_lamports: u64,
        item_id: u64,
        now: u64,
    ) -> (PoolState, Result<u64, ThogError>) {
        let reward = pool.selected_item(item_id).reward_at(global.daily_drip_percentage, now);
        let k = pool.selected_index(item_id);
        if owner != pool.owner {
            (pool, Err(ThogError::OnlyOwnerCanCall))
        } else if reward <= 0 {
            (pool, Err(ThogError::InsufficientClaimAmount))
        } else if vault_lamports <= reward {
            (pool, Err(ThogError::InsufficientRewardVaultBalance))
        } else {
            (
                PoolState { items: pool.items.update(k, claimed_at(pool.items[k], now)), ..pool },
                Ok(reward as u64),
            )
        }
    }

    /// The pool and result of claiming the pending reward: for the owner only;
    /// it must be positive and below the vault's balance; it is then cleared.
    pub open spec fn claim_pending_outcome(
        pool: PoolState,
        owner: Address,
        vault_lamports: u64,
    ) -> (PoolState, Result<u64, ThogError>) {
        if owner != pool.owner {
            (pool, Err(ThogError::OnlyOwnerCanCall))
        } else if pool.pending_reward == 0 {
            (pool, Err(ThogError::InsufficientClaimAmount))
        } else if vault_lamports <= pool.pending_reward {
            (pool, Err(ThogError::InsufficientRewardVaultBalance))
        } else {
            (PoolState { pending_reward: 0, ..pool }, Ok(pool.pending_reward))
        }
    }

    /// The pool and result of claiming everything: for the owner only; the
    /// count must be within the slots; the rewards at `now` of all items in use
    /// plus the pending reward must be positive and below the vault's balance;
    /// every item in use is then marked claimed at `now` and the pending reward
    /// cleared.
    pub open spec fn claim_all_outcome(
        pool: PoolState,
        global: GlobalPool,
        owner: Address,
        vault_lamports: u64,
        now: u64,
    ) -> (PoolState, Result<u64, ThogError>) {
        let total = rewards_total(pool.items, pool.item_count as int, global.daily_drip_percentage, now)
            + pool.pending_reward;
        if owner != pool.owner {
            (pool, Err(ThogError::OnlyOwnerCanCall))
        } else if pool.item_count > NFT_NUMBER {
            (pool, Err(ThogError::InvalidItemCount))
        } else if total <= 0 {
            (pool, Err(ThogError::InsufficientClaimAmount))
        } else if vault_lamports <= total {
            (pool, Err(ThogError::InsufficientRewardVaultBalance))
        } else {
            (
                PoolState {
                    items: claimed_until(pool.items, pool.item_count as int, now),
                    pending_reward: 0,
                    ..pool
                },
                Ok(total as u64),
            )
        }
    }

    /// The reward of every item in use can be computed at `now`, and their sum
    /// with the pending reward fits in a `u64`, where the claim reaches them.
    pub open spec fn claim_all_fits(pool: PoolState, global: GlobalPool, owner: Address, now: u64) -> bool {
        owner == pool.owner && pool.item_count <= NFT_NUMBER ==> {
            &&& forall|i: int|
                0 <= i < pool.item_count ==> #[trigger] pool.items[i].reward_computable_at(
                    global.daily_drip_percentage,
                    now,
                )
            &&& rewards_total(pool.items, pool.item_count as int, global.daily_drip_percentage, now)
                + pool.pending_reward <= u64::MAX
        }
    }

    /// The lookup stays within the slots and the looked-up item's reward can
    /// be computed, where the claim reaches them.
    pub open spec fn claim_fits(
        pool: PoolState,
        global: GlobalPool,
        owner: Address,
        item_id: u64,
        now: u64,
    ) -> bool {
        owner == pool.owner ==> {
            &&& pool.lookup_in_bounds(item_id)
            &&& pool.selected_item(item_id).reward_computable_at(
                global.daily_drip_percentage,
                now,
            )
        }
    }

    /// Whether the claim of one item stays within bounds.
    pub fn can_claim(ctx: &ClaimRewards, item_id: u64, now: u64) -> (r: bool)
        ensures
            r == Self::claim_fits(ctx.staking_pool@, ctx.global_authority, ctx.owner, item_id, now),
    {
        if !ctx.owner.same_as(&ctx.staking_pool.owner) {
            return true;
        }
        if !ctx.staking_pool.can_look_up(item_id) {
            return false;
        }
        let (selected_item, _item_index) = select_item(&ctx.staking_pool, item_id);
        selected_item.reward_fits_at(ctx.global_authority.daily_drip_percentage, now)
    }

    /// Whether the claim of everything stays within bounds.
    pub fn can_claim_all(ctx: &ClaimRewards, now: u64) -> (r: bool)
        ensures
            r == Self::claim_all_fits(ctx.staking_pool@, ctx.global_authority, ctx.owner, now),
    {
        if !ctx.owner.same_as(&ctx.staking_pool.owner) {
            return true;
        }
        let count = ctx.staking_pool.item_count;
        if count > NFT_NUMBER as u64 {
            return true;
        }
        let ddp = ctx.global_authority.daily_drip_percentage;
        let ghost items = ctx.staking_pool@.items;
        let mut sum: u64 = 0;
        let mut i: u64 = 0;
        while i < count
            invariant
                count == ctx.staking_pool.item_count <= NFT_NUMBER,
                ctx.owner == ctx.staking_pool.owner,
                ddp == ctx.global_authority.daily_drip_percentage,
                items == ctx.staking_pool@.items,
                i <= count,
                forall|j: int| 0 <= j < i ==> #[trigger] items[j].reward_computable_at(ddp, now),
                sum == rewards_total(items, i as int, ddp, now),
            decreases count - i,
        {
            let item = ctx.staking_pool.items[i as usize];
            if !item.reward_fits_at(ddp, now) {
                return false;
            }
            let reward = item.reward(ddp, now);
            sum = match sum.checked_add(reward) {
                Some(v) => v,
                None => {
                    proof {
                        lemma_rewards_total_monotone(items, i + 1, count as int, ddp, now);
                    }
                    return false;
                },
            };
            i += 1;
        }
        sum.checked_add(ctx.staking_pool.pending_reward).is_some()
    }

    /// Claims the reward of one item. Returns the lamports to send from the
    /// reward vault to the owner.
    pub fn claim_rewards_handler(ctx: &mut ClaimRewards, item_id: u64, now: u64) -> (r: Result<
        u64,
        ThogError,
    >)
        requires
            Self::claim_fits(
                old(ctx).staking_pool@,
                old(ctx).global_authority,
                old(ctx).owner,
                item_id,
                now,
            ),
        ensures
            final(ctx).owner == old(ctx).owner,
            final(ctx).global_authority == old(ctx).global_authority,
            final(ctx).reward_vault_lamports == old(ctx).reward_vault_lamports,
            final(ctx).staking_pool@ == Self::claim_outcome(
                old(ctx).staking_pool@,
                old(ctx).global_authority,
                old(ctx).owner,
                old(ctx).reward_vault_lamports,
                item_id,
                now,
            ).0,
            r == Self::claim_outcome(
                old(ctx).staking_pool@,
                old(ctx).global_authority,
                old(ctx).owner,
                old(ctx).reward_vault_lamports,
                item_id,
                now,
            ).1,
    {
        if !ctx.owner.same_as(&ctx.staking_pool.owner) {
            return Err(ThogError::OnlyOwnerCanCall);
        }
        let (selected_item, item_index) = select_item(&ctx.staking_pool, item_id);
        let reward = selected_item.reward(ctx.global_authority.daily_drip_percentage, now);
        if !(reward > 0) {
            return Err(ThogError::InsufficientClaimAmount);
        }
        if !(ctx.reward_vault_lamports > reward) {
            return Err(ThogError::InsufficientRewardVaultBalance);
        }
        ctx.staking_pool.items[item_index].last_update_time = now;
        assert(ctx.staking_pool@ =~= Self::claim_outcome(
            old(ctx).staking_pool@,
            old(ctx).global_authority,
            old(ctx).owner,
            old(ctx).reward_vault_lamports,
            item_id,
            now,
        ).0);
        Ok(reward)
    }

    /// Claims the pending reward. Returns the lamports to send from the
    /// reward vault to the owner.
    pub fn claim_pending_rewards_handler(ctx: &mut ClaimRewards) -> (r: Result<u64, ThogError>)
        ensures
            final(ctx).owner == old(ctx).owner,
            final(ctx).global_authority == old(ctx).global_authority,
            final(ctx).reward_vault_lamports == old(ctx).reward_vault_lamports,
            final(ctx).staking_pool@ == Self::claim_pending_outcome(
                old(ctx).staking_pool@,
                old(ctx).owner,
                old(ctx).reward_vault_lamports,
            ).0,
            r == Self::claim_pending_outcome(
                old(ctx).staking_pool@,
                old(ctx).owner,
                old(ctx).reward_vault_lamports,
            ).1,
    {
        if !ctx.owner.same_as(&ctx.staking_pool.owner) {
            return Err(ThogError::OnlyOwnerCanCall);
        }
        let claim_amount: u64 = ctx.staking_pool.pending_reward;
        if !(claim_amount > 0) {
            return Err(ThogError::InsufficientClaimAmount);
        }
        if !(ctx.reward_vault_lamports > claim_amount) {
            return Err(ThogError::InsufficientRewardVaultBalance);
        }
        ctx.staking_pool.pending_reward = 0;
        Ok(claim_amount)
    }

    /// Claims the rewards of every item in use together with the pending
    /// reward. Returns the lamports to send from the reward vault to the owner.
    pub fn claim_all_rewards_handler(ctx: &mut ClaimRewards, now: u64) -> (r: Result<u64, ThogError>)
        requires
            Self::claim_all_fits(
                old(ctx).staking_pool@,
                old(ctx).global_authority,
                old(ctx).owner,
                now,
            ),
        ensures
            final(ctx).owner == old(ctx).owner,
            final(ctx).global_authority == old(ctx).global_authority,
            final(ctx).reward_vault_lamports == old(ctx).reward_vault_lamports,
            final(ctx).staking_pool@ == Self::claim_all_outcome(
                old(ctx).staking_pool@,
                old(ctx).global_authority,
                old(ctx).owner,
                old(ctx).reward_vault_lamports,
                now,
            ).0,
            r == Self::claim_all_outcome(
                old(ctx).staking_pool@,
                old(ctx).global_authority,
                old(ctx).owner,
                old(ctx).reward_vault_lamports,
                now,
            ).1,
    {
        if !ctx.owner.same_as(&ctx.staking_pool.owner) {
            return Err(ThogError::OnlyOwnerCanCall);
        }
        let ddp = ctx.global_authority.daily_drip_percentage;
        if !(ctx.staking_pool.item_count <= NFT_NUMBER as u64) {
            return Err(ThogError::InvalidItemCount);
        }
        let ghost start = ctx.staking_pool@;
        let mut pool = ctx.staking_pool;
        let count = pool.item_count;
        let mut claim_amount: u64 = 0;
        let mut i: u64 = 0;
        assert(pool@ =~= PoolState { items: claimed_until(start.items, 0, now), ..start });
        while i < count
            invariant
                count == start.item_count <= NFT_NUMBER,
                start.items.len() == NFT_NUMBER,
                i <= count,
                forall|j: int|
                    0 <= j < count ==> #[trigger] start.items[j].reward_computable_at(ddp, now),
                rewards_total(start.items, count as int, ddp, now) + start.pending_reward
                    <= u64::MAX,
                claim_amount == rewards_total(start.items, i as int, ddp, now),
                pool@ == (PoolState { items: claimed_until(start.items, i as int, now), ..start }),
            decreases count - i,
        {
            let index = i as usize;
            let reward = pool.items[index].reward(ddp, now);
            pool.items[index].last_update_time = now;
            proof {
                lemma_rewards_total_monotone(start.items, i + 1, count as int, ddp, now);
            }
            claim_amount += reward;
            i += 1;
            assert(pool@.items =~= claimed_until(start.items, i as int, now));
        }
        claim_amount += pool.pending_reward;
        if !(claim_amount > 0) {
            return Err(ThogError::InsufficientClaimAmount);
        }
        if !(ctx.reward_vault_lamports > claim_amount) {
            return Err(ThogError::InsufficientRewardVaultBalance);
        }
        pool.pending_reward = 0;
        ctx.staking_pool = pool;
        assert(ctx.staking_pool@ =~= Self::claim_all_outcome(
            start,
            old(ctx).global_authority,
            old(ctx).owner,
            old(ctx).reward_vault_lamports,
            now,
        ).0);
        Ok(claim_amount)
    }
}

} // verus!
