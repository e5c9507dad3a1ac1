//! Properties of the staking program that span its operations, each proved
//! over the contracts' own spec functions.

use vstd::prelude::*;

use crate::account::{
    lemma_locked_only_all_locked,
    lemma_locked_only_drops_one,
    lemma_staked_sum_remove,
    locked_only,
    pad_slots,
    Address,
    PoolState,
    StakedNFT,
};
use crate::account::GlobalPool;
use crate::constants::{DAY, NFT_NUMBER, SOLANA_LAMPORTS};
use crate::instructions::reinitialize::ReInitialize;
use crate::error::ThogError;
use crate::instructions::claim_rewards::{
    claimed_at,
    claimed_until,
    lemma_rewards_total_monotone,
    rewards_total,
    ClaimRewards,
};
use crate::instructions::stake::Stake;
use crate::instructions::stake_thog::StakeThog;
use crate::instructions::unlock::UnLock;
use crate::instructions::withdraw::Withdraw;
use crate::instructions::withdraw_thog::{settle_fits, settle_outcome, WithdrawThog};
use crate::utils::{
    accrual_seconds,
    accrued_reward,
    lemma_reward_nonnegative,
    max_accrual_seconds,
    period_end,
    reward_rate,
    user_weight,
};

verus! {

// ----------------------------------------------------------------------------
// Reward accrual
// ----------------------------------------------------------------------------

/// Nothing accrues up to the moment of the last update.
pub proof fn law_no_reward_before_last_update(
    lock_time: u64,
    period: u64,
    staked_amount: u64,
    last_update_time: u64,
    multiplier: u64,
    daily_drip_percentage: u64,
    now: u64,
)
    requires
        now <= last_update_time,
    ensures
        accrued_reward(
            lock_time,
            period,
            staked_amount,
            last_update_time,
            multiplier,
            daily_drip_percentage,
            now,
        ) == 0,
{
    assert(accrual_seconds(lock_time, period, last_update_time, now) == 0);
}

/// Rewards never shrink as time passes.
pub proof fn law_reward_grows_with_time(
    lock_time: u64,
    period: u64,
    staked_amount: u64,
    last_update_time: u64,
    multiplier: u64,
    daily_drip_percentage: u64,
    earlier: u64,
    later: u64,
)
    requires
        earlier <= later,
    ensures
        accrued_reward(
            lock_time,
            period,
            staked_amount,
            last_update_time,
            multiplier,
            daily_drip_percentage,
            earlier,
        ) <= accrued_reward(
            lock_time,
            period,
            staked_amount,
            last_update_time,
            multiplier,
            daily_drip_percentage,
            later,
        ),
{
    let rate = reward_rate(staked_amount, multiplier, daily_drip_percentage);
    let a = accrual_seconds(lock_time, period, last_update_time, earlier);
    let b = accrual_seconds(lock_time, period, last_update_time, later);
    assert(a <= b);
    assert(staked_amount * multiplier >= 0) by (nonlinear_arith);
    assert(user_weight(staked_amount, multiplier) * daily_drip_percentage >= 0)
        by (nonlinear_arith)
        requires
            user_weight(staked_amount, multiplier) >= 0,
    ;
    assert(rate * a <= rate * b) by (nonlinear_arith)
        requires
            rate >= 0,
            a <= b,
    ;
}

/// Rewards stop accruing at the end of the lock period: any later time gives
/// the reward at that end.
pub proof fn law_reward_stops_at_period_end(
    lock_time: u64,
    period: u64,
    staked_amount: u64,
    last_update_time: u64,
    multiplier: u64,
    daily_drip_percentage: u64,
    now: u64,
)
    requires
        period_end(lock_time, period) <= now,
    ensures
        accrued_reward(
            lock_time,
            period,
            staked_amount,
            last_update_time,
            multiplier,
            daily_drip_percentage,
            now,
        ) == accrued_reward(
            lock_time,
            period,
            staked_amount,
            last_update_time,
            multiplier,
            daily_drip_percentage,
            period_end(lock_time, period) as u64,
        ),
{
}

/// Within the lock period, the reward is the rate per second times the seconds
/// since the last update.
pub proof fn law_reward_is_rate_times_elapsed(
    lock_time: u64,
    period: u64,
    staked_amount: u64,
    last_update_time: u64,
    multiplier: u64,
    daily_drip_percentage: u64,
    now: u64,
)
    requires
        last_update_time <= now <= period_end(lock_time, period),
    ensures
        accrued_reward(
            lock_time,
            period,
            staked_amount,
            last_update_time,
            multiplier,
            daily_drip_percentage,
            now,
        ) == reward_rate(staked_amount, multiplier, daily_drip_percentage) * (now
            - last_update_time),
{
}

// ----------------------------------------------------------------------------
// Item slots
// ----------------------------------------------------------------------------

/// Removing an item from a well-formed pool takes out exactly the first item
/// with the id, keeps the others in their order, keeps the pool well formed,
/// and returns the removed item's reward.
pub proof fn law_remove_takes_out_first_match(
    pool: PoolState,
    owner: Address,
    item_id: u64,
    daily_drip_percentage: u64,
    now: u64,
)
    requires
        pool.well_formed(),
        owner == pool.owner,
        pool.has_item(item_id),
    ensures
        ({
            let (after, result) = pool.remove_outcome(owner, item_id, daily_drip_percentage, now);
            let k = pool.selected_index(item_id);
            &&& result == Ok::<u64, ThogError>(
                pool.items[k].reward_at(daily_drip_percentage, now) as u64,
            )
            &&& after.active() == pool.active().remove(k)
            &&& after.item_count == pool.item_count - 1
            &&& after.well_formed()
            &&& after.owner == pool.owner
            &&& after.total_staked_amount == pool.total_staked_amount
            &&& after.pending_reward == pool.pending_reward
        }),
{
    pool.lemma_selected_is_first(item_id);
    let k = pool.selected_index(item_id);
    let count = pool.item_count as int;
    let cleared = pool.items.update(k, StakedNFT::vacant()).take(count);
    assert(cleared =~= pool.active().update(k, StakedNFT::vacant()));
    lemma_locked_only_drops_one(cleared, k);
    assert(cleared.remove(k) =~= pool.active().remove(k));
    let after = pool.remove_outcome(owner, item_id, daily_drip_percentage, now).0;
    assert(after.active() =~= pool.active().remove(k));
}

/// A pool keeps well formed when a locked item is added to a free slot.
pub proof fn law_add_keeps_well_formed(pool: PoolState, item: StakedNFT)
    requires
        pool.well_formed(),
        pool.item_count < NFT_NUMBER,
        item.lock_time != 0,
    ensures
        pool.add_outcome(item).well_formed(),
        pool.add_outcome(item).active() == pool.active().push(item),
{
    assert(pool.add_outcome(item).active() =~= pool.active().push(item));
}

/// Adding an item with a fresh id and then removing that id gives back the
/// pool as it was, and the reward of the added item.
pub proof fn law_remove_undoes_add(
    pool: PoolState,
    item: StakedNFT,
    daily_drip_percentage: u64,
    now: u64,
)
    requires
        pool.well_formed(),
        pool.item_count < NFT_NUMBER,
        item.lock_time != 0,
        !pool.has_item(item.item_id),
    ensures
        pool.add_outcome(item).remove_outcome(pool.owner, item.item_id, daily_drip_percentage, now)
            == (pool, Ok::<u64, ThogError>(item.reward_at(daily_drip_percentage, now) as u64)),
{
    let added = pool.add_outcome(item);
    let id = item.item_id;
    let count = pool.item_count as int;
    assert(added.slot_matches(count, id));
    assert forall|j: int| 0 <= j < count implies !#[trigger] added.slot_matches(j, id) by {
        assert(!pool.slot_matches(j, id));
    }
    assert(added.first_match(count, id));
    added.lemma_selected_is_first(id);
    added.lemma_first_match_unique(id, count, added.selected_index(id));
    let cleared = added.items.update(count, StakedNFT::vacant()).take(count + 1);
    assert(cleared =~= pool.active().push(StakedNFT::vacant()));
    lemma_locked_only_all_locked(pool.active());
    assert(cleared.drop_last() =~= pool.active());
    assert(locked_only(cleared) == pool.active());
    assert(pad_slots(pool.active()) =~= pool.items);
    let after = added.remove_outcome(pool.owner, id, daily_drip_percentage, now).0;
    assert(after =~= pool);
}


// ----------------------------------------------------------------------------
// Invariants kept by the instructions
// ----------------------------------------------------------------------------

/// Staking an NFT made at a nonzero time keeps the pool well formed and its
/// total equal to the sum of its items' amounts, and adds the staked amount
/// to both the pool's total and the global total.
pub proof fn law_stake_keeps_invariants(
    pool: PoolState,
    global: GlobalPool,
    nft_addr: Address,
    amount: u64,
    multiplier: u64,
    period: u64,
    lock_time: u64,
    now: u64,
)
    requires
        pool.well_formed(),
        pool.total_matches_items(),
        Stake::stake_fits(pool, global, amount, multiplier),
        now != 0,
    ensures
        ({
            let after = pool.deposit_outcome(
                Stake::new_item(nft_addr, amount, multiplier, period, lock_time, now),
            );
            let new_global = Stake::staked_global(pool, global, amount, multiplier);
            &&& after.well_formed()
            &&& after.total_matches_items()
            &&& after.total_staked_amount == pool.total_staked_amount + amount
            &&& new_global.total_staked == global.total_staked + amount
        }),
{
    let item = Stake::new_item(nft_addr, amount, multiplier, period, lock_time, now);
    law_add_keeps_well_formed(pool, item);
    assert(pool.active().push(item).drop_last() =~= pool.active());
}

/// Staking plain tokens at a nonzero time keeps the pool well formed and its
/// total equal to the sum of its items' amounts, and adds the staked amount
/// to both the pool's total and the global total.
pub proof fn law_stake_thog_keeps_invariants(
    pool: PoolState,
    global: GlobalPool,
    amount: u64,
    lock_time: u64,
    now: u64,
)
    requires
        pool.well_formed(),
        pool.total_matches_items(),
        StakeThog::stake_fits(pool, global, amount),
        now != 0,
    ensures
        ({
            let after = pool.deposit_outcome(StakeThog::new_item(amount, lock_time, now));
            let new_global = StakeThog::staked_global(pool, global, amount);
            &&& after.well_formed()
            &&& after.total_matches_items()
            &&& after.total_staked_amount == pool.total_staked_amount + amount
            &&& new_global.total_staked == global.total_staked + amount
        }),
{
    let item = StakeThog::new_item(amount, lock_time, now);
    law_add_keeps_well_formed(pool, item);
    assert(pool.active().push(item).drop_last() =~= pool.active());
}

/// Settling the withdrawal of an item that is in the pool keeps the pool's
/// invariants; on success, the item is gone and its amount has left both the
/// pool's total and the global total.
proof fn lemma_settle_keeps_invariants(
    pool: PoolState,
    global: GlobalPool,
    owner: Address,
    item_id: u64,
    now: u64,
)
    requires
        pool.well_formed(),
        pool.total_matches_items(),
        owner == pool.owner,
        pool.has_item(item_id),
        settle_fits(pool, global, pool.selected_item(item_id), now),
    ensures
        ({
            let selected = pool.selected_item(item_id);
            let (after, new_global, result) = settle_outcome(pool, global, owner, selected, now);
            &&& after.well_formed()
            &&& after.total_matches_items()
            &&& result is Ok ==> {
                &&& result == Ok::<u64, ThogError>(selected.staked_amount)
                &&& after.active() == pool.active().remove(pool.selected_index(item_id))
                &&& after.total_staked_amount == pool.total_staked_amount - selected.staked_amount
                &&& new_global.total_staked == global.total_staked - selected.staked_amount
            }
        }),
{
    pool.lemma_selected_is_first(item_id);
    let k = pool.selected_index(item_id);
    let selected = pool.selected_item(item_id);
    if pool.total_staked_amount != 0 {
        let reduced = PoolState {
            total_staked_amount: (pool.total_staked_amount - selected.staked_amount) as u64,
            ..pool
        };
        reduced.lemma_selection_by_ids(pool, item_id);
        assert(selected.item_id == item_id);
        law_remove_takes_out_first_match(reduced, owner, item_id, global.daily_drip_percentage, now);
        lemma_staked_sum_remove(pool.active(), k);
    }
}

/// Withdrawing the tokens of an item that is in the pool keeps the pool's
/// invariants, and on success takes the item's amount out of both the pool's
/// total and the global total.
pub proof fn law_withdraw_thog_keeps_invariants(
    pool: PoolState,
    global: GlobalPool,
    owner: Address,
    item_id: u64,
    now: u64,
)
    requires
        pool.well_formed(),
        pool.total_matches_items(),
        pool.has_item(item_id),
        WithdrawThog::withdraw_fits(pool, global, owner, item_id, now),
    ensures
        ({
            let (after, new_global, result) = WithdrawThog::withdraw_outcome(
                pool,
                global,
                owner,
                item_id,
                now,
            );
            let amount = pool.selected_item(item_id).staked_amount;
            &&& after.well_formed()
            &&& after.total_matches_items()
            &&& result is Ok ==> {
                &&& result == Ok::<u64, ThogError>(amount)
                &&& after.total_staked_amount == pool.total_staked_amount - amount
                &&& new_global.total_staked == global.total_staked - amount
            }
        }),
{
    if owner == pool.owner && now >= period_end(
        pool.selected_item(item_id).lock_time,
        pool.selected_item(item_id).period,
    ) {
        lemma_settle_keeps_invariants(pool, global, owner, item_id, now);
    }
}

/// Withdrawing an NFT that is in the pool keeps the pool's invariants, and on
/// success takes the item's amount out of both the pool's total and the
/// global total.
pub proof fn law_withdraw_nft_keeps_invariants(
    pool: PoolState,
    global: GlobalPool,
    owner: Address,
    item_id: u64,
    now: u64,
)
    requires
        pool.well_formed(),
        pool.total_matches_items(),
        pool.has_item(item_id),
        Withdraw::withdraw_fits(pool, global, owner, item_id, now),
    ensures
        ({
            let (after, new_global, result) = Withdraw::withdraw_outcome(
                pool,
                global,
                owner,
                item_id,
                now,
            );
            let amount = pool.selected_item(item_id).staked_amount;
            &&& after.well_formed()
            &&& after.total_matches_items()
            &&& result is Ok ==> {
                &&& result == Ok::<u64, ThogError>(amount)
                &&& after.total_staked_amount == pool.total_staked_amount - amount
                &&& new_global.total_staked == global.total_staked - amount
            }
        }),
{
    if owner == pool.owner && now >= Withdraw::release_time(pool, item_id) {
        lemma_settle_keeps_invariants(pool, global, owner, item_id, now);
    }
}

/// Unlocking keeps the pool's invariants, where the lookup lands on a slot
/// in use (an item with the id is in the pool, or the pool is not empty).
pub proof fn law_unlock_keeps_invariants(pool: PoolState, owner: Address, item_id: u64, now: u64)
    requires
        pool.well_formed(),
        pool.total_matches_items(),
        pool.has_item(item_id) || pool.item_count > 0,
    ensures
        UnLock::unlock_outcome(pool, owner, item_id, now).0.well_formed(),
        UnLock::unlock_outcome(pool, owner, item_id, now).0.total_matches_items(),
{
    if pool.has_item(item_id) {
        pool.lemma_selected_is_first(item_id);
    }
    pool.lemma_invariants_carry_over(UnLock::unlock_outcome(pool, owner, item_id, now).0);
}

/// Unlocking every item keeps the pool's invariants.
pub proof fn law_unlock_all_keeps_invariants(pool: PoolState, owner: Address, now: u64)
    requires
        pool.well_formed(),
        pool.total_matches_items(),
    ensures
        UnLock::unlock_all_outcome(pool, owner, now).0.well_formed(),
        UnLock::unlock_all_outcome(pool, owner, now).0.total_matches_items(),
{
    pool.lemma_invariants_carry_over(UnLock::unlock_all_outcome(pool, owner, now).0);
}

/// Claiming one item's reward keeps the pool's invariants.
pub proof fn law_claim_keeps_invariants(
    pool: PoolState,
    global: GlobalPool,
    owner: Address,
    vault_lamports: u64,
    item_id: u64,
    now: u64,
)
    requires
        pool.well_formed(),
        pool.total_matches_items(),
    ensures
        ClaimRewards::claim_outcome(pool, global, owner, vault_lamports, item_id, now).0.well_formed(),
        ClaimRewards::claim_outcome(
            pool,
            global,
            owner,
            vault_lamports,
            item_id,
            now,
        ).0.total_matches_items(),
{
    if pool.has_item(item_id) {
        pool.lemma_selected_is_first(item_id);
    }
    pool.lemma_invariants_carry_over(
        ClaimRewards::claim_outcome(pool, global, owner, vault_lamports, item_id, now).0,
    );
}

/// Claiming everything keeps the pool's invariants.
pub proof fn law_claim_all_keeps_invariants(
    pool: PoolState,
    global: GlobalPool,
    owner: Address,
    vault_lamports: u64,
    now: u64,
)
    requires
        pool.well_formed(),
        pool.total_matches_items(),
    ensures
        ClaimRewards::claim_all_outcome(pool, global, owner, vault_lamports, now).0.well_formed(),
        ClaimRewards::claim_all_outcome(
            pool,
            global,
            owner,
            vault_lamports,
            now,
        ).0.total_matches_items(),
{
    pool.lemma_invariants_carry_over(
        ClaimRewards::claim_all_outcome(pool, global, owner, vault_lamports, now).0,
    );
}

// ----------------------------------------------------------------------------
// Ownership
// ----------------------------------------------------------------------------

/// Every instruction on a user's pool that checks the caller refuses anyone
/// but the pool's owner, and then changes nothing.
pub proof fn law_only_owner_acts(
    pool: PoolState,
    global: GlobalPool,
    caller: Address,
    vault_lamports: u64,
    item_id: u64,
    daily_drip_percentage: u64,
    now: u64,
)
    requires
        caller != pool.owner,
    ensures
        UnLock::unlock_outcome(pool, caller, item_id, now) == (
            pool,
            Err::<(), ThogError>(ThogError::OnlyOwnerCanCall),
        ),
        UnLock::unlock_all_outcome(pool, caller, now) == (
            pool,
            Err::<(), ThogError>(ThogError::OnlyOwnerCanCall),
        ),
        ClaimRewards::claim_outcome(pool, global, caller, vault_lamports, item_id, now) == (
            pool,
            Err::<u64, ThogError>(ThogError::OnlyOwnerCanCall),
        ),
        ClaimRewards::claim_pending_outcome(pool, caller, vault_lamports) == (
            pool,
            Err::<u64, ThogError>(ThogError::OnlyOwnerCanCall),
        ),
        ClaimRewards::claim_all_outcome(pool, global, caller, vault_lamports, now) == (
            pool,
            Err::<u64, ThogError>(ThogError::OnlyOwnerCanCall),
        ),
        WithdrawThog::withdraw_outcome(pool, global, caller, item_id, now) == (
            pool,
            global,
            Err::<u64, ThogError>(ThogError::OnlyOwnerCanCall),
        ),
        Withdraw::withdraw_outcome(pool, global, caller, item_id, now) == (
            pool,
            global,
            Err::<u64, ThogError>(ThogError::OnlyOwnerCanCall),
        ),
        pool.remove_outcome(caller, item_id, daily_drip_percentage, now) == (
            pool,
            Err::<u64, ThogError>(ThogError::OnlyOwnerCanCall),
        ),
{
}

// ----------------------------------------------------------------------------
// Repeated requests
// ----------------------------------------------------------------------------

/// An item unlocked at a nonzero time cannot be unlocked again.
pub proof fn law_unlock_twice_fails(
    pool: PoolState,
    owner: Address,
    item_id: u64,
    now: u64,
    later: u64,
)
    requires
        pool.has_item(item_id),
        now != 0,
        UnLock::unlock_outcome(pool, owner, item_id, now).1 is Ok,
    ensures
        UnLock::unlock_outcome(
            UnLock::unlock_outcome(pool, owner, item_id, now).0,
            owner,
            item_id,
            later,
        ).1 == Err::<(), ThogError>(ThogError::AlreadyUnlocked),
{
    let after = UnLock::unlock_outcome(pool, owner, item_id, now).0;
    pool.lemma_selected_is_first(item_id);
    after.lemma_selection_by_ids(pool, item_id);
    after.lemma_selected_is_first(item_id);
}

/// After every item is unlocked at a nonzero time, no item in the pool can
/// be unlocked again.
pub proof fn law_unlock_after_unlock_all_fails(
    pool: PoolState,
    owner: Address,
    item_id: u64,
    now: u64,
    later: u64,
)
    requires
        pool.has_item(item_id),
        now != 0,
        UnLock::unlock_all_outcome(pool, owner, now).1 is Ok,
    ensures
        UnLock::unlock_outcome(
            UnLock::unlock_all_outcome(pool, owner, now).0,
            owner,
            item_id,
            later,
        ).1 == Err::<(), ThogError>(ThogError::AlreadyUnlocked),
{
    let after = UnLock::unlock_all_outcome(pool, owner, now).0;
    pool.lemma_selected_is_first(item_id);
    after.lemma_selection_by_ids(pool, item_id);
    after.lemma_selected_is_first(item_id);
}

/// Nothing is left to claim on an item right after its reward was claimed:
/// a second claim at the same time is refused.
pub proof fn law_claim_twice_fails(
    pool: PoolState,
    global: GlobalPool,
    owner: Address,
    vault_lamports: u64,
    item_id: u64,
    now: u64,
    later_vault_lamports: u64,
)
    requires
        ClaimRewards::claim_outcome(pool, global, owner, vault_lamports, item_id, now).1 is Ok,
    ensures
        ClaimRewards::claim_outcome(
            ClaimRewards::claim_outcome(pool, global, owner, vault_lamports, item_id, now).0,
            global,
            owner,
            later_vault_lamports,
            item_id,
            now,
        ).1 == Err::<u64, ThogError>(ThogError::InsufficientClaimAmount),
{
    let after = ClaimRewards::claim_outcome(pool, global, owner, vault_lamports, item_id, now).0;
    if !pool.has_item(item_id) {
        assert(pool.selected_item(item_id).reward_at(global.daily_drip_percentage, now) == 0);
    }
    pool.lemma_selected_is_first(item_id);
    after.lemma_selection_by_ids(pool, item_id);
    after.lemma_selected_is_first(item_id);
    let item = after.selected_item(item_id);
    law_no_reward_before_last_update(
        item.lock_time,
        item.period,
        item.staked_amount,
        item.last_update_time,
        item.multiplier,
        global.daily_drip_percentage,
        now,
    );
}

/// Once the pending reward is claimed, claiming it again is refused.
pub proof fn law_claim_pending_twice_fails(
    pool: PoolState,
    owner: Address,
    vault_lamports: u64,
    later_vault_lamports: u64,
)
    requires
        ClaimRewards::claim_pending_outcome(pool, owner, vault_lamports).1 is Ok,
    ensures
        ClaimRewards::claim_pending_outcome(
            ClaimRewards::claim_pending_outcome(pool, owner, vault_lamports).0,
            owner,
            later_vault_lamports,
        ).1 == Err::<u64, ThogError>(ThogError::InsufficientClaimAmount),
{
}

/// The rewards at `now` of items claimed at `now` add up to nothing.
proof fn lemma_claimed_rewards_vanish(
    items: Seq<StakedNFT>,
    n: int,
    count: int,
    daily_drip_percentage: u64,
    now: u64,
)
    requires
        0 <= n <= count <= items.len(),
    ensures
        rewards_total(claimed_until(items, count, now), n, daily_drip_percentage, now) == 0,
    decreases n,
{
    if n > 0 {
        lemma_claimed_rewards_vanish(items, n - 1, count, daily_drip_percentage, now);
        let item = claimed_until(items, count, now)[n - 1];
        law_no_reward_before_last_update(
            item.lock_time,
            item.period,
            item.staked_amount,
            item.last_update_time,
            item.multiplier,
            daily_drip_percentage,
            now,
        );
    }
}

/// Right after everything was claimed, claiming everything again at the same
/// time is refused: nothing is left.
pub proof fn law_claim_all_twice_fails(
    pool: PoolState,
    global: GlobalPool,
    owner: Address,
    vault_lamports: u64,
    now: u64,
    later_vault_lamports: u64,
)
    requires
        pool.items.len() == NFT_NUMBER,
        ClaimRewards::claim_all_outcome(pool, global, owner, vault_lamports, now).1 is Ok,
    ensures
        ClaimRewards::claim_all_outcome(
            ClaimRewards::claim_all_outcome(pool, global, owner, vault_lamports, now).0,
            global,
            owner,
            later_vault_lamports,
            now,
        ).1 == Err::<u64, ThogError>(ThogError::InsufficientClaimAmount),
{
    lemma_claimed_rewards_vanish(
        pool.items,
        pool.item_count as int,
        pool.item_count as int,
        global.daily_drip_percentage,
        now,
    );
}

/// After a successful claim of an item at `now`, a claim of the same item is
/// refused at every time up to which nothing more accrues, that is while the
/// end of the lock period or the time itself is no later than `now`; the pool
/// is then left as the first claim left it.
pub proof fn law_claim_refused_while_nothing_accrues(
    pool: PoolState,
    global: GlobalPool,
    owner: Address,
    vault_lamports: u64,
    item_id: u64,
    now: u64,
    later: u64,
    later_vault_lamports: u64,
)
    requires
        ClaimRewards::claim_outcome(pool, global, owner, vault_lamports, item_id, now).1 is Ok,
        ({
            let x = pool.selected_item(item_id);
            let end = period_end(x.lock_time, x.period);
            (if later <= end { later as int } else { end }) <= now
        }),
    ensures
        ({
            let after = ClaimRewards::claim_outcome(
                pool,
                global,
                owner,
                vault_lamports,
                item_id,
                now,
            ).0;
            ClaimRewards::claim_outcome(after, global, owner, later_vault_lamports, item_id, later)
                == (after, Err::<u64, ThogError>(ThogError::InsufficientClaimAmount))
        }),
{
    let after = ClaimRewards::claim_outcome(pool, global, owner, vault_lamports, item_id, now).0;
    if !pool.has_item(item_id) {
        assert(pool.selected_item(item_id).reward_at(global.daily_drip_percentage, now) == 0);
    }
    pool.lemma_selected_is_first(item_id);
    after.lemma_selection_by_ids(pool, item_id);
    after.lemma_selected_is_first(item_id);
    let y = after.selected_item(item_id);
    assert(accrual_seconds(y.lock_time, y.period, y.last_update_time, later) == 0);
}

/// Unlocking every item at a nonzero time and then again at any time leaves
/// the second call nothing to do: it succeeds and changes nothing.
pub proof fn law_unlock_all_is_idempotent(pool: PoolState, owner: Address, first: u64, second: u64)
    requires
        owner == pool.owner,
        first != 0,
    ensures
        ({
            let after = UnLock::unlock_all_outcome(pool, owner, first).0;
            UnLock::unlock_all_outcome(after, owner, second) == (after, Ok::<(), ThogError>(()))
        }),
{
    let after = UnLock::unlock_all_outcome(pool, owner, first).0;
    let again = UnLock::unlock_all_outcome(after, owner, second).0;
    assert(again.items =~= after.items);
    assert(again =~= after);
}

/// An item unlocked at `t` cannot be withdrawn with its NFT before a day has
/// passed since `t`: the withdrawal is refused and changes nothing.
pub proof fn law_withdraw_nft_waits_a_day_after_unlock(
    pool: PoolState,
    global: GlobalPool,
    owner: Address,
    item_id: u64,
    t: u64,
    now: u64,
)
    requires
        pool.has_item(item_id),
        UnLock::unlock_outcome(pool, owner, item_id, t).1 is Ok,
        now < t + DAY,
    ensures
        ({
            let after = UnLock::unlock_outcome(pool, owner, item_id, t).0;
            Withdraw::withdraw_outcome(after, global, owner, item_id, now) == (
                after,
                global,
                Err::<u64, ThogError>(ThogError::WithdrawNotOver),
            )
        }),
{
    let after = UnLock::unlock_outcome(pool, owner, item_id, t).0;
    pool.lemma_selected_is_first(item_id);
    after.lemma_selection_by_ids(pool, item_id);
    after.lemma_selected_is_first(item_id);
}

/// Staking tokens under a fresh id and withdrawing that id once the lock
/// period is over gives the pool back as it was, with the stake's reward added
/// to the pending reward, and the global total staked back as it was; the
/// staked amount is returned.
pub proof fn law_withdraw_thog_undoes_stake_thog(
    pool: PoolState,
    global: GlobalPool,
    owner: Address,
    amount: u64,
    item_id: u64,
    t: u64,
    now: u64,
)
    requires
        pool.well_formed(),
        !pool.has_item(item_id),
        t != 0,
        StakeThog::stake_fits(pool, global, amount),
        ({
            let staked = pool.deposit_outcome(StakeThog::new_item(amount, item_id, t));
            let staked_global = StakeThog::staked_global(pool, global, amount);
            &&& WithdrawThog::withdraw_fits(staked, staked_global, owner, item_id, now)
            &&& WithdrawThog::withdraw_outcome(staked, staked_global, owner, item_id, now).2 is Ok
        }),
    ensures
        ({
            let item = StakeThog::new_item(amount, item_id, t);
            let staked = pool.deposit_outcome(item);
            let staked_global = StakeThog::staked_global(pool, global, amount);
            let (after, after_global, result) = WithdrawThog::withdraw_outcome(
                staked,
                staked_global,
                owner,
                item_id,
                now,
            );
            &&& result == Ok::<u64, ThogError>(amount)
            &&& after == PoolState {
                pending_reward: (pool.pending_reward + item.reward_at(
                    global.daily_drip_percentage,
                    now,
                )) as u64,
                ..pool
            }
            &&& after.pending_reward == pool.pending_reward + item.reward_at(
                global.daily_drip_percentage,
                now,
            )
            &&& after_global.total_staked == global.total_staked
        }),
{
    let item = StakeThog::new_item(amount, item_id, t);
    let staked = pool.deposit_outcome(item);
    let added = pool.add_outcome(item);
    let count = pool.item_count as int;
    assert(added.slot_matches(count, item_id));
    assert forall|j: int| 0 <= j < count implies !#[trigger] added.slot_matches(j, item_id) by {
        assert(!pool.slot_matches(j, item_id));
    }
    added.lemma_selected_is_first(item_id);
    added.lemma_first_match_unique(item_id, count, added.selected_index(item_id));
    staked.lemma_selection_by_ids(added, item_id);
    assert(staked.selected_item(item_id) == item);
    let reduced = PoolState {
        total_staked_amount: (staked.total_staked_amount - item.staked_amount) as u64,
        ..staked
    };
    assert(reduced =~= added);
    law_remove_undoes_add(pool, item, global.daily_drip_percentage, now);
    lemma_reward_nonnegative(
        item.lock_time,
        item.period,
        item.staked_amount,
        item.last_update_time,
        item.multiplier,
        global.daily_drip_percentage,
        now,
    );
}

/// What an item can still pay out: its rate per second times the seconds
/// from its last update to the end of its lock period.
pub open spec fn unclaimed_potential(item: StakedNFT, daily_drip_percentage: u64) -> int {
    reward_rate(item.staked_amount, item.multiplier, daily_drip_percentage) * max_accrual_seconds(
        item.lock_time,
        item.period,
        item.last_update_time,
    )
}

/// The pool after a run of claims of one item, and the total paid out by
/// them: each request is the time of the claim and the reward vault's balance
/// at that time; a refused claim pays nothing.
pub open spec fn claims_run(
    pool: PoolState,
    global: GlobalPool,
    owner: Address,
    item_id: u64,
    requests: Seq<(u64, u64)>,
) -> (PoolState, int)
    decreases requests.len(),
{
    if requests.len() == 0 {
        (pool, 0)
    } else {
        let before = claims_run(pool, global, owner, item_id, requests.drop_last());
        let request = requests.last();
        let claim = ClaimRewards::claim_outcome(
            before.0,
            global,
            owner,
            request.1,
            item_id,
            request.0,
        );
        (
            claim.0,
            before.1 + match claim.1 {
                Ok(amount) => amount as int,
                Err(_) => 0,
            },
        )
    }
}

/// A paying claim moves what it pays out of the item's unclaimed potential.
proof fn lemma_claim_splits_potential(item: StakedNFT, daily_drip_percentage: u64, now: u64)
    requires
        item.reward_at(daily_drip_percentage, now) > 0,
    ensures
        item.reward_at(daily_drip_percentage, now) + unclaimed_potential(
            claimed_at(item, now),
            daily_drip_percentage,
        ) == unclaimed_potential(item, daily_drip_percentage),
{
    let rate = reward_rate(item.staked_amount, item.multiplier, daily_drip_percentage);
    let end = period_end(item.lock_time, item.period);
    let last = item.last_update_time as int;
    let secs = accrual_seconds(item.lock_time, item.period, item.last_update_time, now);
    assert(secs != 0) by {
        if secs == 0 {
            assert(rate * secs == 0) by (nonlinear_arith)
                requires
                    secs == 0,
            ;
        }
    }
    if now <= end {
        assert(rate * (now - last) + rate * (end - now) == rate * (end - last)) by (nonlinear_arith);
    } else {
        assert(rate * (end - last) + rate * 0 == rate * (end - last)) by (nonlinear_arith);
    }
}

/// Unclaimed potential is never negative.
proof fn lemma_potential_nonnegative(item: StakedNFT, daily_drip_percentage: u64)
    ensures
        unclaimed_potential(item, daily_drip_percentage) >= 0,
{
    let w = user_weight(item.staked_amount, item.multiplier);
    assert(item.staked_amount * item.multiplier >= 0) by (nonlinear_arith);
    assert(w * daily_drip_percentage >= 0) by (nonlinear_arith)
        requires
            w >= 0,
    ;
    let rate = reward_rate(item.staked_amount, item.multiplier, daily_drip_percentage);
    let m = max_accrual_seconds(item.lock_time, item.period, item.last_update_time);
    assert(rate * m >= 0) by (nonlinear_arith)
        requires
            rate >= 0,
            m >= 0,
    ;
}

/// Through a run of claims, the item keeps its slot and all fields but its
/// last update, and what has been paid plus what it can still pay is what it
/// could pay at the start.
proof fn lemma_claims_run(
    pool: PoolState,
    global: GlobalPool,
    owner: Address,
    item_id: u64,
    requests: Seq<(u64, u64)>,
)
    requires
        pool.has_item(item_id),
        unclaimed_potential(pool.selected_item(item_id), global.daily_drip_percentage)
            <= u64::MAX,
    ensures
        ({
            let (after, paid) = claims_run(pool, global, owner, item_id, requests);
            let k = pool.selected_index(item_id);
            let x = pool.selected_item(item_id);
            &&& after.item_count == pool.item_count
            &&& after.items.len() == pool.items.len()
            &&& forall|i: int|
                0 <= i < pool.items.len() ==> #[trigger] after.items[i].item_id
                    == pool.items[i].item_id
            &&& after.items[k] == (StakedNFT {
                last_update_time: after.items[k].last_update_time,
                ..x
            })
            &&& paid >= 0
            &&& paid + unclaimed_potential(after.items[k], global.daily_drip_percentage)
                == unclaimed_potential(x, global.daily_drip_percentage)
        }),
    decreases requests.len(),
{
    pool.lemma_selected_is_first(item_id);
    let ddp = global.daily_drip_percentage;
    let k = pool.selected_index(item_id);
    let x = pool.selected_item(item_id);
    if requests.len() > 0 {
        lemma_claims_run(pool, global, owner, item_id, requests.drop_last());
        let before = claims_run(pool, global, owner, item_id, requests.drop_last());
        let p = before.0;
        let request = requests.last();
        p.lemma_selection_by_ids(pool, item_id);
        p.lemma_selected_is_first(item_id);
        let y = p.items[k];
        assert(p.selected_item(item_id) == y);
        let reward = y.reward_at(ddp, request.0);
        let claim = ClaimRewards::claim_outcome(p, global, owner, request.1, item_id, request.0);
        if claim.1 is Ok {
            lemma_claim_splits_potential(y, ddp, request.0);
            lemma_potential_nonnegative(claimed_at(y, request.0), ddp);
            lemma_potential_nonnegative(y, ddp);
            assert(claim.0.items[k] == claimed_at(y, request.0));
        }
    } else {
        lemma_potential_nonnegative(x, ddp);
    }
}

/// However many times an item's reward is claimed, from an item whose last
/// update is no earlier than its lock time, the claims together pay at most
/// its rate per second times the length of its lock period.
pub proof fn law_claims_bounded_by_lock_period(
    pool: PoolState,
    global: GlobalPool,
    owner: Address,
    item_id: u64,
    requests: Seq<(u64, u64)>,
)
    requires
        pool.has_item(item_id),
        pool.selected_item(item_id).lock_time <= pool.selected_item(item_id).last_update_time,
        reward_rate(
            pool.selected_item(item_id).staked_amount,
            pool.selected_item(item_id).multiplier,
            global.daily_drip_percentage,
        ) * (pool.selected_item(item_id).period * DAY) <= u64::MAX,
    ensures
        claims_run(pool, global, owner, item_id, requests).1 <= reward_rate(
            pool.selected_item(item_id).staked_amount,
            pool.selected_item(item_id).multiplier,
            global.daily_drip_percentage,
        ) * (pool.selected_item(item_id).period * DAY),
{
    let x = pool.selected_item(item_id);
    let ddp = global.daily_drip_percentage;
    let rate = reward_rate(x.staked_amount, x.multiplier, ddp);
    let m = max_accrual_seconds(x.lock_time, x.period, x.last_update_time);
    let span = x.period * DAY;
    assert(m <= span);
    lemma_potential_nonnegative(x, ddp);
    assert(rate >= 0) by {
        let w = user_weight(x.staked_amount, x.multiplier);
        assert(x.staked_amount * x.multiplier >= 0) by (nonlinear_arith);
        assert(w * ddp >= 0) by (nonlinear_arith)
            requires
                w >= 0,
        ;
    }
    assert(rate * m <= rate * span) by (nonlinear_arith)
        requires
            rate >= 0,
            m <= span,
    ;
    lemma_claims_run(pool, global, owner, item_id, requests);
    let after = claims_run(pool, global, owner, item_id, requests).0;
    lemma_potential_nonnegative(after.items[pool.selected_index(item_id)], ddp);
}

// ----------------------------------------------------------------------------
// What the instructions pay and change, in terms of the items' fields
// ----------------------------------------------------------------------------

/// The sum of the accrued rewards at `now` of a sequence of items.
pub open spec fn accrued_total(items: Seq<StakedNFT>, daily_drip_percentage: u64, now: u64) -> int
    decreases items.len(),
{
    if items.len() == 0 {
        0
    } else {
        let last = items.last();
        accrued_total(items.drop_last(), daily_drip_percentage, now) + accrued_reward(
            last.lock_time,
            last.period,
            last.staked_amount,
            last.last_update_time,
            last.multiplier,
            daily_drip_percentage,
            now,
        )
    }
}

proof fn lemma_rewards_total_is_accrued_total(
    items: Seq<StakedNFT>,
    n: int,
    daily_drip_percentage: u64,
    now: u64,
)
    requires
        0 <= n <= items.len(),
    ensures
        rewards_total(items, n, daily_drip_percentage, now) == accrued_total(
            items.take(n),
            daily_drip_percentage,
            now,
        ),
    decreases n,
{
    if n > 0 {
        lemma_rewards_total_is_accrued_total(items, n - 1, daily_drip_percentage, now);
        assert(items.take(n).drop_last() =~= items.take(n - 1));
    } else {
        assert(items.take(0) =~= Seq::<StakedNFT>::empty());
    }
}

/// Claiming everything pays the pending reward plus, for every item in use,
/// its accrued reward at `now` (for an item whose lock period is over, the
/// reward up to the end of that period); it is refused for want of anything
/// to claim exactly when that sum is zero. On success every item in use has
/// its last update moved to `now` and nothing else about it changes, the
/// slots past the count are untouched, and the pending reward is cleared.
pub proof fn law_claim_all_pays_every_item(
    pool: PoolState,
    global: GlobalPool,
    owner: Address,
    vault_lamports: u64,
    now: u64,
)
    requires
        owner == pool.owner,
        pool.item_count <= NFT_NUMBER,
        pool.items.len() == NFT_NUMBER,
    ensures
        ({
            let ddp = global.daily_drip_percentage;
            let owed = pool.pending_reward + accrued_total(pool.active(), ddp, now);
            let (after, result) = ClaimRewards::claim_all_outcome(
                pool,
                global,
                owner,
                vault_lamports,
                now,
            );
            &&& (result == Err::<u64, ThogError>(ThogError::InsufficientClaimAmount)) <==> owed == 0
            &&& result is Ok <==> (0 < owed && owed < vault_lamports)
            &&& result is Ok ==> {
                &&& result == Ok::<u64, ThogError>(owed as u64)
                &&& owed as u64 == owed
                &&& after.pending_reward == 0
                &&& after.owner == pool.owner
                &&& after.item_count == pool.item_count
                &&& after.total_staked_amount == pool.total_staked_amount
                &&& after.items.len() == pool.items.len()
                &&& forall|i: int|
                    0 <= i < pool.item_count ==> #[trigger] after.items[i] == (StakedNFT {
                        last_update_time: now,
                        ..pool.items[i]
                    })
                &&& forall|i: int|
                    pool.item_count <= i < pool.items.len() ==> #[trigger] after.items[i]
                        == pool.items[i]
            }
        }),
{
    let ddp = global.daily_drip_percentage;
    lemma_rewards_total_is_accrued_total(pool.items, pool.item_count as int, ddp, now);
    lemma_rewards_total_monotone(pool.items, 0, pool.item_count as int, ddp, now);
}

/// For the owner, the tokens of an item are held back with `WithdrawAfter`
/// exactly while the time is before the item's lock time plus its lock
/// period, whatever else the item holds (its last update included).
pub proof fn law_withdraw_thog_waits_only_for_lock_period(
    pool: PoolState,
    global: GlobalPool,
    owner: Address,
    item_id: u64,
    now: u64,
)
    requires
        owner == pool.owner,
    ensures
        ({
            let x = pool.selected_item(item_id);
            (WithdrawThog::withdraw_outcome(pool, global, owner, item_id, now).2 == Err::<
                u64,
                ThogError,
            >(ThogError::WithdrawAfter)) <==> now < x.lock_time + x.period * DAY
        }),
{
}

/// For the owner, an NFT is held back with `WithdrawNotOver` exactly while
/// the time is before its unlock time plus one day.
pub proof fn law_withdraw_nft_waits_only_a_day(
    pool: PoolState,
    global: GlobalPool,
    owner: Address,
    item_id: u64,
    now: u64,
)
    requires
        owner == pool.owner,
    ensures
        ({
            let x = pool.selected_item(item_id);
            (Withdraw::withdraw_outcome(pool, global, owner, item_id, now).2 == Err::<
                u64,
                ThogError,
            >(ThogError::WithdrawNotOver)) <==> now < x.unlock_time + DAY
        }),
{
}

/// For the owner, claiming an item succeeds exactly when its accrued reward
/// at `now` is positive and below the vault's balance, whatever its unlock
/// time; it then pays that reward and moves only that item's last update to
/// `now`.
pub proof fn law_claim_pays_accrued_reward(
    pool: PoolState,
    global: GlobalPool,
    owner: Address,
    vault_lamports: u64,
    item_id: u64,
    now: u64,
)
    requires
        owner == pool.owner,
        pool.items.len() == NFT_NUMBER,
    ensures
        ({
            let x = pool.selected_item(item_id);
            let k = pool.selected_index(item_id);
            let reward = accrued_reward(
                x.lock_time,
                x.period,
                x.staked_amount,
                x.last_update_time,
                x.multiplier,
                global.daily_drip_percentage,
                now,
            );
            let (after, result) = ClaimRewards::claim_outcome(
                pool,
                global,
                owner,
                vault_lamports,
                item_id,
                now,
            );
            &&& result is Ok <==> (0 < reward && reward < vault_lamports)
            &&& result is Ok ==> {
                &&& result == Ok::<u64, ThogError>(reward as u64)
                &&& reward as u64 == reward
                &&& after.items == pool.items.update(
                    k,
                    StakedNFT { last_update_time: now, ..pool.items[k] },
                )
                &&& after.owner == pool.owner
                &&& after.item_count == pool.item_count
                &&& after.total_staked_amount == pool.total_staked_amount
                &&& after.pending_reward == pool.pending_reward
            }
        }),
{
    if pool.has_item(item_id) {
        pool.lemma_selected_is_first(item_id);
    }
}

/// Unlocking one item changes nothing but unlock times: every other field of
/// every slot (the last update included) and of the pool stays as it was, so
/// every item accrues the same reward at every time as before. On success the
/// looked-up slot is unlocked at `now` and no other slot's unlock time changes.
pub proof fn law_unlock_changes_only_unlock_time(
    pool: PoolState,
    owner: Address,
    item_id: u64,
    now: u64,
)
    requires
        pool.items.len() == NFT_NUMBER,
    ensures
        ({
            let (after, result) = UnLock::unlock_outcome(pool, owner, item_id, now);
            let k = pool.selected_index(item_id);
            &&& after.owner == pool.owner
            &&& after.item_count == pool.item_count
            &&& after.total_staked_amount == pool.total_staked_amount
            &&& after.pending_reward == pool.pending_reward
            &&& after.items.len() == pool.items.len()
            &&& forall|i: int|
                0 <= i < pool.items.len() ==> #[trigger] after.items[i] == (StakedNFT {
                    unlock_time: after.items[i].unlock_time,
                    ..pool.items[i]
                })
            &&& forall|i: int, ddp: u64, t: u64|
                0 <= i < pool.items.len() ==> #[trigger] after.items[i].reward_at(ddp, t)
                    == pool.items[i].reward_at(ddp, t)
            &&& result is Ok ==> {
                &&& after.items[k].unlock_time == now
                &&& forall|i: int|
                    0 <= i < pool.items.len() && i != k ==> #[trigger] after.items[i].unlock_time
                        == pool.items[i].unlock_time
            }
        }),
{
    if pool.has_item(item_id) {
        pool.lemma_selected_is_first(item_id);
    }
}

/// Unlocking every item changes nothing but unlock times: every other field
/// of every slot (the last update included) and of the pool stays as it was.
/// On success each item in use that was not unlocked is unlocked at `now`,
/// and every other unlock time stays as it was.
pub proof fn law_unlock_all_changes_only_unlock_times(pool: PoolState, owner: Address, now: u64)
    ensures
        ({
            let (after, result) = UnLock::unlock_all_outcome(pool, owner, now);
            &&& after.owner == pool.owner
            &&& after.item_count == pool.item_count
            &&& after.total_staked_amount == pool.total_staked_amount
            &&& after.pending_reward == pool.pending_reward
            &&& after.items.len() == pool.items.len()
            &&& forall|i: int|
                0 <= i < pool.items.len() ==> #[trigger] after.items[i] == (StakedNFT {
                    unlock_time: after.items[i].unlock_time,
                    ..pool.items[i]
                })
            &&& result is Ok ==> forall|i: int|
                0 <= i < pool.items.len() ==> #[trigger] after.items[i].unlock_time == (
                if i < pool.item_count && pool.items[i].unlock_time == 0 {
                    now
                } else {
                    pool.items[i].unlock_time
                })
        }),
{
}

/// For the owner, claiming the pending reward succeeds exactly when it is
/// positive and below the vault's balance; it then pays all of it and clears
/// it, and nothing else in the pool changes.
pub proof fn law_claim_pending_pays_all_pending(pool: PoolState, owner: Address, vault_lamports: u64)
    requires
        owner == pool.owner,
    ensures
        ({
            let (after, result) = ClaimRewards::claim_pending_outcome(pool, owner, vault_lamports);
            &&& result is Ok <==> (0 < pool.pending_reward && pool.pending_reward < vault_lamports)
            &&& result is Ok ==> {
                &&& result == Ok::<u64, ThogError>(pool.pending_reward)
                &&& after == PoolState { pending_reward: 0, ..pool }
            }
        }),
{
}

/// Staking an NFT at `now` records, in the first free slot, the NFT's
/// account, the amount, multiplier and period given, `now` as both its lock
/// time and its last update, the caller's `lock_time` argument as its id, and
/// no unlock; the other slots stay as they were, and the pool's total grows by
/// the amount.
pub proof fn law_stake_records_the_item(
    pool: PoolState,
    nft_addr: Address,
    amount: u64,
    multiplier: u64,
    period: u64,
    lock_time: u64,
    now: u64,
)
    requires
        pool.items.len() == NFT_NUMBER,
        pool.item_count < NFT_NUMBER,
        pool.total_staked_amount + amount <= u64::MAX,
    ensures
        ({
            let after = pool.deposit_outcome(
                Stake::new_item(nft_addr, amount, multiplier, period, lock_time, now),
            );
            let x = after.items[pool.item_count as int];
            &&& after.item_count == pool.item_count + 1
            &&& after.total_staked_amount == pool.total_staked_amount + amount
            &&& after.owner == pool.owner
            &&& after.pending_reward == pool.pending_reward
            &&& x.nft_addr == nft_addr
            &&& x.staked_amount == amount
            &&& x.multiplier == multiplier
            &&& x.period == period
            &&& x.lock_time == now
            &&& x.last_update_time == now
            &&& x.item_id == lock_time
            &&& x.unlock_time == 0
            &&& forall|i: int|
                0 <= i < pool.items.len() && i != pool.item_count ==> #[trigger] after.items[i]
                    == pool.items[i]
        }),
{
}

/// Re-initializing sets the reward pool to the given SOL in lamports, and the
/// reward paid per second to that pool's daily drip spread over a day.
pub proof fn law_reinitialize_sets_drip(
    global: GlobalPool,
    total_reward_pool: u64,
    daily_drip_percentage: u64,
)
    requires
        ReInitialize::funding_fits(total_reward_pool, daily_drip_percentage),
    ensures
        ({
            let g = ReInitialize::configured(global, total_reward_pool, daily_drip_percentage);
            &&& g.total_reward_pool == total_reward_pool * SOLANA_LAMPORTS
            &&& g.daily_drip_percentage == daily_drip_percentage
            &&& g.daily_drip_amount == total_reward_pool * SOLANA_LAMPORTS * daily_drip_percentage
                / 100
            &&& g.reward_per_second == total_reward_pool * SOLANA_LAMPORTS * daily_drip_percentage
                / 100 / (DAY as int)
            &&& g.super_admin == global.super_admin
            &&& g.total_staked == global.total_staked
            &&& g.total_weight == global.total_weight
        }),
{
    let drip = total_reward_pool * SOLANA_LAMPORTS * daily_drip_percentage / 100;
    assert(0 <= drip <= u64::MAX) by (nonlinear_arith)
        requires
            0 <= total_reward_pool * SOLANA_LAMPORTS * daily_drip_percentage <= u64::MAX,
            drip == total_reward_pool * SOLANA_LAMPORTS * daily_drip_percentage / 100,
    ;
}

} // verus!
