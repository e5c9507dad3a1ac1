use thog_staking::account::{Address, GlobalPool, StakedNFT, UserStakingPool};
use thog_staking::constants::{DAY, NFT_NUMBER};
use thog_staking::error::ThogError;
use thog_staking::instructions::claim_rewards::ClaimRewards;
use thog_staking::instructions::init_user_pool::InitializeUserPool;
use thog_staking::instructions::reinitialize::ReInitialize;
use thog_staking::instructions::stake::Stake;
use thog_staking::instructions::stake_thog::StakeThog;
use thog_staking::instructions::unlock::UnLock;
use thog_staking::instructions::withdraw::Withdraw;
use thog_staking::instructions::withdraw_sol::WithdrawSOL;
use thog_staking::instructions::withdraw_spl::WithdrawSPL;
use thog_staking::instructions::withdraw_thog::WithdrawThog;
use thog_staking::utils::{
    calculate_user_reward, calculate_user_reward_at, current_timestamp, reward_fits, select_item,
};

const T0: u64 = 1_700_000_000;
const ONE_SOL: u64 = 1_000_000_000;

fn addr(b: u8) -> Address {
    Address { bytes: [b; 32] }
}

fn item(item_id: u64, amount: u64, lock_time: u64) -> StakedNFT {
    StakedNFT {
        nft_addr: addr(9),
        staked_amount: amount,
        period: 30,
        multiplier: 10000,
        lock_time,
        item_id,
        unlock_time: 0,
        last_update_time: lock_time,
    }
}

fn pool_with(owner: Address, items: &[StakedNFT]) -> UserStakingPool {
    let mut pool = UserStakingPool::default();
    pool.owner = owner;
    for it in items {
        pool.add_nft(*it);
        pool.total_staked_amount += it.staked_amount;
    }
    pool
}

fn global(admin: Address, ddp: u64) -> GlobalPool {
    GlobalPool {
        super_admin: admin,
        total_reward_pool: 0,
        daily_drip_percentage: ddp,
        total_staked: 10 * ONE_SOL,
        total_weight: 10 * ONE_SOL,
        daily_drip_amount: 0,
        reward_per_second: 0,
    }
}

// ---------------------------------------------------------------- addresses

#[test]
fn address_comparison() {
    assert!(addr(1).same_as(&addr(1)));
    assert!(!addr(1).same_as(&addr(2)));
    let mut a = addr(1);
    a.bytes[31] = 7;
    assert!(!a.same_as(&addr(1)));
    assert!(Address::zero().same_as(&Address::default()));
}

// ---------------------------------------------------------------- rewards

#[test]
fn reward_one_day_exact() {
    // weight 1e9, drip 1% = 1e7 a day, 115 per second, for 86400 seconds.
    let r = calculate_user_reward_at(T0, 30, ONE_SOL, T0, 10000, 1, T0 + DAY);
    assert_eq!(r, 115 * 86400);
    assert_eq!(r, 9_936_000);
}

#[test]
fn reward_uses_multiplier_and_drip() {
    // weight = 2e9 * 15000 / 10000 = 3e9; drip 5% = 1.5e8; per second 1736.
    let r = calculate_user_reward_at(T0, 10, 2 * ONE_SOL, T0, 15000, 5, T0 + 100);
    assert_eq!(r, 1736 * 100);
}

#[test]
fn reward_stops_at_period_end() {
    let at_end = calculate_user_reward_at(T0, 30, ONE_SOL, T0, 10000, 1, T0 + 30 * DAY);
    let later = calculate_user_reward_at(T0, 30, ONE_SOL, T0, 10000, 1, T0 + 90 * DAY);
    assert_eq!(at_end, 115 * 30 * 86400);
    assert_eq!(later, at_end);
}

#[test]
fn reward_zero_before_last_update() {
    assert_eq!(calculate_user_reward_at(T0, 30, ONE_SOL, T0 + 500, 10000, 1, T0 + 100), 0);
    assert_eq!(calculate_user_reward_at(T0, 30, ONE_SOL, T0 + 500, 10000, 1, T0 + 500), 0);
}

#[test]
fn reward_zero_when_rate_rounds_down() {
    // weight 1000, drip 10 a day: less than one per second.
    assert_eq!(calculate_user_reward_at(T0, 30, 1000, T0, 10000, 1, T0 + DAY), 0);
}

#[test]
fn reward_grows_with_time() {
    let a = calculate_user_reward_at(T0, 30, ONE_SOL, T0, 10000, 1, T0 + 10);
    let b = calculate_user_reward_at(T0, 30, ONE_SOL, T0, 10000, 1, T0 + 20);
    let c = calculate_user_reward_at(T0, 30, ONE_SOL, T0, 10000, 1, T0 + 20 * DAY);
    assert!(a <= b && b <= c);
    assert_eq!(b, 2 * a);
}

#[test]
fn reward_of_zero_period_item_is_zero() {
    assert_eq!(calculate_user_reward_at(T0, 0, ONE_SOL, T0, 10000, 1, T0 + DAY), 0);
}

#[test]
fn clock_is_unavailable_off_chain() {
    assert_eq!(current_timestamp(), None);
    assert_eq!(calculate_user_reward(T0, 30, ONE_SOL, T0, 10000, 1), None);
}

// ---------------------------------------------------------------- item slots

#[test]
fn default_pool_is_empty() {
    let pool = UserStakingPool::default();
    assert_eq!(pool.item_count, 0);
    assert_eq!(pool.total_staked_amount, 0);
    assert_eq!(pool.pending_reward, 0);
    assert!(pool.owner.same_as(&Address::zero()));
    for i in 0..NFT_NUMBER {
        assert_eq!(pool.items[i], StakedNFT::default());
    }
}

#[test]
fn add_nft_fills_next_slot() {
    let mut pool = UserStakingPool::default();
    pool.add_nft(item(7, 100, T0));
    pool.add_nft(item(8, 200, T0));
    assert_eq!(pool.item_count, 2);
    assert_eq!(pool.items[0].item_id, 7);
    assert_eq!(pool.items[1].item_id, 8);
    assert_eq!(pool.items[2], StakedNFT::default());
}

#[test]
fn select_item_finds_first_match() {
    let pool = pool_with(addr(1), &[item(5, 1, T0), item(6, 2, T0), item(6, 3, T0)]);
    let (it, idx) = select_item(&pool, 6);
    assert_eq!(idx, 1);
    assert_eq!(it.staked_amount, 2);
}

#[test]
fn select_item_missing_gives_empty_item_and_slot_zero() {
    let pool = pool_with(addr(1), &[item(5, 1, T0)]);
    let (it, idx) = select_item(&pool, 42);
    assert_eq!(idx, 0);
    assert_eq!(it, StakedNFT::default());
}

#[test]
fn select_item_ignores_slots_past_count() {
    let mut pool = pool_with(addr(1), &[item(5, 1, T0)]);
    pool.items[3] = item(9, 4, T0);
    let (it, idx) = select_item(&pool, 9);
    assert_eq!((it, idx), (StakedNFT::default(), 0));
}

#[test]
fn remove_nft_compacts_and_returns_reward() {
    let mut pool = pool_with(addr(1), &[item(1, ONE_SOL, T0), item(2, ONE_SOL, T0), item(3, ONE_SOL, T0)]);
    let r = pool.remove_nft(addr(1), 2, 1, T0 + DAY);
    assert_eq!(r, Ok(9_936_000));
    assert_eq!(pool.item_count, 2);
    assert_eq!(pool.items[0].item_id, 1);
    assert_eq!(pool.items[1].item_id, 3);
    assert_eq!(pool.items[2], StakedNFT::default());
}

#[test]
fn remove_nft_rejects_other_caller() {
    let mut pool = pool_with(addr(1), &[item(1, 5, T0)]);
    let before = pool;
    assert_eq!(pool.remove_nft(addr(2), 1, 1, T0), Err(ThogError::OnlyOwnerCanCall));
    assert_eq!(pool, before);
}

#[test]
fn remove_nft_rejects_unknown_id() {
    let mut pool = pool_with(addr(1), &[item(1, 5, T0)]);
    let before = pool;
    assert_eq!(pool.remove_nft(addr(1), 77, 1, T0), Err(ThogError::InvalidNFTAddress));
    assert_eq!(pool, before);
}

#[test]
fn remove_nft_drops_unlocked_slots_in_use() {
    // An item in use whose lock time is zero is dropped by the rebuild too.
    let mut pool = pool_with(addr(1), &[item(1, 5, T0), item(2, 5, 0), item(3, 5, T0)]);
    assert_eq!(pool.remove_nft(addr(1), 1, 1, T0), Ok(0));
    assert_eq!(pool.item_count, 2);
    assert_eq!(pool.items[0].item_id, 3);
    assert_eq!(pool.items[1], StakedNFT::default());
}

#[test]
fn remove_undoes_add() {
    let mut pool = pool_with(addr(1), &[item(1, 5, T0), item(2, 6, T0)]);
    let before = pool;
    pool.add_nft(item(9, ONE_SOL, T0));
    assert_eq!(pool.remove_nft(addr(1), 9, 1, T0 + DAY), Ok(9_936_000));
    assert_eq!(pool, before);
}

// ---------------------------------------------------------------- admin

#[test]
fn reinitialize_sets_drip() {
    let mut ctx = ReInitialize { admin: addr(1), global_authority: global(addr(1), 0) };
    assert_eq!(ReInitialize::process_instruction(&mut ctx, 1000, 2), Ok(()));
    let g = ctx.global_authority;
    assert_eq!(g.total_reward_pool, 1000 * ONE_SOL);
    assert_eq!(g.daily_drip_percentage, 2);
    assert_eq!(g.daily_drip_amount, 20 * ONE_SOL);
    assert_eq!(g.reward_per_second, 20 * ONE_SOL / 86400);
    assert_eq!(g.reward_per_second, 231_481);
    assert_eq!(g.total_staked, 10 * ONE_SOL);
}

#[test]
fn reinitialize_rejects_non_admin() {
    let mut ctx = ReInitialize { admin: addr(2), global_authority: global(addr(1), 0) };
    let before = ctx.global_authority;
    assert_eq!(ReInitialize::process_instruction(&mut ctx, 1000, 2), Err(ThogError::Unautherized));
    assert_eq!(ctx.global_authority, before);
}

#[test]
fn withdraw_sol_pays_whole_vault_to_admin() {
    let ctx = WithdrawSOL { admin: addr(1), global_authority: global(addr(1), 1), reward_vault_lamports: 12345 };
    assert_eq!(WithdrawSOL::process_withdraw_sol(&ctx), Ok(12345));
    let other = WithdrawSOL { admin: addr(3), global_authority: global(addr(1), 1), reward_vault_lamports: 12345 };
    assert_eq!(WithdrawSOL::process_withdraw_sol(&other), Err(ThogError::Unautherized));
}

#[test]
fn withdraw_spl_pays_whole_balance_to_admin() {
    let ctx = WithdrawSPL { admin: addr(1), global_authority: global(addr(1), 1), vault_token_amount: 777 };
    assert_eq!(WithdrawSPL::process_withdraw_spl(&ctx), Ok(777));
    let other = WithdrawSPL { admin: addr(3), global_authority: global(addr(1), 1), vault_token_amount: 777 };
    assert_eq!(WithdrawSPL::process_withdraw_spl(&other), Err(ThogError::Unautherized));
}

#[test]
fn init_user_pool_sets_owner() {
    let mut ctx = InitializeUserPool { owner: addr(4), staking_pool: UserStakingPool::default() };
    assert_eq!(InitializeUserPool::process_instruction(&mut ctx), Ok(()));
    assert!(ctx.staking_pool.owner.same_as(&addr(4)));
    assert_eq!(ctx.staking_pool.item_count, 0);
}

// ---------------------------------------------------------------- staking

#[test]
fn stake_nft_records_item_and_totals() {
    let mut ctx = Stake {
        owner: addr(1),
        global_authority: global(addr(1), 1),
        staking_pool: pool_with(addr(1), &[item(1, 100, T0)]),
        nft_token_account: addr(5),
    };
    assert_eq!(Stake::stake_thog_nft(&mut ctx, 300, 20000, 60, 42, T0 + 5), Ok(()));
    let p = ctx.staking_pool;
    assert_eq!(p.item_count, 2);
    assert_eq!(p.total_staked_amount, 400);
    let it = p.items[1];
    assert!(it.nft_addr.same_as(&addr(5)));
    assert_eq!((it.staked_amount, it.multiplier, it.period), (300, 20000, 60));
    assert_eq!((it.lock_time, it.item_id, it.unlock_time, it.last_update_time), (T0 + 5, 42, 0, T0 + 5));
    assert_eq!(ctx.global_authority.total_staked, 10 * ONE_SOL + 300);
    // The weight added is that of the pool's new total under this multiplier.
    assert_eq!(ctx.global_authority.total_weight, 10 * ONE_SOL + 400 * 20000 / 10000);
}

#[test]
fn stake_thog_records_token_item() {
    let mut ctx = StakeThog {
        owner: addr(1),
        global_authority: global(addr(1), 1),
        staking_pool: pool_with(addr(1), &[item(1, 100, T0)]),
    };
    assert_eq!(StakeThog::stake_thog_handler(&mut ctx, 50, 8, T0 + 1), Ok(()));
    let it = ctx.staking_pool.items[1];
    assert!(it.nft_addr.same_as(&Address::zero()));
    assert_eq!((it.staked_amount, it.multiplier, it.period, it.item_id), (50, 10000, 30, 8));
    assert_eq!(ctx.staking_pool.total_staked_amount, 150);
    assert_eq!(ctx.global_authority.total_staked, 10 * ONE_SOL + 50);
    assert_eq!(ctx.global_authority.total_weight, 10 * ONE_SOL + 150);
}

// ---------------------------------------------------------------- unlocking

#[test]
fn unlock_marks_item_and_refuses_twice() {
    let mut ctx = UnLock { owner: addr(1), staking_pool: pool_with(addr(1), &[item(1, 5, T0), item(2, 5, T0)]) };
    assert_eq!(UnLock::unlock_handler(&mut ctx, 2, T0 + 9), Ok(()));
    assert_eq!(ctx.staking_pool.items[1].unlock_time, T0 + 9);
    assert_eq!(ctx.staking_pool.items[0].unlock_time, 0);
    assert_eq!(UnLock::unlock_handler(&mut ctx, 2, T0 + 10), Err(ThogError::AlreadyUnlocked));
}

#[test]
fn unlock_unknown_id_marks_slot_zero() {
    let mut ctx = UnLock { owner: addr(1), staking_pool: pool_with(addr(1), &[item(1, 5, T0)]) };
    assert_eq!(UnLock::unlock_handler(&mut ctx, 99, T0 + 3), Ok(()));
    assert_eq!(ctx.staking_pool.items[0].unlock_time, T0 + 3);
}

#[test]
fn unlock_rejects_other_caller() {
    let mut ctx = UnLock { owner: addr(2), staking_pool: pool_with(addr(1), &[item(1, 5, T0)]) };
    assert_eq!(UnLock::unlock_handler(&mut ctx, 1, T0), Err(ThogError::OnlyOwnerCanCall));
    assert_eq!(UnLock::unlock_all_handler(&mut ctx, T0), Err(ThogError::OnlyOwnerCanCall));
}

#[test]
fn unlock_all_keeps_earlier_unlocks() {
    let mut ctx = UnLock { owner: addr(1), staking_pool: pool_with(addr(1), &[item(1, 5, T0), item(2, 5, T0)]) };
    assert_eq!(UnLock::unlock_handler(&mut ctx, 1, T0 + 1), Ok(()));
    assert_eq!(UnLock::unlock_all_handler(&mut ctx, T0 + 2), Ok(()));
    assert_eq!(ctx.staking_pool.items[0].unlock_time, T0 + 1);
    assert_eq!(ctx.staking_pool.items[1].unlock_time, T0 + 2);
    assert_eq!(ctx.staking_pool.items[2].unlock_time, 0);
    assert_eq!(UnLock::unlock_handler(&mut ctx, 2, T0 + 3), Err(ThogError::AlreadyUnlocked));
}

// ---------------------------------------------------------------- withdrawing

fn withdraw_thog_ctx(owner: Address) -> WithdrawThog {
    WithdrawThog {
        owner,
        staking_pool: pool_with(addr(1), &[item(1, ONE_SOL, T0), item(2, 2 * ONE_SOL, T0)]),
        global_authority: global(addr(1), 1),
    }
}

#[test]
fn withdraw_thog_before_period_end_is_refused() {
    let mut ctx = withdraw_thog_ctx(addr(1));
    assert_eq!(WithdrawThog::withdraw_thog_handler(&mut ctx, 1, T0 + 29 * DAY), Err(ThogError::WithdrawAfter));
}

#[test]
fn withdraw_thog_rejects_other_caller() {
    let mut ctx = withdraw_thog_ctx(addr(2));
    assert_eq!(WithdrawThog::withdraw_thog_handler(&mut ctx, 1, T0 + 31 * DAY), Err(ThogError::OnlyOwnerCanCall));
}

#[test]
fn withdraw_thog_settles_item() {
    let mut ctx = withdraw_thog_ctx(addr(1));
    let r = WithdrawThog::withdraw_thog_handler(&mut ctx, 1, T0 + 31 * DAY);
    assert_eq!(r, Ok(ONE_SOL));
    let p = ctx.staking_pool;
    assert_eq!(p.item_count, 1);
    assert_eq!(p.items[0].item_id, 2);
    assert_eq!(p.total_staked_amount, 2 * ONE_SOL);
    // The reward of the whole thirty-day period joins the pending reward.
    assert_eq!(p.pending_reward, 115 * 30 * 86400);
    assert_eq!(ctx.global_authority.total_staked, 9 * ONE_SOL);
    // The released weight is that of the pool's remaining total.
    assert_eq!(ctx.global_authority.total_weight, 10 * ONE_SOL - 2 * ONE_SOL);
}

#[test]
fn withdraw_thog_needs_something_staked() {
    let mut ctx = withdraw_thog_ctx(addr(1));
    ctx.staking_pool.total_staked_amount = 0;
    assert_eq!(WithdrawThog::withdraw_thog_handler(&mut ctx, 1, T0 + 31 * DAY), Err(ThogError::InsufficientStakedAmount));
}

#[test]
fn withdraw_thog_unknown_id_is_refused_without_change() {
    let mut ctx = withdraw_thog_ctx(addr(1));
    let before = ctx.staking_pool;
    assert_eq!(WithdrawThog::withdraw_thog_handler(&mut ctx, 55, T0), Err(ThogError::InvalidNFTAddress));
    assert_eq!(ctx.staking_pool, before);
    assert_eq!(ctx.global_authority, global(addr(1), 1));
}

#[test]
fn withdraw_nft_waits_a_day_after_unlock() {
    let mut pool = pool_with(addr(1), &[item(1, ONE_SOL, T0)]);
    pool.items[0].unlock_time = T0 + 10 * DAY;
    let mut ctx = Withdraw { owner: addr(1), staking_pool: pool, global_authority: global(addr(1), 1) };
    assert_eq!(Withdraw::withdraw_thog_nft_handler(&mut ctx, 1, T0 + 10 * DAY + 100), Err(ThogError::WithdrawNotOver));
    assert_eq!(Withdraw::withdraw_thog_nft_handler(&mut ctx, 1, T0 + 11 * DAY), Ok(ONE_SOL));
    assert_eq!(ctx.staking_pool.item_count, 0);
    assert_eq!(ctx.staking_pool.total_staked_amount, 0);
    assert_eq!(ctx.staking_pool.pending_reward, 115 * 11 * 86400);
    assert_eq!(ctx.global_authority.total_staked, 9 * ONE_SOL);
}

// ---------------------------------------------------------------- claiming

fn claim_ctx(vault: u64) -> ClaimRewards {
    ClaimRewards {
        owner: addr(1),
        staking_pool: pool_with(addr(1), &[item(1, ONE_SOL, T0), item(2, 2 * ONE_SOL, T0)]),
        global_authority: global(addr(1), 1),
        reward_vault_lamports: vault,
    }
}

#[test]
fn claim_rewards_pays_and_resets_clock() {
    let mut ctx = claim_ctx(ONE_SOL);
    assert_eq!(ClaimRewards::claim_rewards_handler(&mut ctx, 1, T0 + DAY), Ok(9_936_000));
    assert_eq!(ctx.staking_pool.items[0].last_update_time, T0 + DAY);
    assert_eq!(ctx.staking_pool.items[1].last_update_time, T0);
    assert_eq!(ClaimRewards::claim_rewards_handler(&mut ctx, 1, T0 + DAY), Err(ThogError::InsufficientClaimAmount));
}

#[test]
fn claim_rewards_needs_vault_above_reward() {
    let mut ctx = claim_ctx(9_936_000);
    let before = ctx.staking_pool;
    assert_eq!(ClaimRewards::claim_rewards_handler(&mut ctx, 1, T0 + DAY), Err(ThogError::InsufficientRewardVaultBalance));
    assert_eq!(ctx.staking_pool, before);
}

#[test]
fn claim_rewards_unknown_id_has_nothing() {
    let mut ctx = claim_ctx(ONE_SOL);
    assert_eq!(ClaimRewards::claim_rewards_handler(&mut ctx, 9, T0 + DAY), Err(ThogError::InsufficientClaimAmount));
}

#[test]
fn claim_pending_pays_once() {
    let mut ctx = claim_ctx(ONE_SOL);
    ctx.staking_pool.pending_reward = 500;
    assert_eq!(ClaimRewards::claim_pending_rewards_handler(&mut ctx), Ok(500));
    assert_eq!(ctx.staking_pool.pending_reward, 0);
    assert_eq!(ClaimRewards::claim_pending_rewards_handler(&mut ctx), Err(ThogError::InsufficientClaimAmount));
}

#[test]
fn claim_pending_needs_vault_above_amount() {
    let mut ctx = claim_ctx(500);
    ctx.staking_pool.pending_reward = 500;
    assert_eq!(ClaimRewards::claim_pending_rewards_handler(&mut ctx), Err(ThogError::InsufficientRewardVaultBalance));
    assert_eq!(ctx.staking_pool.pending_reward, 500);
}

#[test]
fn claim_all_sums_items_and_pending() {
    let mut ctx = claim_ctx(ONE_SOL);
    ctx.staking_pool.pending_reward = 7;
    // item 2 has weight 2e9: 2e7 a day, 231 per second.
    let r = ClaimRewards::claim_all_rewards_handler(&mut ctx, T0 + DAY);
    assert_eq!(r, Ok(115 * 86400 + 231 * 86400 + 7));
    assert_eq!(ctx.staking_pool.pending_reward, 0);
    assert_eq!(ctx.staking_pool.items[0].last_update_time, T0 + DAY);
    assert_eq!(ctx.staking_pool.items[1].last_update_time, T0 + DAY);
    assert_eq!(ClaimRewards::claim_all_rewards_handler(&mut ctx, T0 + DAY), Err(ThogError::InsufficientClaimAmount));
}

#[test]
fn claim_all_rejects_bad_count() {
    let mut ctx = claim_ctx(ONE_SOL);
    ctx.staking_pool.item_count = 31;
    assert_eq!(ClaimRewards::claim_all_rewards_handler(&mut ctx, T0 + DAY), Err(ThogError::InvalidItemCount));
}

#[test]
fn claim_all_rejects_other_caller_and_poor_vault() {
    let mut ctx = claim_ctx(10);
    let before = ctx.staking_pool;
    assert_eq!(ClaimRewards::claim_all_rewards_handler(&mut ctx, T0 + DAY), Err(ThogError::InsufficientRewardVaultBalance));
    assert_eq!(ctx.staking_pool, before);
    ctx.owner = addr(3);
    assert_eq!(ClaimRewards::claim_all_rewards_handler(&mut ctx, T0 + DAY), Err(ThogError::OnlyOwnerCanCall));
    assert_eq!(ClaimRewards::claim_rewards_handler(&mut ctx, 1, T0 + DAY), Err(ThogError::OnlyOwnerCanCall));
    assert_eq!(ClaimRewards::claim_pending_rewards_handler(&mut ctx), Err(ThogError::OnlyOwnerCanCall));
}

// ---------------------------------------------------------------- bounds tests

#[test]
fn reward_bounds_test() {
    assert!(reward_fits(T0, 30, ONE_SOL, T0, 10000, 1, T0 + DAY));
    assert!(!reward_fits(u64::MAX - 10, 1, 1, 0, 1, 1, 0));
    assert!(!reward_fits(T0, 30, u64::MAX, T0, 2, 1, T0));
    assert!(!reward_fits(T0, 30, u64::MAX / 10000, T0, 10000, 100_000, T0));
}

#[test]
fn stake_bounds_test() {
    let mut full = UserStakingPool::default();
    full.owner = addr(1);
    for i in 0..NFT_NUMBER {
        full.add_nft(item(i as u64, 1, T0));
    }
    let ctx = Stake { owner: addr(1), global_authority: global(addr(1), 1), staking_pool: full, nft_token_account: addr(5) };
    assert!(!Stake::can_stake(&ctx, 1, 10000));
    let ok = Stake { owner: addr(1), global_authority: global(addr(1), 1), staking_pool: UserStakingPool::default(), nft_token_account: addr(5) };
    assert!(Stake::can_stake(&ok, 100, 10000));
    assert!(!Stake::can_stake(&ok, u64::MAX, 2));
    let thog = StakeThog { owner: addr(1), global_authority: global(addr(1), 1), staking_pool: UserStakingPool::default() };
    assert!(StakeThog::can_stake(&thog, 100));
    assert!(!StakeThog::can_stake(&thog, u64::MAX));
}

#[test]
fn lookup_bounds_test() {
    let mut pool = pool_with(addr(1), &[item(1, 1, T0), item(2, 1, T0)]);
    assert!(pool.can_look_up(77));
    pool.item_count = 40;
    assert!(pool.can_look_up(2));
    assert!(!pool.can_look_up(77));
}

#[test]
fn funding_bounds_test() {
    assert!(ReInitialize::can_fund(1000, 2));
    assert!(!ReInitialize::can_fund(u64::MAX / ONE_SOL + 1, 0));
    assert!(!ReInitialize::can_fund(1_000_000_000, 100));
}

#[test]
fn claim_bounds_test() {
    let ctx = claim_ctx(ONE_SOL);
    assert!(ClaimRewards::can_claim(&ctx, 1, T0 + DAY));
    assert!(ClaimRewards::can_claim_all(&ctx, T0 + DAY));
    let mut big = claim_ctx(ONE_SOL);
    big.staking_pool.pending_reward = u64::MAX;
    assert!(!ClaimRewards::can_claim_all(&big, T0 + DAY));
    assert!(ClaimRewards::can_claim_all(&big, T0));
}

#[test]
fn withdraw_bounds_test() {
    let ctx = withdraw_thog_ctx(addr(1));
    assert!(WithdrawThog::can_withdraw(&ctx, 1, T0 + 31 * DAY));
    let mut poor = withdraw_thog_ctx(addr(1));
    poor.global_authority.total_staked = 0;
    assert!(!WithdrawThog::can_withdraw(&poor, 1, T0 + 31 * DAY));
    assert!(WithdrawThog::can_withdraw(&poor, 1, T0));
    let nft = Withdraw { owner: addr(1), staking_pool: poor.staking_pool, global_authority: poor.global_authority };
    assert!(!Withdraw::can_withdraw(&nft, 1, T0 + DAY));
}

// ---------------------------------------------------------------- laws on concrete values

#[test]
fn stake_and_withdraw_keep_totals_in_step() {
    let mut ctx = StakeThog { owner: addr(1), global_authority: global(addr(1), 1), staking_pool: pool_with(addr(1), &[item(1, 100, T0)]) };
    assert_eq!(StakeThog::stake_thog_handler(&mut ctx, 40, 2, T0), Ok(()));
    let sum: u64 = (0..ctx.staking_pool.item_count as usize).map(|i| ctx.staking_pool.items[i].staked_amount).sum();
    assert_eq!(sum, ctx.staking_pool.total_staked_amount);
    let mut w = WithdrawThog { owner: addr(1), staking_pool: ctx.staking_pool, global_authority: ctx.global_authority };
    assert_eq!(WithdrawThog::withdraw_thog_handler(&mut w, 2, T0 + 30 * DAY), Ok(40));
    let sum: u64 = (0..w.staking_pool.item_count as usize).map(|i| w.staking_pool.items[i].staked_amount).sum();
    assert_eq!(sum, w.staking_pool.total_staked_amount);
    assert_eq!(w.staking_pool.total_staked_amount, 100);
    assert_eq!(w.global_authority.total_staked, 10 * ONE_SOL);
}

#[test]
fn withdraw_unknown_id_removes_item_with_id_zero() {
    // The lookup falls back to an empty item whose id is zero, and the removal
    // then takes out an item with id zero without counting its amount.
    let mut ctx = WithdrawThog {
        owner: addr(1),
        staking_pool: pool_with(addr(1), &[item(0, 5, T0), item(1, 6, T0)]),
        global_authority: global(addr(1), 1),
    };
    assert_eq!(WithdrawThog::withdraw_thog_handler(&mut ctx, 55, T0), Ok(0));
    assert_eq!(ctx.staking_pool.item_count, 1);
    assert_eq!(ctx.staking_pool.items[0].item_id, 1);
    assert_eq!(ctx.staking_pool.total_staked_amount, 11);
}

#[test]
fn unlock_at_time_zero_can_repeat() {
    let mut ctx = UnLock { owner: addr(1), staking_pool: pool_with(addr(1), &[item(1, 5, T0)]) };
    assert_eq!(UnLock::unlock_handler(&mut ctx, 1, 0), Ok(()));
    assert_eq!(UnLock::unlock_handler(&mut ctx, 1, 0), Ok(()));
}

#[test]
fn claim_refused_after_period_end_once_claimed() {
    let mut ctx = claim_ctx(10 * ONE_SOL);
    assert_eq!(ClaimRewards::claim_rewards_handler(&mut ctx, 1, T0 + 31 * DAY), Ok(115 * 30 * 86400));
    let after = ctx.staking_pool;
    assert_eq!(ClaimRewards::claim_rewards_handler(&mut ctx, 1, T0 + 40 * DAY), Err(ThogError::InsufficientClaimAmount));
    assert_eq!(ctx.staking_pool, after);
}

#[test]
fn successive_claims_stay_within_lock_period() {
    let mut ctx = claim_ctx(100 * ONE_SOL);
    let mut paid: u64 = 0;
    for t in [T0 + 100, T0 + DAY, T0 + 10 * DAY, T0 + 29 * DAY + 5, T0 + 45 * DAY, T0 + 60 * DAY] {
        if let Ok(r) = ClaimRewards::claim_rewards_handler(&mut ctx, 1, t) {
            paid += r;
        }
    }
    assert_eq!(paid, 115 * 30 * 86400);
}

#[test]
fn unlock_all_twice_changes_nothing() {
    let mut ctx = UnLock { owner: addr(1), staking_pool: pool_with(addr(1), &[item(1, 5, T0), item(2, 5, T0)]) };
    assert_eq!(UnLock::unlock_all_handler(&mut ctx, T0 + 1), Ok(()));
    let after = ctx.staking_pool;
    assert_eq!(UnLock::unlock_all_handler(&mut ctx, T0 + 9), Ok(()));
    assert_eq!(ctx.staking_pool, after);
}

#[test]
fn withdraw_nft_within_a_day_of_unlock_is_refused() {
    let mut u = UnLock { owner: addr(1), staking_pool: pool_with(addr(1), &[item(1, ONE_SOL, T0)]) };
    assert_eq!(UnLock::unlock_handler(&mut u, 1, T0 + 5 * DAY), Ok(()));
    let mut w = Withdraw { owner: addr(1), staking_pool: u.staking_pool, global_authority: global(addr(1), 1) };
    assert_eq!(Withdraw::withdraw_thog_nft_handler(&mut w, 1, T0 + 6 * DAY - 1), Err(ThogError::WithdrawNotOver));
    assert_eq!(w.staking_pool, u.staking_pool);
    assert_eq!(w.global_authority, global(addr(1), 1));
}

#[test]
fn withdraw_thog_undoes_stake_thog() {
    let start = pool_with(addr(1), &[item(1, ONE_SOL, T0)]);
    let mut s = StakeThog { owner: addr(1), global_authority: global(addr(1), 1), staking_pool: start };
    assert_eq!(StakeThog::stake_thog_handler(&mut s, ONE_SOL, 7, T0 + 10), Ok(()));
    let mut w = WithdrawThog { owner: addr(1), staking_pool: s.staking_pool, global_authority: s.global_authority };
    assert_eq!(WithdrawThog::withdraw_thog_handler(&mut w, 7, T0 + 10 + 31 * DAY), Ok(ONE_SOL));
    let mut expected = start;
    expected.pending_reward += 115 * 30 * 86400;
    assert_eq!(w.staking_pool, expected);
    assert_eq!(w.global_authority.total_staked, 10 * ONE_SOL);
}
