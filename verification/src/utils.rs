use vstd::prelude::*;

use solana_program::sysvar::Sysvar;

use crate::account::{StakedNFT, UserStakingPool};
use crate::constants::{DAY, MULTIPLIER_BASIS};

verus! {

/// The moment at which an item's lock period ends: `period` days after `lock_time`.
pub open spec fn period_end(lock_time: u64, period: u64) -> int {
    lock_time + period * DAY
}

/// The seconds for which rewards accrue up to `now`: from `last_update_time`
/// to `now`, but never past the end of the lock period, and none when that
/// moment lies before `last_update_time`.
pub open spec fn accrual_seconds(lock_time: u64, period: u64, last_update_time: u64, now: u64) -> int {
    let end = period_end(lock_time, period);
    let until = if now <= end { now as int } else { end };
    if until >= last_update_time { until - last_update_time } else { 0 }
}

/// The most seconds that can ever accrue: those up to the end of the lock period.
pub open spec fn max_accrual_seconds(lock_time: u64, period: u64, last_update_time: u64) -> int {
    let end = period_end(lock_time, period);
    if end >= last_update_time { end - last_update_time } else { 0 }
}

/// An item's weight: its staked amount scaled by its multiplier.
pub open spec fn user_weight(staked_amount: u64, multiplier: u64) -> int {
    (staked_amount * multiplier) / (MULTIPLIER_BASIS as int)
}

/// The reward paid per second: the daily drip percentage of the item's
/// weight, spread over the seconds of a day.
pub open spec fn reward_rate(staked_amount: u64, multiplier: u64, daily_drip_percentage: u64) -> int {
    ((user_weight(staked_amount, multiplier) * daily_drip_percentage) / 100) / (DAY as int)
}

/// The reward accrued by an item at `now`: its rate times the accrued seconds.
pub open spec fn accrued_reward(
    lock_time: u64,
    period: u64,
    staked_amount: u64,
    last_update_time: u64,
    multiplier: u64,
    daily_drip_percentage: u64,
    now: u64,
) -> int {
    reward_rate(staked_amount, multiplier, daily_drip_percentage)
        * accrual_seconds(lock_time, period, last_update_time, now)
}

/// Every intermediate value of the reward computation at `now` fits in a `u64`.
pub open spec fn reward_computable(
    lock_time: u64,
    period: u64,
    staked_amount: u64,
    last_update_time: u64,
    multiplier: u64,
    daily_drip_percentage: u64,
    now: u64,
) -> bool {
    &&& period_end(lock_time, period) <= u64::MAX
    &&& staked_amount * multiplier <= u64::MAX
    &&& user_weight(staked_amount, multiplier) * daily_drip_percentage <= u64::MAX
    &&& accrued_reward(
        lock_time,
        period,
        staked_amount,
        last_update_time,
        multiplier,
        daily_drip_percentage,
        now,
    ) <= u64::MAX
}

/// Every intermediate value of the reward computation fits in a `u64`,
/// whatever the time is.
pub open spec fn reward_computable_at_any_time(
    lock_time: u64,
    period: u64,
    staked_amount: u64,
    last_update_time: u64,
    multiplier: u64,
    daily_drip_percentage: u64,
) -> bool {
    &&& period_end(lock_time, period) <= u64::MAX
    &&& staked_amount * multiplier <= u64::MAX
    &&& user_weight(staked_amount, multiplier) * daily_drip_percentage <= u64::MAX
    &&& reward_rate(staked_amount, multiplier, daily_drip_percentage) * max_accrual_seconds(
        lock_time,
        period,
        last_update_time,
    ) <= u64::MAX
}

/// The accrued seconds never exceed those up to the end of the lock period.
pub proof fn lemma_accrual_bounded(lock_time: u64, period: u64, last_update_time: u64, now: u64)
    ensures
        0 <= accrual_seconds(lock_time, period, last_update_time, now) <= max_accrual_seconds(
            lock_time,
            period,
            last_update_time,
        ),
{
}

/// Rewards are never negative.
pub proof fn lemma_reward_nonnegative(
    lock_time: u64,
    period: u64,
    staked_amount: u64,
    last_update_time: u64,
    multiplier: u64,
    daily_drip_percentage: u64,
    now: u64,
)
    ensures
        accrued_reward(
            lock_time,
            period,
            staked_amount,
            last_update_time,
            multiplier,
            daily_drip_percentage,
            now,
        ) >= 0,
{
    let w = user_weight(staked_amount, multiplier);
    assert(staked_amount * multiplier >= 0) by (nonlinear_arith);
    assert(w * daily_drip_percentage >= 0) by (nonlinear_arith)
        requires
            w >= 0,
    ;
    let rate = reward_rate(staked_amount, multiplier, daily_drip_percentage);
    let secs = accrual_seconds(lock_time, period, last_update_time, now);
    assert(rate * secs >= 0) by (nonlinear_arith)
        requires
            rate >= 0,
            secs >= 0,
    ;
}

/// A computation that fits whatever the time is fits at every given time.
pub proof fn lemma_computable_at(
    lock_time: u64,
    period: u64,
    staked_amount: u64,
    last_update_time: u64,
    multiplier: u64,
    daily_drip_percentage: u64,
    now: u64,
)
    requires
        reward_computable_at_any_time(
            lock_time,
            period,
            staked_amount,
            last_update_time,
            multiplier,
            daily_drip_percentage,
        ),
    ensures
        reward_computable(
            lock_time,
            period,
            staked_amount,
            last_update_time,
            multiplier,
            daily_drip_percentage,
            now,
        ),
{
    lemma_accrual_bounded(lock_time, period, last_update_time, now);
    let rate = reward_rate(staked_amount, multiplier, daily_drip_percentage);
    assert(rate >= 0) by {
        assert(staked_amount * multiplier >= 0) by (nonlinear_arith);
        assert(user_weight(staked_amount, multiplier) * daily_drip_percentage >= 0)
            by (nonlinear_arith)
            requires
                user_weight(staked_amount, multiplier) >= 0,
        ;
    }
    vstd::arithmetic::mul::lemma_mul_inequality(
        accrual_seconds(lock_time, period, last_update_time, now),
        max_accrual_seconds(lock_time, period, last_update_time),
        rate,
    );
    vstd::arithmetic::mul::lemma_mul_is_commutative(
        rate,
        accrual_seconds(lock_time, period, last_update_time, now),
    );
    vstd::arithmetic::mul::lemma_mul_is_commutative(
        rate,
        max_accrual_seconds(lock_time, period, last_update_time),
    );
}

/// The reward accrued by an item at `now`, computed as the program does:
/// the item's weight (`staked_amount * multiplier / 10000`), its daily drip
/// (`weight * daily_drip_percentage / 100`), the rate per second (daily drip
/// over a day), times the seconds from `last_update_time` to `now`, cut at the
/// end of the lock period.
pub fn calculate_user_reward_at(
    lock_time: u64,
    period: u64,
    staked_amount: u64,
    last_update_time: u64,
    multiplier: u64,
    daily_drip_percentage: u64,
    now: u64,
) -> (reward: u64)
    requires
        reward_computable(
            lock_time,
            period,
            staked_amount,
            last_update_time,
            multiplier,
            daily_drip_percentage,
            now,
        ),
    ensures
        reward == accrued_reward(
            lock_time,
            period,
            staked_amount,
            last_update_time,
            multiplier,
            daily_drip_percentage,
            now,
        ),
{
    let end: u64 = lock_time + period * DAY;
    let current_timestamp: u64 = if now <= end {
        now
    } else {
        end
    };
    let mut time_diff: u64 = 0;
    if current_timestamp >= last_update_time {
        time_diff = current_timestamp - last_update_time;
    }
    let user_weight: u64 = (staked_amount * multiplier) / MULTIPLIER_BASIS;
    let daily_drip_amount: u64 = (user_weight * daily_drip_percentage) / 100;
    let reward_per_second: u64 = daily_drip_amount / DAY;
    reward_per_second * time_diff
}

/// Whether the reward computation at `now` stays within `u64`; callers test
/// it before `calculate_user_reward_at`, whose arithmetic would overflow otherwise.
pub fn reward_fits(
    lock_time: u64,
    period: u64,
    staked_amount: u64,
    last_update_time: u64,
    multiplier: u64,
    daily_drip_percentage: u64,
    now: u64,
) -> (r: bool)
    ensures
        r == reward_computable(
            lock_time,
            period,
            staked_amount,
            last_update_time,
            multiplier,
            daily_drip_percentage,
            now,
        ),
{
    let span = match period.checked_mul(DAY) {
        Some(v) => v,
        None => {
            return false;
        },
    };
    let end = match lock_time.checked_add(span) {
        Some(v) => v,
        None => {
            return false;
        },
    };
    let scaled = match staked_amount.checked_mul(multiplier) {
        Some(v) => v,
        None => {
            return false;
        },
    };
    let weight = scaled / MULTIPLIER_BASIS;
    let drip = match weight.checked_mul(daily_drip_percentage) {
        Some(v) => v,
        None => {
            return false;
        },
    };
    let rate = drip / 100 / DAY;
    let until = if now <= end {
        now
    } else {
        end
    };
    let seconds = if until >= last_update_time {
        until - last_update_time
    } else {
        0
    };
    rate.checked_mul(seconds).is_some()
}

/// Reads the cluster clock: the `unix_timestamp` of `Clock::get()`, or `None`
/// where the clock sysvar cannot be read. The value depends on the time of the
/// call, so nothing is stated of it.
#[verifier::external_body]
fn clock_unix_timestamp() -> (r: Option<i64>) {
    solana_program::clock::Clock::get().ok().map(|clock| clock.unix_timestamp)
}

/// The current Unix time in seconds, as the program reads it (the signed
/// timestamp of the clock, taken as a `u64`), or `None` where the clock
/// cannot be read.
pub fn current_timestamp() -> (r: Option<u64>) {
    match clock_unix_timestamp() {
        Some(t) => Some(t as u64),
        None => None,
    }
}

/// The reward accrued by an item at the current time of the clock, or `None`
/// where the clock cannot be read. The result is the reward of
/// `calculate_user_reward_at` at some time, the time at which the clock was read.
pub fn calculate_user_reward(
    lock_time: u64,
    period: u64,
    staked_amount: u64,
    last_update_time: u64,
    multiplier: u64,
    daily_drip_percentage: u64,
) -> (reward: Option<u64>)
    requires
        reward_computable_at_any_time(
            lock_time,
            period,
            staked_amount,
            last_update_time,
            multiplier,
            daily_drip_percentage,
        ),
    ensures
        reward matches Some(v) ==> exists|t: u64|
            v == accrued_reward(
                lock_time,
                period,
                staked_amount,
                last_update_time,
                multiplier,
                daily_drip_percentage,
                t,
            ),
{
    match current_timestamp() {
        Some(now) => {
            proof {
                lemma_computable_at(
                    lock_time,
                    period,
                    staked_amount,
                    last_update_time,
                    multiplier,
                    daily_drip_percentage,
                    now,
                );
            }
            Some(
                calculate_user_reward_at(
                    lock_time,
                    period,
                    staked_amount,
                    last_update_time,
                    multiplier,
                    daily_drip_percentage,
                    now,
                ),
            )
        },
        None => None,
    }
}

/// Looks an item up by id: the first item in use with that id and its slot,
/// or an empty item and slot 0 when no item in use has that id.
pub fn select_item(staking_pool: &UserStakingPool, item_id: u64) -> (r: (StakedNFT, usize))
    requires
        staking_pool@.lookup_in_bounds(item_id),
    ensures
        r.0 == staking_pool@.selected_item(item_id),
        r.1 == staking_pool@.selected_index(item_id),
        r.1 < crate::constants::NFT_NUMBER,
{
    match staking_pool.find_slot(item_id) {
        Some(k) => {
            proof {
                staking_pool@.lemma_selected_is_first(item_id);
                staking_pool@.lemma_first_match_unique(
                    item_id,
                    k as int,
                    staking_pool@.selected_index(item_id),
                );
            }
            (staking_pool.items[k], k)
        },
        None => (StakedNFT::default(), 0),
    }
}

} // verus!
