use vstd::prelude::*;

use crate::account::{Address, GlobalPool};
use crate::constants::{DAY, SOLANA_LAMPORTS};
use crate::error::ThogError;

verus! {

/// What the re-initialization of the reward pool reads: the signing admin and
/// the global state.
pub struct ReInitialize {
    pub admin: Address,
    pub global_authority: GlobalPool,
}

impl ReInitialize {
    /// The reward pool in lamports, and its daily drip, fit in a `u64`.
    pub open spec fn funding_fits(total_reward_pool: u64, daily_drip_percentage: u64) -> bool {
        &&& total_reward_pool * SOLANA_LAMPORTS <= u64::MAX
        &&& total_reward_pool * SOLANA_LAMPORTS * daily_drip_percentage <= u64::MAX
    }

    /// The global state configured for a reward pool of `total_reward_pool` SOL
    /// that drips `daily_drip_percentage` percent of itself each day.
    pub open spec fn configured(
        global: GlobalPool,
        total_reward_pool: u64,
        daily_drip_percentage: u64,
    ) -> GlobalPool {
        let lamports = total_reward_pool * SOLANA_LAMPORTS;
        let drip = (lamports * daily_drip_percentage) / 100;
        GlobalPool {
            total_reward_pool: lamports as u64,
            daily_drip_percentage,
            daily_drip_amount: drip as u64,
            reward_per_second: (drip / (DAY as int)) as u64,
            ..global
        }
    }

    /// Whether the reward pool in lamports and its daily drip fit in a `u64`.
    pub fn can_fund(total_reward_pool: u64, daily_drip_percentage: u64) -> (r: bool)
        ensures
            r == Self::funding_fits(total_reward_pool, daily_drip_percentage),
    {
        match total_reward_pool.checked_mul(SOLANA_LAMPORTS) {
            Some(lamports) => lamports.checked_mul(daily_drip_percentage).is_some(),
            None => false,
        }
    }

    /// Sets the reward pool and its drip; only the super admin may.
    pub fn process_instruction(
        ctx: &mut ReInitialize,
        total_reward_pool: u64,
        daily_drip_percentage: u64,
    ) -> (r: Result<(), ThogError>)
        requires
            old(ctx).admin == old(ctx).global_authority.super_admin ==> Self::funding_fits(
                total_reward_pool,
                daily_drip_percentage,
            ),
        ensures
            final(ctx).admin == old(ctx).admin,
            old(ctx).admin != old(ctx).global_authority.super_admin ==> {
                &&& r == Err::<(), ThogError>(ThogError::Unautherized)
                &&& final(ctx).global_authority == old(ctx).global_authority
            },
            old(ctx).admin == old(ctx).global_authority.super_admin ==> {
                &&& r == Ok::<(), ThogError>(())
                &&& final(ctx).global_authority == Self::configured(
                    old(ctx).global_authority,
                    total_reward_pool,
                    daily_drip_percentage,
                )
            },
    {
        if !ctx.admin.same_as(&ctx.global_authority.super_admin) {
            return Err(ThogError::Unautherized);
        }
        ctx.global_authority.total_reward_pool = total_reward_pool * SOLANA_LAMPORTS;
        ctx.global_authority.daily_drip_percentage = daily_drip_percentage;
        ctx.global_authority.daily_drip_amount = (total_reward_pool * SOLANA_LAMPORTS
            * daily_drip_percentage) / 100;
        ctx.global_authority.reward_per_second = ctx.global_authority.daily_drip_amount / DAY;
        Ok(())
    }
}

} // verus!
