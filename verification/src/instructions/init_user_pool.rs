use vstd::prelude::*;

use crate::account::{Address, PoolState, UserStakingPool};
use crate::error::ThogError;

verus! {

/// What the initialization of a user's pool reads: the signing owner and the
/// freshly created pool.
pub struct InitializeUserPool {
    pub owner: Address,
    pub staking_pool: UserStakingPool,
}

impl InitializeUserPool {
    /// Makes the signer the owner of the pool.
    pub fn process_instruction(ctx: &mut InitializeUserPool) -> (r: Result<(), ThogError>)
        ensures
            r == Ok::<(), ThogError>(()),
            final(ctx).owner == old(ctx).owner,
            final(ctx).staking_pool@ == (PoolState {
                owner: old(ctx).owner,
                ..old(ctx).staking_pool@
            }),
    {
        ctx.staking_pool.owner = ctx.owner;
        Ok(())
    }
}

} // verus!
