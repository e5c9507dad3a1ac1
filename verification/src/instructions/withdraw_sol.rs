use vstd::prelude::*;

use crate::account::{Address, GlobalPool};
use crate::error::ThogError;

verus! {

/// What the withdrawal of the reward vault's SOL reads: the signing admin,
/// the global state and the vault's balance in lamports.
pub struct WithdrawSOL {
    pub admin: Address,
    pub global_authority: GlobalPool,
    pub reward_vault_lamports: u64,
}

impl WithdrawSOL {
    /// The lamports to send from the reward vault to the admin: the whole
    /// balance, for the super admin only.
    pub fn process_withdraw_sol(ctx: &WithdrawSOL) -> (r: Result<u64, ThogError>)
        ensures
            ctx.admin != ctx.global_authority.super_admin ==> r == Err::<u64, ThogError>(
                ThogError::Unautherized,
            ),
            ctx.admin == ctx.global_authority.super_admin ==> r == Ok::<u64, ThogError>(
                ctx.reward_vault_lamports,
            ),
    {
        if !ctx.admin.same_as(&ctx.global_authority.super_admin) {
            return Err(ThogError::Unautherized);
        }
        Ok(ctx.reward_vault_lamports)
    }
}

} // verus!
