use vstd::prelude::*;

use crate::account::{Address, GlobalPool};
use crate::error::ThogError;

verus! {

/// What the withdrawal of the vault's tokens reads: the signing admin, the
/// global state and the token balance of the vault's token account.
pub struct WithdrawSPL {
    pub admin: Address,
    pub global_authority: GlobalPool,
    pub vault_token_amount: u64,
}

impl WithdrawSPL {
    /// The tokens to send from the vault's token account to the admin's: the
    /// whole balance, for the super admin only.
    pub fn process_withdraw_spl(ctx: &WithdrawSPL) -> (r: Result<u64, ThogError>)
        ensures
            ctx.admin != ctx.global_authority.super_admin ==> r == Err::<u64, ThogError>(
                ThogError::Unautherized,
            ),
            ctx.admin == ctx.global_authority.super_admin ==> r == Ok::<u64, ThogError>(
                ctx.vault_token_amount,
            ),
    {
        if !ctx.admin.same_as(&ctx.global_authority.super_admin) {
            return Err(ThogError::Unautherized);
        }
        Ok(ctx.vault_token_amount)
    }
}

} // verus!
