//! Naming the token account of the liquidity pool.

use vstd::prelude::*;
use crate::error::ErrorCode;
use crate::identity::Identity;
use crate::state::PoolVault;

verus! {

/// The account that the instruction works on.
#[derive(Clone, Copy, Debug, PartialEq, Eq)]
pub struct SetPoolVault {
    pub pool_vault: PoolVault,
}

/// Overwrites the pool vault's token account and nothing else.
pub fn handler(ctx: &mut SetPoolVault, token_account: Identity) -> (done: Result<(), ErrorCode>)
    ensures
        done is Ok,
        final(ctx).pool_vault.token_account == token_account,
        final(ctx).pool_vault.bump == old(ctx).pool_vault.bump,
{
    ctx.pool_vault.token_account = token_account;
    Ok(())
}

} // verus!
