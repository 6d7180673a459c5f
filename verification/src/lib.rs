//! Decides, for every transfer of a fungible asset whose trading is locked
//! until a set time, whether the transfer may proceed.
//!
//! Before the unlock time a transfer into the liquidity pool's vault (a sale)
//! is rejected, a transfer out of it (a purchase) passes only when the
//! allowed program drives it, and a transfer between other accounts passes
//! only when no program drives it. Exempt accounts bypass the lock, a pause
//! stops every source that is not exempt, and from the unlock time on every
//! transfer passes.
//!
//! [`policy`] holds the decision engine and [`laws`] what is proved of every
//! verdict. [`utils`] finds the program that drives a transfer. [`ix`] holds
//! the instructions; the functions below are the program's entry points.

use vstd::prelude::*;
use vstd::slice::slice_subrange;
use crate::error::ErrorCode;
use crate::identity::Identity;
use crate::ix::evaluate::Evaluate;
use crate::ix::init_admin::{InitAdmin, InitAdminBumps};
use crate::ix::init_mint_scope::{InitMintScope, InitMintScopeBumps};
use crate::ix::set_allowed_program::SetAllowedProgram;
use crate::ix::set_exempt::SetExempt;
use crate::ix::set_policy::SetPolicy;
use crate::ix::set_pool_vault::SetPoolVault;
use crate::ix::set_unlock::SetUnlock;

pub mod error;
pub mod identity;
pub mod ix;
pub mod laws;
pub mod policy;
pub mod state;
pub mod utils;

verus! {

/// The tag that the token program puts in front of the arguments when it
/// calls the hook: the first eight bytes of the SHA-256 digest of
/// `spl-transfer-hook-interface:execute`.
pub const EXECUTE_IX_TAG_LE: [u8; 8] = [105, 37, 101, 197, 75, 251, 102, 26];

/// The transfer hook: evaluates the policy for one transfer at time `now`.
pub fn transfer_hook(ctx: &Evaluate, amount: u64, now: i64) -> (outcome: Result<(), ErrorCode>)
    ensures
        outcome == ctx.verdict_at(now).into_result(),
{
    ix::evaluate::handler(ctx, amount, now)
}

/// Records the bump of the administrator's record.
pub fn init_admin(ctx: &mut InitAdmin, bumps: &InitAdminBumps) -> (done: Result<(), ErrorCode>)
    ensures
        done is Ok,
        final(ctx).admin_pda.bump == bumps.admin_pda,
{
    ctx.admin_pda.bump = bumps.admin_pda;
    Ok(())
}

/// Records the bump of each record of an asset and leaves what the records
/// hold as it is.
pub fn init_mint_scope(ctx: &mut InitMintScope, bumps: &InitMintScopeBumps) -> (done: Result<
    (),
    ErrorCode,
>)
    ensures
        done is Ok,
        final(ctx).policy.bump == bumps.policy,
        final(ctx).unlock.bump == bumps.unlock,
        final(ctx).allowed_program.bump == bumps.allowed_program,
        final(ctx).pool_vault.bump == bumps.pool_vault,
        final(ctx).policy.paused == old(ctx).policy.paused,
        final(ctx).unlock.unlock_ts == old(ctx).unlock.unlock_ts,
        final(ctx).allowed_program.program_id == old(ctx).allowed_program.program_id,
        final(ctx).pool_vault.token_account == old(ctx).pool_vault.token_account,
{
    ctx.policy.bump = bumps.policy;
    ctx.unlock.bump = bumps.unlock;
    ctx.allowed_program.bump = bumps.allowed_program;
    ctx.pool_vault.bump = bumps.pool_vault;
    Ok(())
}

/// Pauses or resumes transfers.
pub fn set_policy(ctx: &mut SetPolicy, paused: bool) -> (done: Result<(), ErrorCode>)
    ensures
        done is Ok,
        final(ctx).policy.paused == paused,
        final(ctx).policy.bump == old(ctx).policy.bump,
{
    ix::set_policy::handler(ctx, paused)
}

/// Sets the unlock time.
pub fn set_unlock(ctx: &mut SetUnlock, unlock_ts: i64) -> (done: Result<(), ErrorCode>)
    ensures
        done is Ok,
        final(ctx).unlock.unlock_ts == unlock_ts,
        final(ctx).unlock.bump == old(ctx).unlock.bump,
{
    ix::set_unlock::handler(ctx, unlock_ts)
}

/// Sets the role mask of one token account.
pub fn set_exempt(ctx: &mut SetExempt, roles: u8) -> (done: Result<(), ErrorCode>)
    ensures
        done is Ok,
        final(ctx).exempt.roles == roles,
        final(ctx).exempt.bump == old(ctx).exempt.bump,
        final(ctx).exempt.any() == (roles != 0),
{
    ix::set_exempt::handler(ctx, roles)
}

/// Names the program through which purchases may be routed.
pub fn set_allowed_program(ctx: &mut SetAllowedProgram, program_id: Identity) -> (done: Result<
    (),
    ErrorCode,
>)
    ensures
        done is Ok,
        final(ctx).allowed_program.program_id == program_id,
        final(ctx).allowed_program.bump == old(ctx).allowed_program.bump,
{
    ix::set_allowed_program::handler(ctx, program_id)
}

/// Names the token account of the liquidity pool.
pub fn set_pool_vault(ctx: &mut SetPoolVault, token_account: Identity) -> (done: Result<
    (),
    ErrorCode,
>)
    ensures
        done is Ok,
        final(ctx).pool_vault.token_account == token_account,
        final(ctx).pool_vault.bump == old(ctx).pool_vault.bump,
{
    ix::set_pool_vault::handler(ctx, token_account)
}

/// Where instruction data that no instruction of the program claims is
/// routed: to the transfer hook, with the bytes that follow the tag as its
/// arguments, when the data starts with the execute tag; nowhere otherwise.
pub open spec fn spec_fallback(ix_data: Seq<u8>) -> Option<Seq<u8>> {
    if ix_data.subrange(0, 8) == EXECUTE_IX_TAG_LE@ {
        Some(ix_data.subrange(8, ix_data.len() as int))
    } else {
        None
    }
}

/// Routes instruction data that no instruction of the program claims.
///
/// Returns the arguments for the transfer hook when the data starts with
/// the execute tag, and `None` for data that is not addressed to the hook.
/// The data must hold the eight bytes of a tag.
pub fn fallback(ix_data: &[u8]) -> (routed: Option<&[u8]>)
    requires
        ix_data@.len() >= 8,
    ensures
        match routed {
            Some(arguments) => spec_fallback(ix_data@) == Some(arguments@),
            None => spec_fallback(ix_data@) is None,
        },
{
    let mut i: usize = 0;
    while i < 8
        invariant
            i <= 8,
            ix_data@.len() >= 8,
            forall|j: int| 0 <= j < i ==> ix_data@[j] == EXECUTE_IX_TAG_LE@[j],
        decreases 8 - i,
    {
        if ix_data[i] != EXECUTE_IX_TAG_LE[i] {
            assert(ix_data@.subrange(0, 8)[i as int] != EXECUTE_IX_TAG_LE@[i as int]);
            return None;
        }
        i += 1;
    }
    assert(ix_data@.subrange(0, 8) =~= EXECUTE_IX_TAG_LE@);
    Some(slice_subrange(ix_data, 8, ix_data.len()))
}

} // verus!
