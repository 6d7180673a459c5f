//! The transfer hook: one evaluation of the policy for one transfer.

use vstd::prelude::*;
use crate::error::ErrorCode;
use crate::identity::Identity;
use crate::policy::{decide, spec_decide, PolicyState, Verdict};
use crate::state::{AllowedProgram, Exempt, Policy, PoolVault, Unlock};
use crate::utils::{prev_program_id, spec_prev_program_id, InstructionsAccount};

verus! {

/// What one evaluation reads: the two endpoints of the transfer, the
/// records of the asset, the exemption records of the endpoints, and the
/// account that holds the instructions of the running transaction.
#[derive(Debug, PartialEq, Eq)]
pub struct Evaluate {
    /// The token account that the transfer debits.
    pub from_token_account: Identity,
    /// The token account that the transfer credits.
    pub to_token_account: Identity,
    pub policy: Policy,
    pub unlock: Unlock,
    pub exempt_from: Exempt,
    pub exempt_to: Exempt,
    pub allowed_program: AllowedProgram,
    pub pool_vault: PoolVault,
    pub ix_sysvar: InstructionsAccount,
}

impl Evaluate {
    /// The records as the decision engine takes them.
    pub open spec fn spec_state(&self) -> PolicyState {
        PolicyState {
            policy: self.policy,
            unlock: self.unlock,
            exempt_from: self.exempt_from,
            exempt_to: self.exempt_to,
            allowed_program: self.allowed_program,
            pool_vault: self.pool_vault,
        }
    }

    /// The records as the decision engine takes them.
    #[verifier::when_used_as_spec(spec_state)]
    pub fn state(&self) -> (state: PolicyState)
        ensures
            state == self.spec_state(),
    {
        PolicyState {
            policy: self.policy,
            unlock: self.unlock,
            exempt_from: self.exempt_from,
            exempt_to: self.exempt_to,
            allowed_program: self.allowed_program,
            pool_vault: self.pool_vault,
        }
    }

    /// The verdict on the transfer at time `now`: that of the decision
    /// engine, with the caller that the instructions account gives.
    pub open spec fn verdict_at(&self, now: i64) -> Verdict {
        spec_decide(
            self.spec_state(),
            spec_prev_program_id(self.ix_sysvar.key@, self.ix_sysvar.data@),
            self.from_token_account,
            self.to_token_account,
            now,
        )
    }
}

/// Evaluates the policy for one transfer at time `now`. The transfer
/// proceeds on `Ok`; on `Err` it is turned down for the reason given.
///
/// The amount is part of the hook's interface and plays no part in the
/// verdict.
pub fn handler(ctx: &Evaluate, _amount: u64, now: i64) -> (outcome: Result<(), ErrorCode>)
    ensures
        outcome == ctx.verdict_at(now).into_result(),
{
    let state = ctx.state();
    let caller = prev_program_id(&ctx.ix_sysvar);
    decide(&state, caller, &ctx.from_token_account, &ctx.to_token_account, now).into_result()
}

} // verus!
