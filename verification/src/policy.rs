//! The decision engine: from the policy records, the endpoints of a
//! transfer, the program that drives it and the time, to a verdict.

use vstd::prelude::*;
use crate::error::ErrorCode;
use crate::identity::Identity;
use crate::state::{AllowedProgram, Exempt, Policy, PoolVault, Unlock};

verus! {

/// What the policy says of one transfer.
#[derive(Clone, Copy, Debug, PartialEq, Eq, Structural)]
pub enum Verdict {
    /// The transfer may proceed.
    Allow,
    /// The transfer, and the transaction around it, is turned down.
    Reject(ErrorCode),
}

impl Verdict {
    /// The verdict as the result of an instruction.
    pub open spec fn spec_into_result(self) -> Result<(), ErrorCode> {
        match self {
            Verdict::Allow => Ok(()),
            Verdict::Reject(reason) => Err(reason),
        }
    }

    /// The verdict as the result of an instruction: success for `Allow`, the
    /// reason as the error otherwise.
    #[verifier::when_used_as_spec(spec_into_result)]
    pub fn into_result(self) -> (outcome: Result<(), ErrorCode>)
        ensures
            outcome == self.spec_into_result(),
    {
        match self {
            Verdict::Allow => Ok(()),
            Verdict::Reject(reason) => Err(reason),
        }
    }
}

/// One consistent snapshot of the records that govern an asset, together
/// with the exemption records of the two endpoints of the transfer at hand.
#[derive(Clone, Copy, Debug, PartialEq, Eq)]
pub struct PolicyState {
    pub policy: Policy,
    pub unlock: Unlock,
    /// Exemption record of the source account.
    pub exempt_from: Exempt,
    /// Exemption record of the destination account.
    pub exempt_to: Exempt,
    pub allowed_program: AllowedProgram,
    pub pool_vault: PoolVault,
}

impl PolicyState {
    /// Whether an exemption applies to the transfer.
    pub open spec fn exempted(&self) -> bool {
        self.exempt_from.any() || self.exempt_to.any()
    }

    /// Whether transfers are suspended for the source account.
    pub open spec fn suspended(&self) -> bool {
        self.policy.paused && !self.exempt_from.any()
    }

    /// Whether the lock still holds at `now`. The unlock time itself is
    /// already open.
    pub open spec fn locked_at(&self, now: i64) -> bool {
        now < self.unlock.unlock_ts
    }
}

/// What pause and exemptions settle on their own, before time and route are
/// looked at: a suspension rejects, otherwise an exemption allows, otherwise
/// nothing is settled.
pub open spec fn spec_screen(state: PolicyState) -> Option<Verdict> {
    if state.suspended() {
        Some(Verdict::Reject(ErrorCode::Paused))
    } else if state.exempted() {
        Some(Verdict::Allow)
    } else {
        None
    }
}

/// The verdict on the route of a transfer while the lock holds.
///
/// A transfer into the pool vault is a sale and is rejected whoever drives
/// it. A transfer out of the pool vault is a purchase and needs the allowed
/// program as its driver. Any other transfer is between peers and must not
/// be driven by a program at all.
pub open spec fn spec_locked_route(
    state: PolicyState,
    caller: Option<Identity>,
    source: Identity,
    destination: Identity,
) -> Verdict {
    if destination == state.pool_vault.token_account {
        Verdict::Reject(ErrorCode::SellsDisabled)
    } else if source == state.pool_vault.token_account {
        if caller == Some(state.allowed_program.program_id) {
            Verdict::Allow
        } else {
            Verdict::Reject(ErrorCode::ProgramNotAllowed)
        }
    } else if caller is None {
        Verdict::Allow
    } else {
        Verdict::Reject(ErrorCode::ProgramNotAllowed)
    }
}

/// The verdict of the policy. The first rule that applies decides:
/// suspension, exemption, the unlock time, and last the route.
pub open spec fn spec_decide(
    state: PolicyState,
    caller: Option<Identity>,
    source: Identity,
    destination: Identity,
    now: i64,
) -> Verdict {
    match spec_screen(state) {
        Some(verdict) => verdict,
        None => if state.locked_at(now) {
            spec_locked_route(state, caller, source, destination)
        } else {
            Verdict::Allow
        },
    }
}

/// Settles what pause and exemptions decide without the clock and without
/// the caller. `None` means that time and route have to be consulted.
pub fn screen(state: &PolicyState) -> (settled: Option<Verdict>)
    ensures
        settled == spec_screen(*state),
{
    let source_exempt = state.exempt_from.any();
    if state.policy.paused && !source_exempt {
        Some(Verdict::Reject(ErrorCode::Paused))
    } else if source_exempt || state.exempt_to.any() {
        Some(Verdict::Allow)
    } else {
        None
    }
}

/// Judges the route of a transfer under the lock.
pub fn locked_route(
    state: &PolicyState,
    caller: Option<Identity>,
    source: &Identity,
    destination: &Identity,
) -> (verdict: Verdict)
    ensures
        verdict == spec_locked_route(*state, caller, *source, *destination),
{
    if *destination == state.pool_vault.token_account {
        return Verdict::Reject(ErrorCode::SellsDisabled);
    }
    let direct = caller.is_none();
    if *source == state.pool_vault.token_account {
        let through_allowed = match caller {
            Some(program) => program == state.allowed_program.program_id,
            None => false,
        };
        if through_allowed {
            Verdict::Allow
        } else {
            Verdict::Reject(ErrorCode::ProgramNotAllowed)
        }
    } else if direct {
        Verdict::Allow
    } else {
        Verdict::Reject(ErrorCode::ProgramNotAllowed)
    }
}

/// Decides whether a transfer from `source` to `destination`, driven by
/// `caller` at time `now`, may proceed.
///
/// `caller` is the program that issued the instruction before the current
/// one, or `None` for a transfer that a wallet submitted directly.
pub fn decide(
    state: &PolicyState,
    caller: Option<Identity>,
    source: &Identity,
    destination: &Identity,
    now: i64,
) -> (verdict: Verdict)
    ensures
        verdict == spec_decide(*state, caller, *source, *destination, now),
{
    match screen(state) {
        Some(verdict) => verdict,
        None => if now < state.unlock.unlock_ts {
            locked_route(state, caller, source, destination)
        } else {
            Verdict::Allow
        },
    }
}

} // verus!
