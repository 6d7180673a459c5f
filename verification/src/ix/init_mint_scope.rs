//! Setting up the records of one asset.

use vstd::prelude::*;
use crate::error::ErrorCode;
use crate::state::{AllowedProgram, Policy, PoolVault, Unlock};

verus! {

/// The accounts that the instruction works on.
#[derive(Clone, Copy, Debug, PartialEq, Eq)]
pub struct InitMintScope {
    pub policy: Policy,
    pub unlock: Unlock,
    pub allowed_program: AllowedProgram,
    pub pool_vault: PoolVault,
}

/// The bumps of the addresses at which the records are stored.
#[derive(Clone, Copy, Debug, PartialEq, Eq)]
pub struct InitMintScopeBumps {
    pub policy: u8,
    pub unlock: u8,
    pub allowed_program: u8,
    pub pool_vault: u8,
}

/// Accepts the freshly allocated records as they are.
pub fn handler(_ctx: &InitMintScope) -> (done: Result<(), ErrorCode>)
    ensures
        done is Ok,
{
    Ok(())
}

} // verus!
