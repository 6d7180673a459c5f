//! The persisted records that govern one asset.
//!
//! Every record carries the `bump` of the address it is stored at next to
//! the one field that the policy reads. Evaluation never writes to a record;
//! the administrative instructions overwrite one field at a time.

use vstd::prelude::*;
use crate::identity::Identity;

verus! {

/// Marks the administrator of the program.
#[derive(Clone, Copy, Debug, PartialEq, Eq)]
pub struct Admin {
    pub bump: u8,
}

/// The global pause switch.
#[derive(Clone, Copy, Debug, PartialEq, Eq)]
pub struct Policy {
    pub bump: u8,
    pub paused: bool,
}

/// The moment from which trading is unrestricted.
#[derive(Clone, Copy, Debug, PartialEq, Eq)]
pub struct Unlock {
    pub bump: u8,
    /// Seconds since the Unix epoch; transfers are locked while the clock is
    /// strictly before it.
    pub unlock_ts: i64,
}

/// The roles granted to one token account.
#[derive(Clone, Copy, Debug, PartialEq, Eq)]
pub struct Exempt {
    pub bump: u8,
    /// Bitmask of roles. Which bit stands for which role is of no concern
    /// here: an account is exempt as soon as any bit is set.
    pub roles: u8,
}

impl Exempt {
    /// Whether the account is exempt: its role mask is not zero.
    pub open spec fn spec_any(&self) -> bool {
        self.roles != 0
    }

    /// Whether the account is exempt: its role mask is not zero.
    #[verifier::when_used_as_spec(spec_any)]
    pub fn any(&self) -> (exempt: bool)
        ensures
            exempt == (self.roles != 0),
    {
        self.roles != 0
    }
}

/// The one program through which purchases from the pool may be routed
/// while the lock holds.
#[derive(Clone, Copy, Debug, PartialEq, Eq)]
pub struct AllowedProgram {
    pub bump: u8,
    pub program_id: Identity,
}

/// The token account in which the liquidity pool holds the asset.
#[derive(Clone, Copy, Debug, PartialEq, Eq)]
pub struct PoolVault {
    pub bump: u8,
    pub token_account: Identity,
}

} // verus!
