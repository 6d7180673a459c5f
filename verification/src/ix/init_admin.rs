//! Setting up the administrator's record.

use vstd::prelude::*;
use crate::error::ErrorCode;
use crate::state::Admin;

verus! {

/// The account that the instruction works on.
#[derive(Clone, Copy, Debug, PartialEq, Eq)]
pub struct InitAdmin {
    pub admin_pda: Admin,
}

/// The bump of the address at which the record is stored.
#[derive(Clone, Copy, Debug, PartialEq, Eq)]
pub struct InitAdminBumps {
    pub admin_pda: u8,
}

/// Accepts the freshly allocated record as it is.
pub fn handler(_ctx: &InitAdmin) -> (done: Result<(), ErrorCode>)
    ensures
        done is Ok,
{
    Ok(())
}

} // verus!
