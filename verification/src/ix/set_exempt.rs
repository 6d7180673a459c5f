//! Granting and withdrawing the roles of one token account.

use vstd::prelude::*;
use crate::error::ErrorCode;
use crate::state::Exempt;

verus! {

/// The account that the instruction works on.
#[derive(Clone, Copy, Debug, PartialEq, Eq)]
pub struct SetExempt {
    pub exempt: Exempt,
}

/// Overwrites the role mask and nothing else. The account is exempt
/// afterwards exactly when the new mask is not zero.
pub fn handler(ctx: &mut SetExempt, roles: u8) -> (done: Result<(), ErrorCode>)
    ensures
        done is Ok,
        final(ctx).exempt.roles == roles,
        final(ctx).exempt.bump == old(ctx).exempt.bump,
        final(ctx).exempt.any() == (roles != 0),
{
    ctx.exempt.roles = roles;
    Ok(())
}

} // verus!
