//! Pausing and resuming transfers.

use vstd::prelude::*;
use crate::error::ErrorCode;
use crate::state::Policy;

verus! {

/// The account that the instruction works on.
#[derive(Clone, Copy, Debug, PartialEq, Eq)]
pub struct SetPolicy {
    pub policy: Policy,
}

/// Overwrites the pause switch and nothing else.
pub fn handler(ctx: &mut SetPolicy, paused: bool) -> (done: Result<(), ErrorCode>)
    ensures
        done is Ok,
        final(ctx).policy.paused == paused,
        final(ctx).policy.bump == old(ctx).policy.bump,
{
    ctx.policy.paused = paused;
    Ok(())
}

} // verus!
