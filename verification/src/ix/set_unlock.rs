//! Scheduling the unlock.

use vstd::prelude::*;
use crate::error::ErrorCode;
use crate::state::Unlock;

verus! {

/// The account that the instruction works on.
#[derive(Clone, Copy, Debug, PartialEq, Eq)]
pub struct SetUnlock {
    pub unlock: Unlock,
}

/// Overwrites the unlock time and nothing else. Any time is taken, earlier
/// or later than the one it replaces.
pub fn handler(ctx: &mut SetUnlock, ts: i64) -> (done: Result<(), ErrorCode>)
    ensures
        done is Ok,
        final(ctx).unlock.unlock_ts == ts,
        final(ctx).unlock.bump == old(ctx).unlock.bump,
{
    ctx.unlock.unlock_ts = ts;
    Ok(())
}

} // verus!
