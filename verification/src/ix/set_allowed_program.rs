//! Naming the program through which purchases may be routed.

use vstd::prelude::*;
use crate::error::ErrorCode;
use crate::identity::Identity;
use crate::state::AllowedProgram;

verus! {

/// The account that the instruction works on.
#[derive(Clone, Copy, Debug, PartialEq, Eq)]
pub struct SetAllowedProgram {
    pub allowed_program: AllowedProgram,
}

/// Overwrites the allowed program and nothing else.
pub fn handler(ctx: &mut SetAllowedProgram, program_id: Identity) -> (done: Result<
    (),
    ErrorCode,
>)
    ensures
        done is Ok,
        final(ctx).allowed_program.program_id == program_id,
        final(ctx).allowed_program.bump == old(ctx).allowed_program.bump,
{
    ctx.allowed_program.program_id = program_id;
    Ok(())
}

} // verus!
