//! Why a transfer is turned down.

use vstd::prelude::*;

verus! {

/// The reasons for which a transfer is rejected. There are no others: every
/// rejection is a decision of the policy, never a fault of the evaluation.
#[derive(Clone, Copy, Debug, PartialEq, Eq, Structural)]
pub enum ErrorCode {
    /// Transfers are suspended and the source account is not exempt.
    Paused,
    /// A transfer into the pool vault was attempted before the unlock time.
    SellsDisabled,
    /// During the lock the transfer was driven by a program that is not
    /// admitted on its route.
    ProgramNotAllowed,
}

impl ErrorCode {
    /// The text shown for each reason.
    pub open spec fn spec_message(&self) -> Seq<char> {
        match self {
            ErrorCode::Paused => "Transfers paused"@,
            ErrorCode::SellsDisabled => "Sells disabled until unlock"@,
            ErrorCode::ProgramNotAllowed => "Program not allowed during lock"@,
        }
    }

    /// The text shown for this reason.
    pub fn message(&self) -> (text: &'static str)
        ensures
            text@ == self.spec_message(),
    {
        match self {
            ErrorCode::Paused => "Transfers paused",
            ErrorCode::SellsDisabled => "Sells disabled until unlock",
            ErrorCode::ProgramNotAllowed => "Program not allowed during lock",
        }
    }
}

} // verus!
