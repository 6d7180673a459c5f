//! Who drives a transfer: the program that issued the instruction just
//! before the current one in the same transaction.
//!
//! The hook is handed no caller. The host keeps, in one well-known account,
//! the serialized instructions of the running transaction and the index of
//! the instruction that is executing; the caller is read from there.

use vstd::prelude::*;
use crate::identity::Identity;

verus! {

/// The address of the account in which the host keeps the instructions of
/// the running transaction.
pub const INSTRUCTIONS_SYSVAR_ID: [u8; 32] = [
    6, 167, 213, 23, 24, 123, 209, 102, 53, 218, 212, 4, 85, 253, 194, 192,
    193, 36, 198, 143, 33, 86, 117, 165, 219, 186, 203, 95, 8, 0, 0, 0,
];

/// A snapshot of the account that holds the instructions of the running
/// transaction: its address and its data.
#[derive(Debug, PartialEq, Eq)]
pub struct InstructionsAccount {
    pub key: Identity,
    pub data: Vec<u8>,
}

/// The error type of the host's program interface. Nothing is read from it:
/// every failed lookup counts the same.
#[verifier::external_type_specification]
#[verifier::external_body]
pub struct ExProgramError(solana_program::program_error::ProgramError);

/// The number that two bytes spell, the lower byte first.
pub open spec fn u16_le(low: u8, high: u8) -> int {
    low as int + 256 * (high as int)
}

/// The index of the executing instruction as an instructions account with
/// address `key` and contents `data` records it: the last two bytes of the
/// data, lower byte first. An account at another address, or one too short
/// to hold an index, records none.
pub open spec fn spec_current_index(key: Seq<u8>, data: Seq<u8>) -> Option<u16> {
    if key == INSTRUCTIONS_SYSVAR_ID@ && data.len() >= 2 {
        Some(u16_le(data[data.len() - 2], data[data.len() - 1]) as u16)
    } else {
        None
    }
}

/// The program of the instruction that the host's decoder finds at `index`
/// in an instructions account with address `key` and contents `data`; `None`
/// where the decoder reports an error.
pub uninterp spec fn instruction_program_at(index: int, key: Seq<u8>, data: Seq<u8>) -> Option<
    [u8; 32],
>;

/// Calls `solana_program::sysvar::instructions::load_current_index_checked`
/// on an account made of `key` and a copy of `data`.
///
/// Claimed of it: at the address of the instructions account it returns the
/// number spelled by the last two bytes of the data, lower byte first; at
/// any other address it returns an error. It indexes the data two bytes
/// from the end without a check, hence the lower bound on the length.
#[verifier::external_body]
fn load_current_index(key: &Identity, data: &Vec<u8>) -> (loaded: Result<
    u16,
    solana_program::program_error::ProgramError,
>)
    requires
        data@.len() >= 2,
    ensures
        loaded.ok() == spec_current_index(key@, data@),
{
    let address = solana_program::pubkey::Pubkey::new_from_array(key.bytes);
    let mut lamports: u64 = 0;
    let mut contents = data.clone();
    let account = solana_program::account_info::AccountInfo::new(
        &address, false, false, &mut lamports, &mut contents, &address, false, 0,
    );
    solana_program::sysvar::instructions::load_current_index_checked(&account)
}

/// Calls `solana_program::sysvar::instructions::load_instruction_at_checked`
/// on an account made of `key` and a copy of `data`, and keeps the program
/// of the instruction it returns.
///
/// Claimed of it: the outcome is a function of the index, the address and
/// the data alone, named `instruction_program_at`.
#[verifier::external_body]
fn load_program_id_at(index: usize, key: &Identity, data: &Vec<u8>) -> (loaded: Result<
    [u8; 32],
    solana_program::program_error::ProgramError,
>)
    ensures
        loaded.ok() == instruction_program_at(index as int, key@, data@),
{
    let address = solana_program::pubkey::Pubkey::new_from_array(key.bytes);
    let mut lamports: u64 = 0;
    let mut contents = data.clone();
    let account = solana_program::account_info::AccountInfo::new(
        &address, false, false, &mut lamports, &mut contents, &address, false, 0,
    );
    solana_program::sysvar::instructions::load_instruction_at_checked(index, &account).map(
        |instruction| instruction.program_id.to_bytes(),
    )
}

/// The index just before `current_index`; the first instruction has none.
pub open spec fn spec_predecessor_index(current_index: u16) -> Option<usize> {
    if current_index == 0 {
        None
    } else {
        Some((current_index - 1) as usize)
    }
}

/// The index of the instruction just before the one at `current_index`, or
/// `None` for the first instruction of a transaction.
pub fn predecessor_index(current_index: u16) -> (previous: Option<usize>)
    ensures
        previous == spec_predecessor_index(current_index),
{
    if current_index == 0 {
        None
    } else {
        Some((current_index - 1) as usize)
    }
}

/// The caller that an instructions account with address `key` and contents
/// `data` gives: the program of the instruction before the current one.
/// There is none where no index is recorded, where the current instruction
/// is the first, and where the instruction before it cannot be decoded.
pub open spec fn spec_prev_program_id(key: Seq<u8>, data: Seq<u8>) -> Option<Identity> {
    match spec_current_index(key, data) {
        Some(current) => match spec_predecessor_index(current) {
            Some(previous) => match instruction_program_at(previous as int, key, data) {
                Some(bytes) => Some(Identity { bytes }),
                None => None,
            },
            None => None,
        },
        None => None,
    }
}

/// Returns the program that issued the instruction before the current one,
/// as the instructions account records it, if any.
///
/// No lookup failure is an error here: an account that is not the
/// instructions account, data too short to hold an index and an instruction
/// that cannot be decoded all give `None`, as the first instruction of a
/// transaction does.
pub fn prev_program_id(ix_ai: &InstructionsAccount) -> (caller: Option<Identity>)
    ensures
        caller == spec_prev_program_id(ix_ai.key@, ix_ai.data@),
{
    if ix_ai.data.len() < 2 {
        return None;
    }
    match load_current_index(&ix_ai.key, &ix_ai.data) {
        Ok(current) => match predecessor_index(current) {
            Some(previous) => match load_program_id_at(previous, &ix_ai.key, &ix_ai.data) {
                Ok(bytes) => Some(Identity { bytes }),
                Err(_) => None,
            },
            None => None,
        },
        Err(_) => None,
    }
}

/// The caller in a transaction whose instructions were issued, in order, by
/// the programs in `log`, while the instruction at `current_index` runs: the
/// program just before it. The first instruction has no caller, and neither
/// has one whose predecessor lies beyond the log.
pub open spec fn spec_resolve(log: Seq<Identity>, current_index: u16) -> Option<Identity> {
    if 0 < current_index <= log.len() {
        Some(log[current_index - 1])
    } else {
        None
    }
}

/// Resolves the caller from an explicit log of the programs that issued the
/// instructions of the transaction, in order.
///
/// The first instruction has no caller. Any later one has the program of the
/// instruction just before it, provided the log reaches that far; a
/// predecessor that the log does not hold gives no caller either.
pub fn resolve(log: &[Identity], current_index: u16) -> (caller: Option<Identity>)
    ensures
        caller == spec_resolve(log@, current_index),
        current_index == 0 ==> caller is None,
        0 < current_index <= log@.len() ==> caller == Some(log@[current_index - 1]),
        current_index > log@.len() ==> caller is None,
{
    match predecessor_index(current_index) {
        Some(previous) => if previous < log.len() {
            Some(log[previous])
        } else {
            None
        },
        None => None,
    }
}

/// Whether an instructions account with address `key` and contents `data`
/// holds exactly the instructions that the programs in `log` issued, in
/// order: the decoder finds the program `log[i]` at every index `i` of the
/// log and reports an error at every index beyond it.
pub open spec fn account_holds_log(key: Seq<u8>, data: Seq<u8>, log: Seq<Identity>) -> bool {
    forall|i: int|
        0 <= i ==> #[trigger] instruction_program_at(i, key, data) == if i < log.len() {
            Some(log[i].bytes)
        } else {
            None
        }
}

} // verus!
