use mind_transfer_hook::identity::Identity;
use mind_transfer_hook::utils::{
    predecessor_index, prev_program_id, resolve, InstructionsAccount, INSTRUCTIONS_SYSVAR_ID,
};
use solana_program::pubkey::Pubkey;
use solana_program::sysvar::instructions::{
    construct_instructions_data, BorrowedAccountMeta, BorrowedInstruction,
};

fn id(byte: u8) -> Identity {
    Identity::new([byte; 32])
}

/// The data of the instructions account for a transaction whose
/// instructions were issued by `programs`, while the one at `current` runs.
/// Each instruction carries one account and a few bytes of data.
fn account_data(programs: &[[u8; 32]], current: u16) -> Vec<u8> {
    let keys: Vec<Pubkey> = programs.iter().map(|p| Pubkey::new_from_array(*p)).collect();
    let payer = Pubkey::new_from_array([0xEE; 32]);
    let payload = [1u8, 2, 3];
    let instructions: Vec<BorrowedInstruction> = keys
        .iter()
        .map(|key| BorrowedInstruction {
            program_id: key,
            accounts: vec![BorrowedAccountMeta {
                pubkey: &payer,
                is_signer: true,
                is_writable: false,
            }],
            data: &payload,
        })
        .collect();
    let mut data = construct_instructions_data(&instructions);
    let len = data.len();
    data[len - 2..].copy_from_slice(&current.to_le_bytes());
    data
}

fn account(programs: &[[u8; 32]], current: u16) -> InstructionsAccount {
    InstructionsAccount {
        key: Identity::new(INSTRUCTIONS_SYSVAR_ID),
        data: account_data(programs, current),
    }
}

#[test]
fn sysvar_address_is_the_hosts() {
    assert_eq!(
        INSTRUCTIONS_SYSVAR_ID,
        solana_program::sysvar::instructions::ID.to_bytes()
    );
}

#[test]
fn first_instruction_has_no_caller() {
    let ix = account(&[[1; 32], [2; 32]], 0);
    assert_eq!(prev_program_id(&ix), None);
}

#[test]
fn caller_is_program_of_previous_instruction() {
    let programs = [[1u8; 32], [2; 32], [3; 32]];
    assert_eq!(prev_program_id(&account(&programs, 1)), Some(id(1)));
    assert_eq!(prev_program_id(&account(&programs, 2)), Some(id(2)));
}

#[test]
fn caller_is_not_the_running_program() {
    let programs = [[7u8; 32], [9; 32]];
    let caller = prev_program_id(&account(&programs, 1));
    assert_eq!(caller, Some(id(7)));
    assert_ne!(caller, Some(id(9)));
}

#[test]
fn caller_keeps_all_bytes_of_the_program() {
    let mut program = [0u8; 32];
    for (i, byte) in program.iter_mut().enumerate() {
        *byte = (i as u8) * 7 + 1;
    }
    let ix = account(&[program, [2; 32]], 1);
    assert_eq!(prev_program_id(&ix), Some(Identity::new(program)));
}

#[test]
fn predecessor_beyond_the_log_gives_no_caller() {
    let programs = [[1u8; 32], [2; 32]];
    assert_eq!(prev_program_id(&account(&programs, 2)), Some(id(2)));
    assert_eq!(prev_program_id(&account(&programs, 3)), None);
    assert_eq!(prev_program_id(&account(&programs, u16::MAX)), None);
}

#[test]
fn index_is_read_lower_byte_first() {
    let programs: Vec<[u8; 32]> = (0..300u16).map(|i| [(i % 251) as u8 + 1; 32]).collect();
    let ix = account(&programs, 0x0102);
    assert_eq!(ix.data[ix.data.len() - 2], 0x02);
    assert_eq!(ix.data[ix.data.len() - 1], 0x01);
    assert_eq!(prev_program_id(&ix), Some(Identity::new(programs[0x0101])));
}

#[test]
fn other_account_gives_no_caller() {
    let mut ix = account(&[[1; 32], [2; 32]], 1);
    assert_eq!(prev_program_id(&ix), Some(id(1)));
    ix.key = id(0);
    assert_eq!(prev_program_id(&ix), None);
    let mut almost = INSTRUCTIONS_SYSVAR_ID;
    almost[31] = 1;
    ix.key = Identity::new(almost);
    assert_eq!(prev_program_id(&ix), None);
}

#[test]
fn short_data_gives_no_caller() {
    for data in [vec![], vec![1u8]] {
        let ix = InstructionsAccount { key: Identity::new(INSTRUCTIONS_SYSVAR_ID), data };
        assert_eq!(prev_program_id(&ix), None);
    }
}

#[test]
fn index_alone_gives_no_caller() {
    let zero = InstructionsAccount {
        key: Identity::new(INSTRUCTIONS_SYSVAR_ID),
        data: vec![0, 0],
    };
    assert_eq!(prev_program_id(&zero), None);
    let one = InstructionsAccount {
        key: Identity::new(INSTRUCTIONS_SYSVAR_ID),
        data: vec![1, 0],
    };
    assert_eq!(prev_program_id(&one), None);
}

#[test]
fn truncated_instruction_gives_no_caller() {
    let full = account_data(&[[1; 32], [2; 32]], 1);
    let mut data = full[..40].to_vec();
    data.extend_from_slice(&1u16.to_le_bytes());
    let ix = InstructionsAccount { key: Identity::new(INSTRUCTIONS_SYSVAR_ID), data };
    assert_eq!(prev_program_id(&ix), None);
}

#[test]
fn resolve_first_instruction_has_no_caller() {
    assert_eq!(resolve(&[id(1), id(2)], 0), None);
    assert_eq!(resolve(&[], 0), None);
}

#[test]
fn resolve_gives_predecessor() {
    let log = [id(1), id(2), id(3)];
    assert_eq!(resolve(&log, 1), Some(id(1)));
    assert_eq!(resolve(&log, 2), Some(id(2)));
    assert_eq!(resolve(&log, 3), Some(id(3)));
}

#[test]
fn resolve_beyond_log_has_no_caller() {
    let log = [id(1), id(2), id(3)];
    assert_eq!(resolve(&log, 4), None);
    assert_eq!(resolve(&log, u16::MAX), None);
    assert_eq!(resolve(&[], 1), None);
}

#[test]
fn account_agrees_with_log() {
    let programs = [[1u8; 32], [2; 32], [3; 32], [4; 32]];
    let log: Vec<Identity> = programs.iter().map(|p| Identity::new(*p)).collect();
    for current in 0..8u16 {
        assert_eq!(
            prev_program_id(&account(&programs, current)),
            resolve(&log, current)
        );
    }
}

#[test]
fn predecessor_indices() {
    assert_eq!(predecessor_index(0), None);
    assert_eq!(predecessor_index(1), Some(0));
    assert_eq!(predecessor_index(2), Some(1));
    assert_eq!(predecessor_index(u16::MAX), Some(65534));
}
