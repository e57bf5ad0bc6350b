use premarket_escrow::escrow_vault::error::VaultError;
use premarket_escrow::escrow_vault::state::VaultConfig;
use premarket_escrow::escrow_vault::utils::{
    admit_caller, get_cpi_caller_program_id, is_infrastructure_program, InstructionsSysvar,
};
use premarket_escrow::program_ids::{
    compute_budget_program_id, instructions_sysvar_id, system_program_id, sysvar_program_id,
    token_program_id,
};
use premarket_escrow::pubkey::Pubkey;
#[allow(deprecated)]
use solana_program::sysvar::instructions::{
    construct_instructions_data, store_current_index, BorrowedInstruction,
};

fn key(tag: u8) -> Pubkey {
    Pubkey::new_from_array([tag; 32])
}

fn shown(current_index: u16, program_ids: Vec<Option<Pubkey>>) -> InstructionsSysvar {
    InstructionsSysvar { key: instructions_sysvar_id(), current_index, program_ids }
}

/// The content of the instructions account for a transaction whose
/// instructions invoke `programs`, in order, while instruction `current`
/// runs.
#[allow(deprecated)]
fn account_data(programs: &[Pubkey], current: u16) -> Vec<u8> {
    let ids: Vec<solana_program::pubkey::Pubkey> = programs
        .iter()
        .map(|p| solana_program::pubkey::Pubkey::new_from_array(p.to_bytes()))
        .collect();
    let payload = [1u8, 2, 3];
    let instructions: Vec<BorrowedInstruction> = ids
        .iter()
        .map(|id| BorrowedInstruction { program_id: id, accounts: Vec::new(), data: &payload[..] })
        .collect();
    let mut data = construct_instructions_data(&instructions);
    store_current_index(&mut data, current);
    data
}

#[test]
fn the_hosts_addresses_are_the_hosts() {
    assert_eq!(system_program_id().to_bytes(), solana_program::system_program::ID.to_bytes());
    assert_eq!(system_program_id(), Pubkey::default());
    #[allow(deprecated)]
    let sysvar = solana_program::sysvar::ID.to_bytes();
    assert_eq!(sysvar_program_id().to_bytes(), sysvar);
    #[allow(deprecated)]
    let instructions = solana_program::sysvar::instructions::ID.to_bytes();
    assert_eq!(instructions_sysvar_id().to_bytes(), instructions);
    let budget: solana_program::pubkey::Pubkey =
        "ComputeBudget111111111111111111111111111111".parse().unwrap();
    assert_eq!(compute_budget_program_id().to_bytes(), budget.to_bytes());
    assert_eq!(token_program_id().to_bytes(), anchor_spl::token::ID.to_bytes());
}

#[test]
fn the_hosts_programs_are_infrastructure_and_no_others() {
    assert!(is_infrastructure_program(&system_program_id()));
    assert!(is_infrastructure_program(&compute_budget_program_id()));
    assert!(is_infrastructure_program(&sysvar_program_id()));
    assert!(!is_infrastructure_program(&instructions_sysvar_id()));
    assert!(!is_infrastructure_program(&token_program_id()));
    assert!(!is_infrastructure_program(&key(1)));
}

#[test]
fn the_nearest_caller_is_found_walking_back() {
    let budget = compute_budget_program_id();
    let system = system_program_id();
    // the running instruction is the caller's own
    assert_eq!(get_cpi_caller_program_id(&shown(0, vec![Some(key(9)), None])), Ok(key(9)));
    // the instruction after the running one is looked at first
    assert_eq!(get_cpi_caller_program_id(&shown(0, vec![Some(key(9)), Some(key(8))])), Ok(key(8)));
    // infrastructure is passed over, above and below
    assert_eq!(
        get_cpi_caller_program_id(&shown(2, vec![Some(budget), Some(key(7)), Some(system), Some(budget)])),
        Ok(key(7))
    );
    // the nearest one wins over an earlier one
    assert_eq!(
        get_cpi_caller_program_id(&shown(3, vec![Some(key(5)), Some(key(6)), Some(budget), Some(system), None])),
        Ok(key(6))
    );
    // instructions after the one behind the running one are not looked at
    assert_eq!(
        get_cpi_caller_program_id(&shown(0, vec![Some(budget), Some(system), Some(key(4))])),
        Err(VaultError::FailedToLoadInstruction)
    );
    // a place that cannot be read is passed over
    assert_eq!(
        get_cpi_caller_program_id(&shown(2, vec![Some(key(3)), None, None, None])),
        Ok(key(3))
    );
    // a list shorter than the running index
    assert_eq!(get_cpi_caller_program_id(&shown(40, vec![Some(budget), Some(key(2))])), Ok(key(2)));
    assert_eq!(get_cpi_caller_program_id(&shown(u16::MAX, vec![Some(key(2))])), Ok(key(2)));
}

#[test]
fn detection_fails_where_all_is_infrastructure() {
    let budget = compute_budget_program_id();
    let system = system_program_id();
    let sysvar = sysvar_program_id();
    for chain in [
        vec![],
        vec![None, None],
        vec![Some(budget)],
        vec![Some(budget), Some(system), Some(sysvar), None],
    ] {
        assert_eq!(
            get_cpi_caller_program_id(&shown(2, chain)),
            Err(VaultError::FailedToLoadInstruction)
        );
    }
}

#[test]
fn detection_fails_on_another_account() {
    let wrong = InstructionsSysvar { key: key(1), current_index: 0, program_ids: vec![Some(key(9))] };
    assert_eq!(get_cpi_caller_program_id(&wrong), Err(VaultError::FailedToLoadInstruction));
}

#[test]
fn admission_goes_through_account_detection_pause_and_list() {
    let config = |paused: bool| VaultConfig {
        admin: key(1),
        emergency_admin: key(2),
        paused,
        authorized_traders: vec![key(9)],
        bump: 1,
    };
    let good = shown(0, vec![Some(key(9)), None]);
    assert_eq!(admit_caller(&config(false), &good, "x"), Ok(key(9)));
    assert_eq!(admit_caller(&config(true), &good, "x"), Err(VaultError::VaultPaused));
    let other = shown(0, vec![Some(key(8)), None]);
    assert_eq!(admit_caller(&config(false), &other, "x"), Err(VaultError::UnauthorizedTrader));
    let none = shown(0, vec![Some(system_program_id()), None]);
    assert_eq!(admit_caller(&config(true), &none, "x"), Err(VaultError::FailedToLoadInstruction));
    let mut wrong = good.clone();
    wrong.key = key(3);
    assert_eq!(admit_caller(&config(true), &wrong, "x"), Err(VaultError::InvalidInstructionSysvar));
}

#[test]
fn the_instruction_list_is_read_from_the_account() {
    let budget = compute_budget_program_id();
    let programs = [budget, key(7), key(8)];
    let data = account_data(&programs, 1);
    let read = InstructionsSysvar::load(&instructions_sysvar_id(), &data).unwrap();
    assert_eq!(
        read,
        InstructionsSysvar {
            key: instructions_sysvar_id(),
            current_index: 1,
            program_ids: vec![Some(budget), Some(key(7)), Some(key(8))],
        }
    );
    assert_eq!(get_cpi_caller_program_id(&read), Ok(key(8)));
    // the last instruction runs: the place behind it cannot be read
    let last = InstructionsSysvar::load(&instructions_sysvar_id(), &account_data(&programs, 2)).unwrap();
    assert_eq!(last.current_index, 2);
    assert_eq!(last.program_ids, vec![Some(budget), Some(key(7)), Some(key(8)), None]);
    assert_eq!(get_cpi_caller_program_id(&last), Ok(key(8)));
    // the first instruction runs: what comes after the second is not read
    let first = InstructionsSysvar::load(&instructions_sysvar_id(), &account_data(&programs, 0)).unwrap();
    assert_eq!(first.program_ids, vec![Some(budget), Some(key(7))]);
    assert_eq!(get_cpi_caller_program_id(&first), Ok(key(7)));
}

#[test]
fn nothing_is_read_from_another_account_or_from_too_little() {
    let data = account_data(&[key(7)], 0);
    assert_eq!(InstructionsSysvar::load(&key(1), &data), None);
    assert_eq!(InstructionsSysvar::load(&sysvar_program_id(), &data), None);
    assert_eq!(InstructionsSysvar::load(&instructions_sysvar_id(), &vec![]), None);
    assert_eq!(InstructionsSysvar::load(&instructions_sysvar_id(), &vec![0u8]), None);
    // two bytes hold the running index and no instruction
    let bare = InstructionsSysvar::load(&instructions_sysvar_id(), &vec![3u8, 0u8]).unwrap();
    assert_eq!(bare.current_index, 3);
    assert_eq!(bare.program_ids, vec![None; 5]);
    assert_eq!(get_cpi_caller_program_id(&bare), Err(VaultError::FailedToLoadInstruction));
}
