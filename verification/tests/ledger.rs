use premarket_escrow::escrow_vault::error::VaultError;
use premarket_escrow::escrow_vault::events::{
    AuthorizedTraderAdded, AuthorizedTraderRemoved, BalanceCredited, BalanceSlashed,
    BalanceTransferred, CollateralDeposited, CollateralWithdrawn, TokensTransferredOut,
    VaultInitialized, VaultPaused, VaultUnpaused,
};
use premarket_escrow::escrow_vault::instructions::{
    credit_balance, deposit, emergency, initialize, manage_trader, slash_balance,
    transfer_balance, transfer_out, withdraw, CreditBalance, DepositCollateral,
    EmergencyControl, InitializeVault, ManageAuthorizedTrader, SlashBalance, TransferBalance,
    TransferOut, WithdrawCollateral,
};
use premarket_escrow::escrow_vault::state::{UserBalance, VaultAuthority, VaultConfig};
use premarket_escrow::escrow_vault::utils::InstructionsSysvar;
use premarket_escrow::program_ids::{instructions_sysvar_id, system_program_id};
use premarket_escrow::pubkey::Pubkey;
use premarket_escrow::token::{TokenAccount, Transfer};

fn key(tag: u8) -> Pubkey {
    Pubkey::new_from_array([tag; 32])
}

const TRADER_PROGRAM: u8 = 90;
const MINT: u8 = 50;
const VAULT_AUTHORITY_KEY: u8 = 60;
const VAULT_ATA: u8 = 61;

fn config_with(traders: Vec<Pubkey>, paused: bool) -> VaultConfig {
    VaultConfig {
        admin: key(1),
        emergency_admin: key(2),
        paused,
        authorized_traders: traders,
        bump: 255,
    }
}

fn open_config() -> VaultConfig {
    config_with(vec![key(TRADER_PROGRAM)], false)
}

fn balance_of(user: u8, amount: u64) -> UserBalance {
    UserBalance { user: key(user), token_mint: key(MINT), balance: amount, bump: 3 }
}

fn authority_with(total: u64) -> VaultAuthority {
    VaultAuthority { token_mint: key(MINT), vault_ata: key(VAULT_ATA), total_deposits: total, bump: 4 }
}

fn vault_token_account(amount: u64) -> TokenAccount {
    TokenAccount { key: key(VAULT_ATA), mint: key(MINT), owner: key(VAULT_AUTHORITY_KEY), amount }
}

fn user_token_account(user: u8, amount: u64) -> TokenAccount {
    TokenAccount { key: key(user + 100), mint: key(MINT), owner: key(user), amount }
}

/// A transaction of one instruction, made by the trading program.
fn shown_by(program: u8) -> InstructionsSysvar {
    InstructionsSysvar {
        key: instructions_sysvar_id(),
        current_index: 0,
        program_ids: vec![Some(key(program)), None],
    }
}

#[test]
fn slash_then_credit_restores_the_balance() {
    for (balance, amount) in [(500u64, 120u64), (500, 500), (500, 0), (u64::MAX, u64::MAX), (0, 0)] {
        let mut record = balance_of(1, balance);
        let before = record;
        assert_eq!(record.slash_balance(amount), Ok(()));
        assert_eq!(record.balance, balance - amount);
        assert_eq!(record.credit_balance(amount), Ok(()));
        assert_eq!(record, before);
    }
}

#[test]
fn slash_over_the_balance_is_refused_and_changes_nothing() {
    for (balance, amount) in [(500u64, 501u64), (0, 1), (u64::MAX - 1, u64::MAX)] {
        let mut record = balance_of(1, balance);
        let before = record;
        assert_eq!(record.slash_balance(amount), Err(VaultError::InsufficientBalance));
        assert_eq!(record, before);
        assert!(!record.has_sufficient_balance(amount));
    }
}

#[test]
fn credit_at_the_ceiling_is_refused_and_changes_nothing() {
    let mut record = balance_of(1, u64::MAX);
    let before = record;
    assert_eq!(record.credit_balance(1), Err(VaultError::MathOverflow));
    assert_eq!(record, before);
    let mut near = balance_of(1, u64::MAX - 5);
    assert_eq!(near.credit_balance(6), Err(VaultError::MathOverflow));
    assert_eq!(near.balance, u64::MAX - 5);
    assert_eq!(near.credit_balance(5), Ok(()));
    assert_eq!(near.balance, u64::MAX);
}

#[test]
fn user_balance_starts_empty() {
    let mut record = balance_of(9, 77);
    record.initialize(key(1), key(2), 8);
    assert_eq!(record, UserBalance { user: key(1), token_mint: key(2), balance: 0, bump: 8 });
    assert!(record.has_sufficient_balance(0));
    assert!(!record.has_sufficient_balance(1));
}

#[test]
fn custody_total_is_counted_with_checks() {
    let mut authority = authority_with(9);
    authority.initialize(key(5), key(6), 1);
    assert_eq!(
        authority,
        VaultAuthority { token_mint: key(5), vault_ata: key(6), total_deposits: 0, bump: 1 }
    );
    assert_eq!(authority.add_deposit(40), Ok(()));
    assert_eq!(authority.total_deposits, 40);
    assert_eq!(authority.subtract_deposit(41), Err(VaultError::InsufficientBalance));
    assert_eq!(authority.total_deposits, 40);
    assert_eq!(authority.subtract_deposit(15), Ok(()));
    assert_eq!(authority.total_deposits, 25);
    assert_eq!(authority.add_deposit(u64::MAX - 24), Err(VaultError::MathOverflow));
    assert_eq!(authority.total_deposits, 25);
    assert_eq!(authority.add_deposit(u64::MAX - 25), Ok(()));
    assert_eq!(authority.total_deposits, u64::MAX);
}

#[test]
fn allow_list_holds_ten_programs_and_no_more() {
    let mut config = config_with(vec![key(9)], true);
    config.initialize(key(1), key(2), 254);
    assert_eq!(config, config_with(Vec::new(), false).with_bump(254));
    for tag in 10..20u8 {
        assert_eq!(config.add_authorized_trader(key(tag)), Ok(()));
        assert!(config.is_authorized_trader(&key(tag)));
    }
    assert_eq!(config.authorized_traders.len(), 10);
    let full = config.clone();
    assert_eq!(config.add_authorized_trader(key(20)), Err(VaultError::MaximumTradersReached));
    assert_eq!(config, full);
    assert!(!config.is_authorized_trader(&key(20)));
}

trait WithBump {
    fn with_bump(self, bump: u8) -> Self;
}

impl WithBump for VaultConfig {
    fn with_bump(mut self, bump: u8) -> Self {
        self.bump = bump;
        self
    }
}

#[test]
fn adding_a_duplicate_is_refused_and_changes_nothing() {
    let mut config = config_with(vec![key(10), key(11)], false);
    let before = config.clone();
    assert_eq!(config.add_authorized_trader(key(11)), Err(VaultError::TraderAlreadyAuthorized));
    assert_eq!(config, before);
    // a duplicate is reported as such even where the list is full
    let mut full = config_with((10..20u8).map(key).collect(), false);
    assert_eq!(full.add_authorized_trader(key(15)), Err(VaultError::TraderAlreadyAuthorized));
    assert_eq!(full.authorized_traders.len(), 10);
}

#[test]
fn removing_a_trader_keeps_the_order_of_the_others() {
    let mut config = config_with(vec![key(10), key(11), key(12)], false);
    assert_eq!(config.remove_authorized_trader(&key(11)), Ok(()));
    assert_eq!(config.authorized_traders, vec![key(10), key(12)]);
    assert_eq!(config.remove_authorized_trader(&key(11)), Err(VaultError::TraderNotFound));
    assert_eq!(config.authorized_traders, vec![key(10), key(12)]);
    assert_eq!(config.remove_authorized_trader(&key(10)), Ok(()));
    assert_eq!(config.remove_authorized_trader(&key(12)), Ok(()));
    assert!(config.authorized_traders.is_empty());
}

#[test]
fn a_caller_is_admitted_only_from_the_list_and_while_not_paused() {
    let config = config_with(vec![key(10)], false);
    assert_eq!(config.validate_cpi_caller_precise(&key(10), "SlashBalance"), Ok(()));
    assert_eq!(
        config.validate_cpi_caller_precise(&key(11), "SlashBalance"),
        Err(VaultError::UnauthorizedTrader)
    );
    assert_eq!(config.validate_cpi_caller_with_logging(&key(10), "x"), Ok(()));
    assert_eq!(
        config.validate_cpi_caller_with_logging(&key(11), "x"),
        Err(VaultError::UnauthorizedTrader)
    );
    assert_eq!(config.validate_cpi_caller(), Ok(()));
    let paused = config_with(vec![key(10)], true);
    assert_eq!(paused.validate_cpi_caller_precise(&key(10), "x"), Err(VaultError::VaultPaused));
    assert_eq!(paused.validate_cpi_caller_precise(&key(11), "x"), Err(VaultError::VaultPaused));
    assert_eq!(paused.validate_cpi_caller_advanced(&key(10), "x"), Err(VaultError::VaultPaused));
    assert_eq!(paused.validate_cpi_caller(), Err(VaultError::VaultPaused));
}

#[test]
fn the_stricter_check_refuses_the_hosts_programs_even_on_the_list() {
    let system = system_program_id();
    let token = premarket_escrow::program_ids::token_program_id();
    let config = config_with(vec![key(10), system, token], false);
    assert_eq!(config.validate_cpi_caller_precise(&system, "x"), Ok(()));
    assert_eq!(config.validate_cpi_caller_advanced(&key(10), "x"), Ok(()));
    assert_eq!(
        config.validate_cpi_caller_advanced(&system, "x"),
        Err(VaultError::UnauthorizedTrader)
    );
    assert_eq!(
        config.validate_cpi_caller_advanced(&token, "x"),
        Err(VaultError::UnauthorizedTrader)
    );
    assert_eq!(
        config.validate_cpi_caller_advanced(&key(11), "x"),
        Err(VaultError::UnauthorizedTrader)
    );
}

#[test]
fn setting_the_ledger_up() {
    let mut ctx = InitializeVault {
        config: config_with(vec![key(30)], true),
        config_bump: 250,
        admin: key(7),
    };
    let announced = initialize::handler(&mut ctx, key(1), key(2), 1000);
    assert_eq!(
        announced,
        Ok(VaultInitialized { admin: key(1), emergency_admin: key(2), timestamp: 1000 })
    );
    assert_eq!(ctx.config, config_with(Vec::new(), false).with_bump(250));
}

#[test]
fn only_the_emergency_admin_pauses_and_resumes() {
    let mut ctx = EmergencyControl { config: open_config(), emergency_admin: key(3) };
    assert_eq!(emergency::pause_handler(&mut ctx, 5), Err(VaultError::InvalidEmergencyAdmin));
    assert!(!ctx.config.paused);
    ctx.emergency_admin = key(2);
    assert_eq!(emergency::unpause_handler(&mut ctx, 5), Err(VaultError::VaultNotPaused));
    assert_eq!(
        emergency::pause_handler(&mut ctx, 5),
        Ok(VaultPaused { emergency_admin: key(2), timestamp: 5 })
    );
    assert!(ctx.config.paused);
    assert_eq!(emergency::pause_handler(&mut ctx, 6), Err(VaultError::VaultPaused));
    assert!(ctx.config.paused);
    assert_eq!(
        emergency::unpause_handler(&mut ctx, 7),
        Ok(VaultUnpaused { emergency_admin: key(2), timestamp: 7 })
    );
    assert_eq!(ctx.config, open_config());
}

#[test]
fn only_the_admin_keeps_the_allow_list() {
    let mut ctx = ManageAuthorizedTrader { config: open_config(), admin: key(9) };
    assert_eq!(manage_trader::add_handler(&mut ctx, key(70), 1), Err(VaultError::InvalidAdmin));
    assert_eq!(manage_trader::remove_handler(&mut ctx, key(TRADER_PROGRAM), 1), Err(VaultError::InvalidAdmin));
    assert_eq!(ctx.config, open_config());
    ctx.admin = key(1);
    assert_eq!(
        manage_trader::add_handler(&mut ctx, key(70), 11),
        Ok(AuthorizedTraderAdded { trader_program: key(70), admin: key(1), timestamp: 11 })
    );
    assert_eq!(ctx.config.authorized_traders, vec![key(TRADER_PROGRAM), key(70)]);
    assert_eq!(
        manage_trader::add_handler(&mut ctx, key(70), 12),
        Err(VaultError::TraderAlreadyAuthorized)
    );
    assert_eq!(
        manage_trader::remove_handler(&mut ctx, key(TRADER_PROGRAM), 13),
        Ok(AuthorizedTraderRemoved { trader_program: key(TRADER_PROGRAM), admin: key(1), timestamp: 13 })
    );
    assert_eq!(ctx.config.authorized_traders, vec![key(70)]);
    assert_eq!(
        manage_trader::remove_handler(&mut ctx, key(TRADER_PROGRAM), 14),
        Err(VaultError::TraderNotFound)
    );
}

fn deposit_ctx(balance: UserBalance, authority: VaultAuthority, held: u64) -> DepositCollateral {
    DepositCollateral {
        config: open_config(),
        user_balance: balance,
        user_balance_bump: 33,
        vault_authority: authority,
        vault_authority_key: key(VAULT_AUTHORITY_KEY),
        vault_authority_bump: 44,
        vault_ata: vault_token_account(0),
        user_ata: user_token_account(5, held),
        token_mint: key(MINT),
        user: key(5),
    }
}

#[test]
fn a_first_deposit_starts_both_records() {
    let blank_balance = UserBalance { user: Pubkey::default(), token_mint: Pubkey::default(), balance: 0, bump: 0 };
    let blank_authority = VaultAuthority {
        token_mint: Pubkey::default(),
        vault_ata: Pubkey::default(),
        total_deposits: 0,
        bump: 0,
    };
    let mut ctx = deposit_ctx(blank_balance, blank_authority, 1_000);
    let done = deposit::handler(&mut ctx, 400);
    assert_eq!(
        done,
        Ok((
            Transfer { from: key(105), to: key(VAULT_ATA), authority: key(5), amount: 400 },
            CollateralDeposited { user: key(5), token_mint: key(MINT), amount: 400, new_balance: 400 },
        ))
    );
    assert_eq!(ctx.user_balance, UserBalance { user: key(5), token_mint: key(MINT), balance: 400, bump: 33 });
    assert_eq!(
        ctx.vault_authority,
        VaultAuthority { token_mint: key(MINT), vault_ata: key(VAULT_ATA), total_deposits: 400, bump: 44 }
    );
}

#[test]
fn a_later_deposit_adds_to_both_records() {
    let mut ctx = deposit_ctx(balance_of(5, 100), authority_with(900), 1_000);
    let done = deposit::handler(&mut ctx, 250).unwrap();
    assert_eq!(done.1.new_balance, 350);
    assert_eq!(ctx.user_balance, balance_of(5, 350));
    assert_eq!(ctx.vault_authority, authority_with(1150));
}

#[test]
fn a_deposit_is_refused_for_each_reason_and_changes_nothing() {
    let fresh = || deposit_ctx(balance_of(5, 100), authority_with(900), 1_000);
    let refused = |change: &dyn Fn(&mut DepositCollateral), amount: u64, why: VaultError| {
        let mut ctx = fresh();
        change(&mut ctx);
        let before = ctx.clone();
        assert_eq!(deposit::handler(&mut ctx, amount), Err(why));
        assert_eq!(ctx, before);
    };
    refused(&|c| c.config.paused = true, 10, VaultError::VaultPaused);
    refused(&|c| c.vault_ata.mint = key(51), 10, VaultError::InvalidTokenMint);
    refused(&|c| c.vault_ata.owner = key(62), 10, VaultError::InvalidAccountOwner);
    refused(&|c| c.user_ata.mint = key(51), 10, VaultError::InvalidTokenMint);
    refused(&|c| c.user_ata.owner = key(6), 10, VaultError::InvalidAccountOwner);
    refused(&|_| {}, 1_001, VaultError::InsufficientBalance);
    refused(&|_| {}, 0, VaultError::ZeroAmount);
    refused(&|c| { c.user_balance.balance = u64::MAX - 5; c.user_ata.amount = 10 }, 6, VaultError::MathOverflow);
    refused(&|c| { c.vault_authority.total_deposits = u64::MAX - 5; c.user_ata.amount = 10 }, 6, VaultError::MathOverflow);
    // the earlier reason wins
    refused(&|c| { c.config.paused = true; c.user_ata.owner = key(6) }, 0, VaultError::VaultPaused);
}

fn withdraw_ctx(available: u64, total: u64) -> WithdrawCollateral {
    WithdrawCollateral {
        config: open_config(),
        user_balance: balance_of(5, available),
        vault_authority: authority_with(total),
        vault_authority_key: key(VAULT_AUTHORITY_KEY),
        vault_ata: vault_token_account(total),
        user_ata: user_token_account(5, 0),
        user: key(5),
    }
}

#[test]
fn a_withdrawal_takes_from_both_records() {
    let mut ctx = withdraw_ctx(300, 1_000);
    let done = withdraw::handler(&mut ctx, 120);
    assert_eq!(
        done,
        Ok((
            Transfer { from: key(VAULT_ATA), to: key(105), authority: key(VAULT_AUTHORITY_KEY), amount: 120 },
            CollateralWithdrawn { user: key(5), token_mint: key(MINT), amount: 120, remaining_balance: 180 },
        ))
    );
    assert_eq!(ctx.user_balance, balance_of(5, 180));
    assert_eq!(ctx.vault_authority, authority_with(880));
}

#[test]
fn a_withdrawal_is_refused_for_each_reason_and_changes_nothing() {
    let refused = |change: &dyn Fn(&mut WithdrawCollateral), amount: u64, why: VaultError| {
        let mut ctx = withdraw_ctx(300, 1_000);
        change(&mut ctx);
        let before = ctx.clone();
        assert_eq!(withdraw::handler(&mut ctx, amount), Err(why));
        assert_eq!(ctx, before);
    };
    refused(&|c| c.config.paused = true, 10, VaultError::VaultPaused);
    refused(&|c| c.user = key(6), 10, VaultError::InvalidAccountOwner);
    refused(&|_| {}, 301, VaultError::InsufficientBalance);
    refused(&|c| c.vault_authority.token_mint = key(51), 10, VaultError::InvalidTokenMint);
    refused(&|c| c.vault_ata.key = key(63), 10, VaultError::InvalidTokenMint);
    refused(&|c| c.vault_ata.mint = key(51), 10, VaultError::InvalidTokenMint);
    refused(&|c| c.user_ata.mint = key(51), 10, VaultError::InvalidTokenMint);
    refused(&|c| c.user_ata.owner = key(6), 10, VaultError::InvalidAccountOwner);
    refused(&|_| {}, 0, VaultError::ZeroAmount);
    refused(&|c| c.vault_authority.total_deposits = 9, 10, VaultError::InsufficientBalance);
}

fn slash_ctx(available: u64) -> SlashBalance {
    SlashBalance {
        config: open_config(),
        user_balance: balance_of(5, available),
        vault_authority: authority_with(1_000),
        instruction_sysvar: shown_by(TRADER_PROGRAM),
    }
}

#[test]
fn a_lock_takes_from_the_balance_and_leaves_custody() {
    let mut ctx = slash_ctx(300);
    assert_eq!(
        slash_balance::handler(&mut ctx, 300),
        Ok(BalanceSlashed { user: key(5), token_mint: key(MINT), amount: 300, caller_program: key(TRADER_PROGRAM) })
    );
    assert_eq!(ctx.user_balance, balance_of(5, 0));
    assert_eq!(ctx.vault_authority, authority_with(1_000));
}

#[test]
fn a_lock_is_refused_for_each_reason_and_changes_nothing() {
    let refused = |change: &dyn Fn(&mut SlashBalance), amount: u64, why: VaultError| {
        let mut ctx = slash_ctx(300);
        change(&mut ctx);
        let before = ctx.clone();
        assert_eq!(slash_balance::handler(&mut ctx, amount), Err(why));
        assert_eq!(ctx, before);
    };
    refused(&|_| {}, 301, VaultError::InsufficientBalance);
    // whoever calls: too little available comes first
    refused(&|c| c.instruction_sysvar = shown_by(91), 301, VaultError::InsufficientBalance);
    refused(&|c| c.config.paused = true, 301, VaultError::InsufficientBalance);
    refused(&|c| c.instruction_sysvar.key = key(8), 10, VaultError::InvalidInstructionSysvar);
    refused(
        &|c| c.instruction_sysvar.program_ids = vec![Some(system_program_id()), None],
        10,
        VaultError::FailedToLoadInstruction,
    );
    refused(&|c| c.config.paused = true, 10, VaultError::VaultPaused);
    refused(&|c| c.instruction_sysvar = shown_by(91), 10, VaultError::UnauthorizedTrader);
    refused(&|_| {}, 0, VaultError::ZeroAmount);
}

#[test]
fn an_unlock_adds_to_the_balance_and_leaves_custody() {
    let mut ctx = CreditBalance {
        config: open_config(),
        user_balance: balance_of(5, 300),
        vault_authority: authority_with(1_000),
        instruction_sysvar: shown_by(TRADER_PROGRAM),
    };
    assert_eq!(
        credit_balance::handler(&mut ctx, 45),
        Ok(BalanceCredited { user: key(5), token_mint: key(MINT), amount: 45, caller_program: key(TRADER_PROGRAM) })
    );
    assert_eq!(ctx.user_balance, balance_of(5, 345));
    assert_eq!(ctx.vault_authority, authority_with(1_000));
    let before = ctx.clone();
    assert_eq!(credit_balance::handler(&mut ctx, 0), Err(VaultError::ZeroAmount));
    assert_eq!(credit_balance::handler(&mut ctx, u64::MAX - 344), Err(VaultError::MathOverflow));
    ctx.instruction_sysvar = shown_by(91);
    assert_eq!(credit_balance::handler(&mut ctx, 1), Err(VaultError::UnauthorizedTrader));
    ctx.instruction_sysvar = before.instruction_sysvar.clone();
    ctx.config.paused = true;
    assert_eq!(credit_balance::handler(&mut ctx, 1), Err(VaultError::VaultPaused));
    ctx.config.paused = false;
    assert_eq!(ctx, before);
}

fn payment_ctx(available: u64, total: u64) -> TransferOut {
    TransferOut {
        config: open_config(),
        user_balance: balance_of(5, available),
        vault_authority: authority_with(total),
        vault_authority_key: key(VAULT_AUTHORITY_KEY),
        vault_token_account: vault_token_account(total),
        recipient_token_account: key(105),
        instruction_sysvar: shown_by(TRADER_PROGRAM),
    }
}

#[test]
fn a_payment_takes_from_the_balance_and_from_custody() {
    let mut ctx = payment_ctx(300, 1_000);
    assert_eq!(
        transfer_out::handler(&mut ctx, key(5), 200),
        Ok((
            Transfer { from: key(VAULT_ATA), to: key(105), authority: key(VAULT_AUTHORITY_KEY), amount: 200 },
            TokensTransferredOut {
                user: key(5),
                recipient: key(5),
                token_mint: key(MINT),
                amount: 200,
                caller_program: key(TRADER_PROGRAM),
            },
        ))
    );
    assert_eq!(ctx.user_balance, balance_of(5, 100));
    assert_eq!(ctx.vault_authority, authority_with(800));
}

#[test]
fn a_payment_is_refused_for_each_reason_and_changes_nothing() {
    let refused = |change: &dyn Fn(&mut TransferOut), amount: u64, why: VaultError| {
        let mut ctx = payment_ctx(300, 1_000);
        change(&mut ctx);
        let before = ctx.clone();
        assert_eq!(transfer_out::handler(&mut ctx, key(5), amount), Err(why));
        assert_eq!(ctx, before);
    };
    refused(&|_| {}, 301, VaultError::InsufficientBalance);
    refused(&|c| c.vault_token_account.mint = key(51), 10, VaultError::TokenMintMismatch);
    refused(&|c| c.vault_token_account.owner = key(62), 10, VaultError::InvalidVaultAuthority);
    refused(&|c| c.instruction_sysvar.key = key(8), 10, VaultError::InvalidInstructionSysvar);
    refused(&|c| c.config.paused = true, 10, VaultError::VaultPaused);
    refused(&|c| c.instruction_sysvar = shown_by(91), 10, VaultError::UnauthorizedTrader);
    refused(&|_| {}, 0, VaultError::ZeroAmount);
    refused(&|c| c.vault_authority.total_deposits = 9, 10, VaultError::InsufficientBalance);
}

fn move_ctx(from: u64, to: u64) -> TransferBalance {
    TransferBalance {
        config: open_config(),
        from_balance: balance_of(5, from),
        to_balance: balance_of(6, to),
        vault_authority: authority_with(1_000),
        instruction_sysvar: shown_by(TRADER_PROGRAM),
    }
}

#[test]
fn a_move_takes_from_one_and_gives_to_the_other() {
    let mut ctx = move_ctx(300, 50);
    assert_eq!(
        transfer_balance::handler(&mut ctx, key(5), key(6), 120),
        Ok(BalanceTransferred {
            from_user: key(5),
            to_user: key(6),
            token_mint: key(MINT),
            amount: 120,
            caller_program: key(TRADER_PROGRAM),
        })
    );
    assert_eq!(ctx.from_balance, balance_of(5, 180));
    assert_eq!(ctx.to_balance, balance_of(6, 170));
    assert_eq!(ctx.vault_authority, authority_with(1_000));
}

#[test]
fn a_move_is_refused_for_each_reason_and_changes_neither_side() {
    let refused = |change: &dyn Fn(&mut TransferBalance), to_user: u8, amount: u64, why: VaultError| {
        let mut ctx = move_ctx(300, 50);
        change(&mut ctx);
        let before = ctx.clone();
        assert_eq!(transfer_balance::handler(&mut ctx, key(5), key(to_user), amount), Err(why));
        assert_eq!(ctx, before);
    };
    refused(&|_| {}, 6, 301, VaultError::InsufficientBalance);
    refused(&|c| c.to_balance.token_mint = key(51), 6, 10, VaultError::TokenMintMismatch);
    refused(&|c| c.instruction_sysvar.key = key(8), 6, 10, VaultError::InvalidInstructionSysvar);
    refused(&|c| c.config.paused = true, 6, 10, VaultError::VaultPaused);
    refused(&|c| c.instruction_sysvar = shown_by(91), 6, 10, VaultError::UnauthorizedTrader);
    refused(&|_| {}, 6, 0, VaultError::ZeroAmount);
    refused(&|_| {}, 5, 10, VaultError::InvalidRecipient);
    // the giving side is not touched where the receiving side overflows
    refused(&|c| c.to_balance.balance = u64::MAX - 5, 6, 6, VaultError::MathOverflow);
}

#[test]
fn the_users_never_have_more_available_than_is_in_custody() {
    // three users of one token, through deposits, locks, unlocks of what
    // is locked, moves, withdrawals and payments
    let mut balances = [balance_of(5, 0), balance_of(6, 0), balance_of(7, 0)];
    let mut authority = authority_with(0);
    let solvent = |balances: &[UserBalance; 3], authority: &VaultAuthority| {
        let available: u128 = balances.iter().map(|b| b.balance as u128).sum();
        assert!(available <= authority.total_deposits as u128);
        authority.total_deposits as u128 - available
    };
    for (who, amount) in [(0usize, 500u64), (1, 300), (2, 50)] {
        let mut ctx = deposit_ctx(balances[who], authority, 1_000);
        ctx.user = balances[who].user;
        ctx.user_ata.owner = ctx.user;
        deposit::handler(&mut ctx, amount).unwrap();
        balances[who] = ctx.user_balance;
        authority = ctx.vault_authority;
        assert_eq!(solvent(&balances, &authority), 0);
    }
    let mut lock = slash_ctx(0);
    lock.user_balance = balances[0];
    slash_balance::handler(&mut lock, 200).unwrap();
    balances[0] = lock.user_balance;
    assert_eq!(solvent(&balances, &authority), 200);
    let mut moved = move_ctx(0, 0);
    moved.from_balance = balances[1];
    moved.to_balance = balances[2];
    transfer_balance::handler(&mut moved, key(6), key(7), 300).unwrap();
    balances[1] = moved.from_balance;
    balances[2] = moved.to_balance;
    assert_eq!(solvent(&balances, &authority), 200);
    let mut unlock = CreditBalance {
        config: open_config(),
        user_balance: balances[1],
        vault_authority: authority,
        instruction_sysvar: shown_by(TRADER_PROGRAM),
    };
    credit_balance::handler(&mut unlock, 150).unwrap();
    balances[1] = unlock.user_balance;
    assert_eq!(solvent(&balances, &authority), 50);
    let mut out = withdraw_ctx(0, 0);
    out.user_balance = balances[2];
    out.vault_authority = authority;
    out.user = key(7);
    out.user_ata.owner = key(7);
    withdraw::handler(&mut out, 350).unwrap();
    balances[2] = out.user_balance;
    authority = out.vault_authority;
    assert_eq!(solvent(&balances, &authority), 50);
    let mut paid = payment_ctx(0, 0);
    paid.user_balance = balances[0];
    paid.vault_authority = authority;
    transfer_out::handler(&mut paid, key(5), 300).unwrap();
    balances[0] = paid.user_balance;
    authority = paid.vault_authority;
    assert_eq!(solvent(&balances, &authority), 50);
    assert_eq!(authority.total_deposits, 200);
    assert_eq!([balances[0].balance, balances[1].balance, balances[2].balance], [0, 150, 0]);
}

#[test]
fn the_operations_are_at_hand_under_their_names() {
    let mut ctx = deposit_ctx(balance_of(5, 100), authority_with(900), 1_000);
    assert!(premarket_escrow::escrow_vault::deposit_collateral(&mut ctx, 10).is_ok());
    assert_eq!(ctx.user_balance.balance, 110);
    let mut out = withdraw_ctx(300, 1_000);
    assert!(premarket_escrow::escrow_vault::withdraw_collateral(&mut out, 10).is_ok());
    let mut lock = slash_ctx(300);
    assert!(premarket_escrow::escrow_vault::slash_balance(&mut lock, 10).is_ok());
    assert_eq!(lock.user_balance.balance, 290);
    let mut unlock = CreditBalance {
        config: open_config(),
        user_balance: balance_of(5, 300),
        vault_authority: authority_with(1_000),
        instruction_sysvar: shown_by(TRADER_PROGRAM),
    };
    assert!(premarket_escrow::escrow_vault::credit_balance(&mut unlock, 10).is_ok());
    let mut paid = payment_ctx(300, 1_000);
    assert!(premarket_escrow::escrow_vault::transfer_out(&mut paid, key(5), 10).is_ok());
    let mut moved = move_ctx(300, 50);
    assert!(premarket_escrow::escrow_vault::transfer_balance(&mut moved, key(5), key(6), 10).is_ok());
    let mut switch = EmergencyControl { config: open_config(), emergency_admin: key(2) };
    assert!(premarket_escrow::escrow_vault::pause(&mut switch, 1).is_ok());
    assert!(premarket_escrow::escrow_vault::unpause(&mut switch, 2).is_ok());
    let mut list = ManageAuthorizedTrader { config: open_config(), admin: key(1) };
    assert!(premarket_escrow::escrow_vault::add_authorized_trader(&mut list, key(70), 3).is_ok());
    assert!(premarket_escrow::escrow_vault::remove_authorized_trader(&mut list, key(70), 4).is_ok());
    let mut start = InitializeVault { config: open_config(), config_bump: 1, admin: key(1) };
    assert!(premarket_escrow::escrow_vault::initialize_vault(&mut start, key(1), key(2), 5).is_ok());
}
