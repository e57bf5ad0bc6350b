//! What the ledger tells its observers after each operation.
use vstd::prelude::*;
use crate::pubkey::Pubkey;

verus! {

/// The ledger was set up.
#[derive(Clone, Copy, Debug, PartialEq, Eq)]
pub struct VaultInitialized {
    pub admin: Pubkey,
    pub emergency_admin: Pubkey,
    pub timestamp: i64,
}

/// The ledger was paused.
#[derive(Clone, Copy, Debug, PartialEq, Eq)]
pub struct VaultPaused {
    pub emergency_admin: Pubkey,
    pub timestamp: i64,
}

/// The ledger was resumed.
#[derive(Clone, Copy, Debug, PartialEq, Eq)]
pub struct VaultUnpaused {
    pub emergency_admin: Pubkey,
    pub timestamp: i64,
}

/// A user put tokens into custody.
#[derive(Clone, Copy, Debug, PartialEq, Eq)]
pub struct CollateralDeposited {
    pub user: Pubkey,
    pub token_mint: Pubkey,
    pub amount: u64,
    pub new_balance: u64,
}

/// A user took tokens out of custody.
#[derive(Clone, Copy, Debug, PartialEq, Eq)]
pub struct CollateralWithdrawn {
    pub user: Pubkey,
    pub token_mint: Pubkey,
    pub amount: u64,
    pub remaining_balance: u64,
}

/// A privileged caller took from a user's balance.
#[derive(Clone, Copy, Debug, PartialEq, Eq)]
pub struct BalanceSlashed {
    pub user: Pubkey,
    pub token_mint: Pubkey,
    pub amount: u64,
    pub caller_program: Pubkey,
}

/// A privileged caller added to a user's balance.
#[derive(Clone, Copy, Debug, PartialEq, Eq)]
pub struct BalanceCredited {
    pub user: Pubkey,
    pub token_mint: Pubkey,
    pub amount: u64,
    pub caller_program: Pubkey,
}

/// A privileged caller paid tokens out of custody.
#[derive(Clone, Copy, Debug, PartialEq, Eq)]
pub struct TokensTransferredOut {
    pub user: Pubkey,
    pub recipient: Pubkey,
    pub token_mint: Pubkey,
    pub amount: u64,
    pub caller_program: Pubkey,
}

/// A privileged caller moved balance from one user to another.
#[derive(Clone, Copy, Debug, PartialEq, Eq)]
pub struct BalanceTransferred {
    pub from_user: Pubkey,
    pub to_user: Pubkey,
    pub token_mint: Pubkey,
    pub amount: u64,
    pub caller_program: Pubkey,
}

/// A program was put on the allow-list.
#[derive(Clone, Copy, Debug, PartialEq, Eq)]
pub struct AuthorizedTraderAdded {
    pub trader_program: Pubkey,
    pub admin: Pubkey,
    pub timestamp: i64,
}

/// A program was taken off the allow-list.
#[derive(Clone, Copy, Debug, PartialEq, Eq)]
pub struct AuthorizedTraderRemoved {
    pub trader_program: Pubkey,
    pub admin: Pubkey,
    pub timestamp: i64,
}

} // verus!
