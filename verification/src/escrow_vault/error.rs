//! Why a ledger operation was rejected.
use vstd::prelude::*;

verus! {

/// The ways in which a ledger operation fails.
#[derive(Clone, Copy, Debug, PartialEq, Eq, Structural, Hash)]
pub enum VaultError {
    InvalidAdmin,
    InvalidEmergencyAdmin,
    VaultPaused,
    VaultNotPaused,
    InvalidAccountOwner,
    InvalidTokenMint,
    InsufficientBalance,
    ZeroAmount,
    MathOverflow,
    UnauthorizedTrader,
    DuplicateAuthorizedTrader,
    TooManyAuthorizedTraders,
    TraderNotFound,
    UnauthorizedCPICaller,
    UnauthorizedTraderProgram,
    TokenMintMismatch,
    InvalidVaultAuthority,
    ArithmeticOverflow,
    InvalidTokenAccount,
    TransferFailed,
    InvalidRecipient,
    AccountAlreadyInitialized,
    AccountNotInitialized,
    TraderAlreadyAuthorized,
    MaximumTradersReached,
    InvalidInstructionSysvar,
    FailedToLoadInstruction,
    CpiCallerDetectionFailed,
}

} // verus!
