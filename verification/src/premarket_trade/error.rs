//! Why a trading operation was rejected.
use vstd::prelude::*;
use crate::escrow_vault::error::VaultError;

verus! {

/// The ways in which a trading operation fails by the engine's own rules.
#[derive(Clone, Copy, Debug, PartialEq, Eq, Structural, Hash)]
pub enum TradingError {
    InvalidSignature,
    IncompatibleOrders,
    TradeAlreadySettled,
    GracePeriodActive,
    GracePeriodExpired,
    InvalidAccountOwner,
    VaultCPIFailed,
    MathOverflow,
    PriceTooLow,
    PriceTooHigh,
    OrderExpired,
    OrderAlreadyUsed,
    InsufficientCollateral,
    TradeNotFound,
    OnlyBuyerCanCancel,
    OnlySellerCanSettle,
    TokenTransferFailed,
    InvalidFillAmount,
    ExceedOrderAmount,
    BelowMinimumFill,
    TokenNotExists,
    TokenAlreadyMapped,
    InvalidTokenAddress,
    DuplicateSymbol,
    InvalidCollateralRatio,
    InvalidRewardParameters,
    ZeroAmount,
    SelfTrade,
    TradingPaused,
    UnauthorizedRelayer,
    InvalidSettleTime,
    SymbolTooLong,
    NameTooLong,
    TooManyAuthorizedTraders,
    TooManySupportedTokens,
    TooManyRelayers,
    InvalidAdmin,
    InvalidVaultProgram,
    InvalidOrderHash,
    GracePeriodNotExpired,
    TokenMintMismatch,
    InvalidTargetMint,
    SettlementDeadlinePassed,
    TradingNotActive,
    InvalidOrderType,
    InvalidQuantity,
    InsufficientBalance,
    InvalidTokenMint,
    InvalidMarket,
    OrderNotFound,
    OrderAlreadyFilled,
    OrderAlreadyCancelled,
    InvalidOrderOwner,
    TradingNotStarted,
    TradingEnded,
    InsufficientRemainingSupply,
    InvalidPrice,
    InvalidTimeRange,
    VaultProgramMismatch,
    CPICallFailed,
    TokenNotMapped,
    InvalidInstructionSysvar,
}

/// Why an operation that reaches into the ledger was rejected: by the
/// engine's own rules, or by the ledger's.
#[derive(Clone, Copy, Debug, PartialEq, Eq, Structural, Hash)]
pub enum TradeFailure {
    Trading(TradingError),
    Vault(VaultError),
}

} // verus!
