//! What the engine tells its observers after each operation.
use vstd::prelude::*;
use crate::premarket_trade::common::{EconomicConfig, TechnicalConfig};
use crate::pubkey::Pubkey;

verus! {

/// The engine was set up.
#[derive(Clone, Copy, Debug, PartialEq, Eq)]
pub struct TradingInitialized {
    pub admin: Pubkey,
    pub vault_program: Pubkey,
    pub fee_recipient: Pubkey,
    pub timestamp: i64,
}

/// A market was created.
#[derive(Clone, Debug, PartialEq, Eq)]
pub struct TokenMarketCreated {
    pub token_id: Pubkey,
    pub symbol: String,
    pub name: String,
    pub settle_time_limit: u32,
    pub created_at: i64,
}

/// The real token was mapped to a market.
#[derive(Clone, Copy, Debug, PartialEq, Eq)]
pub struct TokenMapped {
    pub token_id: Pubkey,
    pub real_mint: Pubkey,
    pub mapping_time: i64,
}

/// A relayer was admitted.
#[derive(Clone, Copy, Debug, PartialEq, Eq)]
pub struct RelayerAdded {
    pub admin: Pubkey,
    pub relayer: Pubkey,
    pub total_relayers: u8,
    pub timestamp: i64,
}

/// A relayer was dismissed.
#[derive(Clone, Copy, Debug, PartialEq, Eq)]
pub struct RelayerRemoved {
    pub admin: Pubkey,
    pub relayer: Pubkey,
    pub total_relayers: u8,
    pub timestamp: i64,
}

/// Two orders were matched and their collateral locked.
#[derive(Clone, Copy, Debug, PartialEq, Eq)]
pub struct OrdersMatched {
    pub trade_id: Pubkey,
    pub buyer: Pubkey,
    pub seller: Pubkey,
    pub token_id: Pubkey,
    pub collateral_mint: Pubkey,
    pub filled_amount: u64,
    pub price: u64,
    pub buyer_collateral: u64,
    pub seller_collateral: u64,
    pub match_time: i64,
    pub buy_order_hash: [u8; 32],
    pub sell_order_hash: [u8; 32],
}

/// An order was placed.
#[derive(Clone, Copy, Debug, PartialEq, Eq)]
pub struct OrderPlaced {
    pub order_id: Pubkey,
    pub token_market: Pubkey,
    pub user: Pubkey,
    pub order_type: u8,
    pub quantity: u64,
    pub collateral_amount: u64,
    pub timestamp: i64,
}

/// An order was cancelled before it was matched.
#[derive(Clone, Copy, Debug, PartialEq, Eq)]
pub struct OrderCancelled {
    pub order_hash: [u8; 32],
    pub trader: Pubkey,
    pub token_id: Pubkey,
    pub collateral_released: u64,
    pub cancellation_time: i64,
}

/// The seller delivered and the trade was settled.
#[derive(Clone, Copy, Debug, PartialEq, Eq)]
pub struct TradeSettled {
    pub trade_id: Pubkey,
    pub token_id: Pubkey,
    pub buyer: Pubkey,
    pub seller: Pubkey,
    pub target_mint: Pubkey,
    pub filled_amount: u64,
    pub seller_reward: u64,
    pub settlement_time: i64,
}

/// The seller did not deliver in time and the buyer cancelled the trade.
#[derive(Clone, Copy, Debug, PartialEq, Eq)]
pub struct TradeCancelled {
    pub trade_id: Pubkey,
    pub token_id: Pubkey,
    pub buyer: Pubkey,
    pub seller: Pubkey,
    pub penalty_amount: u64,
    pub cancellation_time: i64,
}

/// The engine's rates were changed.
#[derive(Clone, Copy, Debug, PartialEq, Eq)]
pub struct TradingConfigUpdated {
    pub admin: Pubkey,
    pub new_fee_rate: u64,
    pub new_penalty_rate: u64,
    pub timestamp: i64,
}

/// Trading was paused.
#[derive(Clone, Copy, Debug, PartialEq, Eq)]
pub struct TradingPaused {
    pub admin: Pubkey,
    pub timestamp: i64,
}

/// Trading was resumed.
#[derive(Clone, Copy, Debug, PartialEq, Eq)]
pub struct TradingUnpaused {
    pub admin: Pubkey,
    pub timestamp: i64,
}

/// The economic policy was replaced.
#[derive(Clone, Copy, Debug, PartialEq, Eq)]
pub struct EconomicConfigUpdated {
    pub admin: Pubkey,
    pub old_config: EconomicConfig,
    pub new_config: EconomicConfig,
    pub updated_at: i64,
}

/// The technical policy was replaced.
#[derive(Clone, Copy, Debug, PartialEq, Eq)]
pub struct TechnicalConfigUpdated {
    pub admin: Pubkey,
    pub old_config: TechnicalConfig,
    pub new_config: TechnicalConfig,
    pub updated_at: i64,
}

} // verus!
