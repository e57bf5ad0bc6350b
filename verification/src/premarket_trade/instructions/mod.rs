//! The engine's operations, one module each.
//!
//! Each operation has a record of what it works on, named after the
//! operation, and a handler. The host looks the records up under their
//! keys, the handler checks them against each other and against its
//! arguments, changes them, and says what is to be transferred and
//! announced. The host stores the records again where the handler
//! succeeded.
pub mod cancel_order;
pub mod cancel_trade;
pub mod create_token_market;
pub mod emergency;
pub mod initialize;
pub mod manage_relayers;
pub mod map_token;
pub mod match_orders;
pub mod settle_trade;
pub mod update_config;

pub use cancel_order::CancelOrder;
pub use cancel_trade::CancelTrade;
pub use create_token_market::CreateTokenMarket;
pub use emergency::EmergencyControl;
pub use initialize::InitializeTrading;
pub use manage_relayers::ManageRelayers;
pub use map_token::MapToken;
pub use match_orders::MatchOrders;
pub use settle_trade::SettleTrade;
pub use update_config::{UpdateEconomicConfig, UpdateTechnicalConfig};
