//! The records that the engine keeps.
pub mod order_status;
pub mod token_market;
pub mod trade_config;
pub mod trade_record;

pub use order_status::{OrderStatus, OrderStatusType, OrderType};
pub use token_market::TokenMarket;
pub use trade_config::TradeConfig;
pub use trade_record::TradeRecord;
