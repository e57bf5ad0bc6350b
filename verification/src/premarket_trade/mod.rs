//! The pre-market trading engine: orders, trades, the settlement
//! arithmetic, and the transitions that lock and release collateral.
//!
//! The operations are the handlers of the modules under `instructions`;
//! each is also at hand here under the name by which the engine's users
//! know it.
pub mod common;
pub mod error;
pub mod events;
pub mod instructions;
pub mod state;
pub mod utils;

pub use instructions::cancel_order::handler as cancel_order;
pub use instructions::cancel_trade::handler as cancel_trade;
pub use instructions::create_token_market::handler as create_token_market;
pub use instructions::emergency::pause_handler as pause;
pub use instructions::emergency::unpause_handler as unpause;
pub use instructions::initialize::handler as initialize_trading;
pub use instructions::manage_relayers::handler as manage_relayers;
pub use instructions::map_token::handler as map_token;
pub use instructions::match_orders::handler as match_orders;
pub use instructions::settle_trade::handler as settle_trade;
pub use instructions::update_config::update_economic_handler as update_economic_config;
pub use instructions::update_config::update_technical_handler as update_technical_config;
