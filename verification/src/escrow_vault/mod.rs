//! The escrow ledger: balances, custody totals, the caller allow-list and
//! the operations that change them.
//!
//! The operations are the handlers of the modules under `instructions`;
//! each is also at hand here under the name by which the ledger's users
//! know it.
pub mod error;
pub mod events;
pub mod instructions;
pub mod ledger;
pub mod state;
pub mod utils;

pub use instructions::credit_balance::handler as credit_balance;
pub use instructions::deposit::handler as deposit_collateral;
pub use instructions::emergency::pause_handler as pause;
pub use instructions::emergency::unpause_handler as unpause;
pub use instructions::initialize::handler as initialize_vault;
pub use instructions::manage_trader::add_handler as add_authorized_trader;
pub use instructions::manage_trader::remove_handler as remove_authorized_trader;
pub use instructions::slash_balance::handler as slash_balance;
pub use instructions::transfer_balance::handler as transfer_balance;
pub use instructions::transfer_out::handler as transfer_out;
pub use instructions::withdraw::handler as withdraw_collateral;
