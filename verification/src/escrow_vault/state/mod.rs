//! The records that the ledger keeps.
pub mod user_balance;
pub mod vault_authority;
pub mod vault_config;

pub use user_balance::UserBalance;
pub use vault_authority::VaultAuthority;
pub use vault_config::VaultConfig;
