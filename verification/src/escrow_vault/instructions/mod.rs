//! The ledger's operations, one module each.
//!
//! Each operation has a record of what it works on, named after the
//! operation, and a `handler`. The host looks the records up under their
//! keys, the handler checks them against each other and against its
//! arguments, changes them, and says what is to be transferred and
//! announced. The host stores the records again where the handler
//! succeeded.
pub mod credit_balance;
pub mod deposit;
pub mod emergency;
pub mod initialize;
pub mod manage_trader;
pub mod slash_balance;
pub mod transfer_balance;
pub mod transfer_out;
pub mod withdraw;

pub use credit_balance::CreditBalance;
pub use deposit::DepositCollateral;
pub use emergency::EmergencyControl;
pub use initialize::InitializeVault;
pub use manage_trader::ManageAuthorizedTrader;
pub use slash_balance::SlashBalance;
pub use transfer_balance::TransferBalance;
pub use transfer_out::TransferOut;
pub use withdraw::WithdrawCollateral;
