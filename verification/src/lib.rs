//! A non-custodial escrow ledger and the pre-market trade settlement engine
//! that runs on top of it.
//!
//! `escrow_vault` holds the per-user balance records, the per-token custody
//! record, the allow-list of privileged callers and the operations on them.
//! `premarket_trade` holds the order and trade records, the settlement
//! arithmetic and the match / settle / cancel transitions, each of which
//! moves collateral through the vault's privileged operations.
//! `user_profile` is a small record of a user's display name.
//!
//! Every operation is a function from the records it touches, its arguments
//! and the host's clock reading to the updated records and a notification
//! record. A failed operation leaves every record as it was.
pub mod digest;
pub mod escrow_vault;
pub mod premarket_trade;
pub mod program_ids;
pub mod pubkey;
pub mod token;
pub mod user_profile;
