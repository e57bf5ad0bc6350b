//! Tokens as the ledger and the engine see them. The host's token program
//! keeps the accounts and moves the tokens; the operations here read the
//! accounts and say which transfers are to be made.
use vstd::prelude::*;
use crate::pubkey::Pubkey;

verus! {

/// What an operation reads of a token account: where it is, which token it
/// holds, whose it is, and how much is in it.
#[derive(Clone, Copy, Debug, PartialEq, Eq)]
pub struct TokenAccount {
    pub key: Pubkey,
    pub mint: Pubkey,
    pub owner: Pubkey,
    pub amount: u64,
}

/// A transfer that the host's token program is to make once the operation
/// that asks for it has succeeded.
#[derive(Clone, Copy, Debug, PartialEq, Eq)]
pub struct Transfer {
    pub from: Pubkey,
    pub to: Pubkey,
    pub authority: Pubkey,
    pub amount: u64,
}

} // verus!
