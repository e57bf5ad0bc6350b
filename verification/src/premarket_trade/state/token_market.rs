//! One market: a token that is traded before it exists.
use vstd::prelude::*;
use crate::premarket_trade::common::{MAX_NAME_LENGTH, MAX_SYMBOL_LENGTH};
use crate::premarket_trade::error::TradingError;
use crate::pubkey::Pubkey;

verus! {

/// The record of one market. The real token is mapped to it once, later,
/// and never again.
#[derive(Clone, Debug, PartialEq, Eq)]
pub struct TokenMarket {
    pub token_id: Pubkey,
    pub symbol: String,
    pub name: String,
    pub real_mint: Option<Pubkey>,
    pub mapping_time: Option<i64>,
    pub settle_time_limit: u32,
    pub created_at: i64,
}

impl TokenMarket {
    /// Bytes that the record occupies in storage.
    pub const INIT_SPACE: usize = 8 + 32 + 4 + 10 + 4 + 50 + 1 + 32 + 1 + 8 + 4 + 8;

    /// Starts the record of a market that was created at `now`, with no
    /// real token yet.
    pub fn initialize(
        &mut self,
        token_id: Pubkey,
        symbol: String,
        name: String,
        settle_time_limit: u32,
        now: i64,
    )
        ensures
            final(self).token_id == token_id,
            final(self).symbol@ == symbol@,
            final(self).name@ == name@,
            final(self).real_mint is None,
            final(self).mapping_time is None,
            final(self).settle_time_limit == settle_time_limit,
            final(self).created_at == now,
    {
        self.token_id = token_id;
        self.symbol = symbol;
        self.name = name;
        self.real_mint = None;
        self.mapping_time = None;
        self.settle_time_limit = settle_time_limit;
        self.created_at = now;
    }

    /// Maps the real token to the market at `now`. A market that has one is
    /// reported as `TokenAlreadyMapped` and stays as it was.
    pub fn map_token(&mut self, real_mint: Pubkey, now: i64) -> (r: Result<(), TradingError>)
        ensures
            old(self).real_mint is Some ==> r == Err::<(), TradingError>(
                TradingError::TokenAlreadyMapped,
            ) && final(self).real_mint == old(self).real_mint && final(self).mapping_time
                == old(self).mapping_time,
            old(self).real_mint is None ==> r is Ok && final(self).real_mint == Some(real_mint)
                && final(self).mapping_time == Some(now),
            final(self).token_id == old(self).token_id,
            final(self).symbol@ == old(self).symbol@,
            final(self).name@ == old(self).name@,
            final(self).settle_time_limit == old(self).settle_time_limit,
            final(self).created_at == old(self).created_at,
    {
        if self.real_mint.is_some() {
            return Err(TradingError::TokenAlreadyMapped);
        }
        self.real_mint = Some(real_mint);
        self.mapping_time = Some(now);
        Ok(())
    }

    /// Whether the real token is mapped.
    pub fn is_mapped(&self) -> (r: bool)
        ensures
            r == self.real_mint is Some,
    {
        self.real_mint.is_some()
    }

    /// The settle window in seconds.
    pub fn get_grace_period(&self) -> (r: u32)
        ensures
            r == self.settle_time_limit,
    {
        self.settle_time_limit
    }

    /// A symbol has at most `MAX_SYMBOL_LENGTH` bytes in UTF-8.
    pub fn validate_symbol(symbol: &str) -> (r: Result<(), TradingError>)
        ensures
            symbol.len() <= MAX_SYMBOL_LENGTH ==> r is Ok,
            symbol.len() > MAX_SYMBOL_LENGTH ==> r == Err::<(), TradingError>(
                TradingError::SymbolTooLong,
            ),
    {
        if symbol.len() > MAX_SYMBOL_LENGTH {
            return Err(TradingError::SymbolTooLong);
        }
        Ok(())
    }

    /// A name has at most `MAX_NAME_LENGTH` bytes in UTF-8.
    pub fn validate_name(name: &str) -> (r: Result<(), TradingError>)
        ensures
            name.len() <= MAX_NAME_LENGTH ==> r is Ok,
            name.len() > MAX_NAME_LENGTH ==> r == Err::<(), TradingError>(
                TradingError::NameTooLong,
            ),
    {
        if name.len() > MAX_NAME_LENGTH {
            return Err(TradingError::NameTooLong);
        }
        Ok(())
    }
}

} // verus!
