//! Creating a market.
use vstd::prelude::*;
use crate::premarket_trade::common::{MAX_NAME_LENGTH, MAX_SYMBOL_LENGTH};
use crate::premarket_trade::error::TradingError;
use crate::premarket_trade::events::TokenMarketCreated;
use crate::premarket_trade::instructions::update_config::{
    MAX_SETTLE_TIME_LIMIT, MIN_SETTLE_TIME_LIMIT,
};
use crate::premarket_trade::state::{TokenMarket, TradeConfig};
use crate::pubkey::Pubkey;

verus! {

/// The number of bytes that `text` takes in UTF-8, as `str::len` counts
/// them.
pub open spec fn byte_length(text: Seq<char>) -> usize {
    vstd::utf8::encode_utf8(text).len() as usize
}

/// What `str::trim` of the standard library leaves of a text: the text
/// without the white space at its start and at its end.
pub uninterp spec fn trimmed(text: Seq<char>) -> Seq<char>;

/// Calls `str::trim` on `text`. All that is claimed of the result is that
/// it depends on the characters of `text` alone.
#[verifier::external_body]
fn trim(text: &str) -> (r: &str)
    ensures
        r@ == trimmed(text@),
{
    text.trim()
}

/// What creating a market works on: the market's record, which the host
/// keeps under `token_market_key`, the configuration record, and the
/// signer, who must be the administrator.
#[derive(Clone, Debug, PartialEq, Eq)]
pub struct CreateTokenMarket {
    pub token_market: TokenMarket,
    pub token_market_key: Pubkey,
    pub config: TradeConfig,
    pub admin: Pubkey,
}

impl CreateTokenMarket {
    /// Whether a market with this symbol, name and settle window can be
    /// created.
    pub open spec fn spec_check(
        self,
        symbol: Seq<char>,
        name: Seq<char>,
        settle_time_limit: u32,
    ) -> Result<(), TradingError> {
        if byte_length(symbol) > MAX_SYMBOL_LENGTH {
            Err(TradingError::SymbolTooLong)
        } else if byte_length(name) > MAX_NAME_LENGTH {
            Err(TradingError::NameTooLong)
        } else if settle_time_limit < MIN_SETTLE_TIME_LIMIT {
            Err(TradingError::InvalidSettleTime)
        } else if settle_time_limit > MAX_SETTLE_TIME_LIMIT {
            Err(TradingError::InvalidSettleTime)
        } else if self.config.admin != self.admin {
            Err(TradingError::InvalidAdmin)
        } else if self.config.paused {
            Err(TradingError::TradingPaused)
        } else if trimmed(symbol).len() == 0 {
            Err(TradingError::SymbolTooLong)
        } else if trimmed(name).len() == 0 {
            Err(TradingError::NameTooLong)
        } else {
            Ok(())
        }
    }
}

/// Creates a market at `now`: it is recorded under its own address, with
/// no real token yet.
///
/// The symbol has at most 10 bytes and the name at most 50, and neither is
/// blank; the settle window is between an hour and thirty days. Only the
/// administrator can create a market, and only while trading is not
/// paused. Where the market is refused, nothing changes.
pub fn handler(
    ctx: &mut CreateTokenMarket,
    symbol: String,
    name: String,
    settle_time_limit: u32,
    now: i64,
) -> (r: Result<TokenMarketCreated, TradingError>)
    ensures
        match old(ctx).spec_check(symbol@, name@, settle_time_limit) {
            Ok(_) => {
                &&& r matches Ok(created)
                &&& created.token_id == old(ctx).token_market_key
                &&& created.symbol@ == symbol@
                &&& created.name@ == name@
                &&& created.settle_time_limit == settle_time_limit
                &&& created.created_at == now
                &&& final(ctx).token_market.token_id == old(ctx).token_market_key
                &&& final(ctx).token_market.symbol@ == symbol@
                &&& final(ctx).token_market.name@ == name@
                &&& final(ctx).token_market.real_mint is None
                &&& final(ctx).token_market.mapping_time is None
                &&& final(ctx).token_market.settle_time_limit == settle_time_limit
                &&& final(ctx).token_market.created_at == now
            },
            Err(e) => r == Err::<TokenMarketCreated, TradingError>(e) && final(ctx).token_market
                == old(ctx).token_market,
        },
        final(ctx).token_market_key == old(ctx).token_market_key,
        final(ctx).config == old(ctx).config,
        final(ctx).admin == old(ctx).admin,
{
    if symbol.as_str().len() > MAX_SYMBOL_LENGTH {
        return Err(TradingError::SymbolTooLong);
    }
    if name.as_str().len() > MAX_NAME_LENGTH {
        return Err(TradingError::NameTooLong);
    }
    if settle_time_limit < MIN_SETTLE_TIME_LIMIT {
        return Err(TradingError::InvalidSettleTime);
    }
    if settle_time_limit > MAX_SETTLE_TIME_LIMIT {
        return Err(TradingError::InvalidSettleTime);
    }
    if ctx.config.admin != ctx.admin {
        return Err(TradingError::InvalidAdmin);
    }
    if ctx.config.paused {
        return Err(TradingError::TradingPaused);
    }
    if trim(symbol.as_str()).is_empty() {
        return Err(TradingError::SymbolTooLong);
    }
    if trim(name.as_str()).is_empty() {
        return Err(TradingError::NameTooLong);
    }
    let created = TokenMarketCreated {
        token_id: ctx.token_market_key,
        symbol: symbol.clone(),
        name: name.clone(),
        settle_time_limit,
        created_at: now,
    };
    ctx.token_market.token_id = ctx.token_market_key;
    ctx.token_market.symbol = symbol;
    ctx.token_market.name = name;
    ctx.token_market.real_mint = None;
    ctx.token_market.mapping_time = None;
    ctx.token_market.settle_time_limit = settle_time_limit;
    ctx.token_market.created_at = now;
    Ok(created)
}

} // verus!
