//! Mapping the real token to a market, once it exists.
use vstd::prelude::*;
use crate::premarket_trade::error::TradingError;
use crate::premarket_trade::events::TokenMapped;
use crate::premarket_trade::state::{TokenMarket, TradeConfig};
use crate::pubkey::Pubkey;

verus! {

/// What mapping works on: the market's record with its address, the
/// address of the real token, the configuration record, and the signer,
/// who must be the administrator.
#[derive(Clone, Debug, PartialEq, Eq)]
pub struct MapToken {
    pub token_market: TokenMarket,
    pub token_market_key: Pubkey,
    pub real_mint: Pubkey,
    pub config: TradeConfig,
    pub admin: Pubkey,
}

impl MapToken {
    /// Whether `real_mint` can be mapped to the market.
    pub open spec fn spec_check(self, real_mint: Pubkey) -> Result<(), TradingError> {
        if self.token_market.real_mint is Some {
            Err(TradingError::TokenAlreadyMapped)
        } else if self.config.admin != self.admin {
            Err(TradingError::InvalidAdmin)
        } else if self.config.paused {
            Err(TradingError::TradingPaused)
        } else if real_mint != self.real_mint {
            Err(TradingError::InvalidTokenMint)
        } else if self.token_market.token_id != self.token_market_key {
            Err(TradingError::InvalidTokenAddress)
        } else {
            Ok(())
        }
    }
}

/// Maps `real_mint` to the market at `now`. A market is mapped once: one
/// that has a real token is refused as `TokenAlreadyMapped`. Only the
/// administrator can, only while trading is not paused, only the token
/// whose address was looked up, and only to a market that is recorded
/// under its own address. Where the mapping is refused, nothing changes.
pub fn handler(ctx: &mut MapToken, real_mint: Pubkey, now: i64) -> (r: Result<
    TokenMapped,
    TradingError,
>)
    ensures
        match old(ctx).spec_check(real_mint) {
            Ok(_) => {
                &&& r == Ok::<TokenMapped, TradingError>(
                    TokenMapped {
                        token_id: old(ctx).token_market.token_id,
                        real_mint,
                        mapping_time: now,
                    },
                )
                &&& final(ctx).token_market.real_mint == Some(real_mint)
                &&& final(ctx).token_market.mapping_time == Some(now)
            },
            Err(e) => {
                &&& r == Err::<TokenMapped, TradingError>(e)
                &&& final(ctx).token_market.real_mint == old(ctx).token_market.real_mint
                &&& final(ctx).token_market.mapping_time == old(ctx).token_market.mapping_time
            },
        },
        final(ctx).token_market.token_id == old(ctx).token_market.token_id,
        final(ctx).token_market.symbol@ == old(ctx).token_market.symbol@,
        final(ctx).token_market.name@ == old(ctx).token_market.name@,
        final(ctx).token_market.settle_time_limit == old(ctx).token_market.settle_time_limit,
        final(ctx).token_market.created_at == old(ctx).token_market.created_at,
        final(ctx).token_market_key == old(ctx).token_market_key,
        final(ctx).real_mint == old(ctx).real_mint,
        final(ctx).config == old(ctx).config,
        final(ctx).admin == old(ctx).admin,
{
    if ctx.token_market.real_mint.is_some() {
        return Err(TradingError::TokenAlreadyMapped);
    }
    if ctx.config.admin != ctx.admin {
        return Err(TradingError::InvalidAdmin);
    }
    if ctx.config.paused {
        return Err(TradingError::TradingPaused);
    }
    if real_mint != ctx.real_mint {
        return Err(TradingError::InvalidTokenMint);
    }
    if ctx.token_market.token_id != ctx.token_market_key {
        return Err(TradingError::InvalidTokenAddress);
    }
    ctx.token_market.real_mint = Some(real_mint);
    ctx.token_market.mapping_time = Some(now);
    Ok(TokenMapped { token_id: ctx.token_market.token_id, real_mint, mapping_time: now })
}

} // verus!
