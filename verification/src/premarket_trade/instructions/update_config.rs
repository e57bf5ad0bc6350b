//! Replacing the engine's policies.
use vstd::prelude::*;
use crate::premarket_trade::common::{
    EconomicConfig, TechnicalConfig, MAX_COLLATERAL_RATIO, MAX_PENALTY_BPS, MAX_REWARD_BPS,
};
use crate::premarket_trade::error::TradingError;
use crate::premarket_trade::events::{EconomicConfigUpdated, TechnicalConfigUpdated};
use crate::premarket_trade::state::TradeConfig;
use crate::pubkey::Pubkey;

verus! {

/// Largest order that a policy may allow.
pub const MAX_ORDER_AMOUNT_LIMIT: u64 = 1_000_000_000_000_000;

/// Shortest settle window that a policy may allow: one hour.
pub const MIN_SETTLE_TIME_LIMIT: u32 = 3600;

/// Longest settle window that a policy may allow: thirty days.
pub const MAX_SETTLE_TIME_LIMIT: u32 = 2_592_000;

/// What replacing the economic policy works on: the configuration record
/// and the signer, who must be the administrator.
#[derive(Clone, Debug, PartialEq, Eq)]
pub struct UpdateEconomicConfig {
    pub config: TradeConfig,
    pub admin: Pubkey,
}

/// What replacing the technical policy works on: the configuration record
/// and the signer, who must be the administrator.
#[derive(Clone, Debug, PartialEq, Eq)]
pub struct UpdateTechnicalConfig {
    pub config: TradeConfig,
    pub admin: Pubkey,
}

/// Whether an economic policy is within bounds: collateral ratios up to
/// 200%, reward up to 10%, penalty up to 100%, a positive minimum fill, and
/// a maximum order above the minimum fill and up to
/// `MAX_ORDER_AMOUNT_LIMIT`.
pub open spec fn spec_validate_economic(config: EconomicConfig) -> Result<(), TradingError> {
    if config.buyer_collateral_ratio > MAX_COLLATERAL_RATIO {
        Err(TradingError::InvalidCollateralRatio)
    } else if config.seller_collateral_ratio > MAX_COLLATERAL_RATIO {
        Err(TradingError::InvalidCollateralRatio)
    } else if config.seller_reward_bps > MAX_REWARD_BPS {
        Err(TradingError::InvalidRewardParameters)
    } else if config.late_penalty_bps > MAX_PENALTY_BPS {
        Err(TradingError::InvalidRewardParameters)
    } else if config.minimum_fill_amount == 0 {
        Err(TradingError::ZeroAmount)
    } else if config.maximum_order_amount <= config.minimum_fill_amount {
        Err(TradingError::InvalidFillAmount)
    } else if config.maximum_order_amount > MAX_ORDER_AMOUNT_LIMIT {
        Err(TradingError::ExceedOrderAmount)
    } else {
        Ok(())
    }
}

/// Whether a technical policy is within bounds: the shortest window at
/// least an hour, the longest at most thirty days and longer than the
/// shortest.
pub open spec fn spec_validate_technical(config: TechnicalConfig) -> Result<(), TradingError> {
    if config.min_settle_time < MIN_SETTLE_TIME_LIMIT {
        Err(TradingError::InvalidSettleTime)
    } else if config.max_settle_time > MAX_SETTLE_TIME_LIMIT {
        Err(TradingError::InvalidSettleTime)
    } else if config.max_settle_time <= config.min_settle_time {
        Err(TradingError::InvalidSettleTime)
    } else {
        Ok(())
    }
}

impl UpdateEconomicConfig {
    /// Whether the economic policy can be replaced by `new_config`.
    pub open spec fn spec_check(self, new_config: EconomicConfig) -> Result<(), TradingError> {
        if self.config.admin != self.admin {
            Err(TradingError::InvalidAdmin)
        } else if self.config.paused {
            Err(TradingError::TradingPaused)
        } else {
            spec_validate_economic(new_config)
        }
    }
}

impl UpdateTechnicalConfig {
    /// Whether the technical policy can be replaced by `new_config`.
    pub open spec fn spec_check(self, new_config: TechnicalConfig) -> Result<(), TradingError> {
        if self.config.admin != self.admin {
            Err(TradingError::InvalidAdmin)
        } else if self.config.paused {
            Err(TradingError::TradingPaused)
        } else {
            spec_validate_technical(new_config)
        }
    }
}

/// Replaces the economic policy at `now`. Only the administrator can, only
/// while trading is not paused, and only by a policy within bounds; else
/// nothing changes.
pub fn update_economic_handler(
    ctx: &mut UpdateEconomicConfig,
    new_config: EconomicConfig,
    now: i64,
) -> (r: Result<EconomicConfigUpdated, TradingError>)
    ensures
        match old(ctx).spec_check(new_config) {
            Ok(_) => r == Ok::<EconomicConfigUpdated, TradingError>(
                EconomicConfigUpdated {
                    admin: old(ctx).admin,
                    old_config: old(ctx).config.economic_config,
                    new_config,
                    updated_at: now,
                },
            ) && *final(ctx) == (UpdateEconomicConfig {
                config: TradeConfig { economic_config: new_config, ..old(ctx).config },
                ..*old(ctx)
            }),
            Err(e) => r == Err::<EconomicConfigUpdated, TradingError>(e) && *final(ctx) == *old(ctx),
        },
{
    if ctx.config.admin != ctx.admin {
        return Err(TradingError::InvalidAdmin);
    }
    if ctx.config.paused {
        return Err(TradingError::TradingPaused);
    }
    validate_economic_config(&new_config)?;
    let old_config = ctx.config.economic_config;
    ctx.config.economic_config = new_config;
    Ok(EconomicConfigUpdated { admin: ctx.admin, old_config, new_config, updated_at: now })
}

/// Replaces the technical policy at `now`. Only the administrator can, only
/// while trading is not paused, and only by a policy within bounds; else
/// nothing changes.
pub fn update_technical_handler(
    ctx: &mut UpdateTechnicalConfig,
    new_config: TechnicalConfig,
    now: i64,
) -> (r: Result<TechnicalConfigUpdated, TradingError>)
    ensures
        match old(ctx).spec_check(new_config) {
            Ok(_) => r == Ok::<TechnicalConfigUpdated, TradingError>(
                TechnicalConfigUpdated {
                    admin: old(ctx).admin,
                    old_config: old(ctx).config.technical_config,
                    new_config,
                    updated_at: now,
                },
            ) && *final(ctx) == (UpdateTechnicalConfig {
                config: TradeConfig { technical_config: new_config, ..old(ctx).config },
                ..*old(ctx)
            }),
            Err(e) => r == Err::<TechnicalConfigUpdated, TradingError>(e) && *final(ctx) == *old(ctx),
        },
{
    if ctx.config.admin != ctx.admin {
        return Err(TradingError::InvalidAdmin);
    }
    if ctx.config.paused {
        return Err(TradingError::TradingPaused);
    }
    validate_technical_config(&new_config)?;
    let old_config = ctx.config.technical_config;
    ctx.config.technical_config = new_config;
    Ok(TechnicalConfigUpdated { admin: ctx.admin, old_config, new_config, updated_at: now })
}

/// Checks that an economic policy is within bounds.
pub fn validate_economic_config(config: &EconomicConfig) -> (r: Result<(), TradingError>)
    ensures
        r == spec_validate_economic(*config),
{
    if config.buyer_collateral_ratio > MAX_COLLATERAL_RATIO {
        return Err(TradingError::InvalidCollateralRatio);
    }
    if config.seller_collateral_ratio > MAX_COLLATERAL_RATIO {
        return Err(TradingError::InvalidCollateralRatio);
    }
    if config.seller_reward_bps > MAX_REWARD_BPS {
        return Err(TradingError::InvalidRewardParameters);
    }
    if config.late_penalty_bps > MAX_PENALTY_BPS {
        return Err(TradingError::InvalidRewardParameters);
    }
    if config.minimum_fill_amount == 0 {
        return Err(TradingError::ZeroAmount);
    }
    if config.maximum_order_amount <= config.minimum_fill_amount {
        return Err(TradingError::InvalidFillAmount);
    }
    if config.maximum_order_amount > MAX_ORDER_AMOUNT_LIMIT {
        return Err(TradingError::ExceedOrderAmount);
    }
    Ok(())
}

/// Checks that a technical policy is within bounds.
pub fn validate_technical_config(config: &TechnicalConfig) -> (r: Result<(), TradingError>)
    ensures
        r == spec_validate_technical(*config),
{
    if config.min_settle_time < MIN_SETTLE_TIME_LIMIT {
        return Err(TradingError::InvalidSettleTime);
    }
    if config.max_settle_time > MAX_SETTLE_TIME_LIMIT {
        return Err(TradingError::InvalidSettleTime);
    }
    if config.max_settle_time <= config.min_settle_time {
        return Err(TradingError::InvalidSettleTime);
    }
    Ok(())
}

} // verus!
