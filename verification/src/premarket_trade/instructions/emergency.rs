//! Pausing and resuming trading.
use vstd::prelude::*;
use crate::premarket_trade::error::TradingError;
use crate::premarket_trade::events::{TradingPaused, TradingUnpaused};
use crate::premarket_trade::state::TradeConfig;
use crate::pubkey::Pubkey;

verus! {

/// What pausing and resuming work on: the configuration record and the
/// signer, who must be the administrator.
#[derive(Clone, Debug, PartialEq, Eq)]
pub struct EmergencyControl {
    pub config: TradeConfig,
    pub admin: Pubkey,
}

impl EmergencyControl {
    /// Whether trading can be paused.
    pub open spec fn spec_check_pause(self) -> Result<(), TradingError> {
        if self.config.admin != self.admin {
            Err(TradingError::InvalidAdmin)
        } else if self.config.paused {
            Err(TradingError::TradingPaused)
        } else {
            Ok(())
        }
    }

    /// Whether trading can be resumed.
    pub open spec fn spec_check_unpause(self) -> Result<(), TradingError> {
        if self.config.admin != self.admin {
            Err(TradingError::InvalidAdmin)
        } else if !self.config.paused {
            Err(TradingError::TradingNotActive)
        } else {
            Ok(())
        }
    }

    /// The same records with the pause switch at `paused`.
    pub open spec fn with_paused(self, paused: bool) -> EmergencyControl {
        EmergencyControl { config: TradeConfig { paused, ..self.config }, ..self }
    }
}

/// Pauses trading at `now`. Only the administrator can, and only while
/// trading runs; else nothing changes.
pub fn pause_handler(ctx: &mut EmergencyControl, now: i64) -> (r: Result<
    TradingPaused,
    TradingError,
>)
    ensures
        match old(ctx).spec_check_pause() {
            Ok(_) => r == Ok::<TradingPaused, TradingError>(
                TradingPaused { admin: old(ctx).admin, timestamp: now },
            ) && *final(ctx) == old(ctx).with_paused(true),
            Err(e) => r == Err::<TradingPaused, TradingError>(e) && *final(ctx) == *old(ctx),
        },
{
    if ctx.config.admin != ctx.admin {
        return Err(TradingError::InvalidAdmin);
    }
    if ctx.config.paused {
        return Err(TradingError::TradingPaused);
    }
    ctx.config.paused = true;
    Ok(TradingPaused { admin: ctx.admin, timestamp: now })
}

/// Resumes trading at `now`. Only the administrator can, and only while
/// trading is paused; else nothing changes.
pub fn unpause_handler(ctx: &mut EmergencyControl, now: i64) -> (r: Result<
    TradingUnpaused,
    TradingError,
>)
    ensures
        match old(ctx).spec_check_unpause() {
            Ok(_) => r == Ok::<TradingUnpaused, TradingError>(
                TradingUnpaused { admin: old(ctx).admin, timestamp: now },
            ) && *final(ctx) == old(ctx).with_paused(false),
            Err(e) => r == Err::<TradingUnpaused, TradingError>(e) && *final(ctx) == *old(ctx),
        },
{
    if ctx.config.admin != ctx.admin {
        return Err(TradingError::InvalidAdmin);
    }
    if !ctx.config.paused {
        return Err(TradingError::TradingNotActive);
    }
    ctx.config.paused = false;
    Ok(TradingUnpaused { admin: ctx.admin, timestamp: now })
}

} // verus!
