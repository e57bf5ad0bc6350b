//! Admitting and dismissing relayers.
use vstd::prelude::*;
use crate::premarket_trade::error::TradingError;
use crate::premarket_trade::events::{RelayerAdded, RelayerRemoved};
use crate::premarket_trade::state::trade_config::MAX_RELAYERS;
use crate::premarket_trade::state::TradeConfig;
use crate::pubkey::{removed_first, Pubkey};

verus! {

/// What admitting and dismissing relayers work on: the configuration
/// record and the signer, who must be the administrator.
#[derive(Clone, Debug, PartialEq, Eq)]
pub struct ManageRelayers {
    pub config: TradeConfig,
    pub admin: Pubkey,
}

/// What was done to the relayer list.
#[derive(Clone, Copy, Debug, PartialEq, Eq)]
pub enum RelayerChange {
    Added(RelayerAdded),
    Removed(RelayerRemoved),
}

impl ManageRelayers {
    /// Whether `relayer` can be admitted (`add`) or dismissed (not `add`).
    pub open spec fn spec_check(self, relayer: Pubkey, add: bool) -> Result<(), TradingError> {
        if self.config.admin != self.admin {
            Err(TradingError::InvalidAdmin)
        } else if self.config.paused {
            Err(TradingError::TradingPaused)
        } else if relayer == Pubkey::spec_default() {
            Err(TradingError::InvalidTokenAddress)
        } else if add {
            if self.config.relayers@.contains(relayer) || self.config.relayers@.len()
                >= MAX_RELAYERS {
                Err(TradingError::TooManyRelayers)
            } else {
                Ok(())
            }
        } else {
            if !self.config.relayers@.contains(relayer) {
                Err(TradingError::UnauthorizedRelayer)
            } else {
                Ok(())
            }
        }
    }
}

/// Admits `relayer` at `now` where `add` is set, dismisses it where not.
///
/// Only the administrator can, and only while trading is not paused. The
/// all-zero identity is no relayer. A relayer that is admitted already, or
/// an eleventh relayer, is refused as `TooManyRelayers`; one that is to be
/// dismissed and is not admitted, as `UnauthorizedRelayer`. Where the
/// operation is refused, nothing changes. The announcement counts the
/// relayers after the change in eight bits.
pub fn handler(ctx: &mut ManageRelayers, relayer: Pubkey, add: bool, now: i64) -> (r: Result<
    RelayerChange,
    TradingError,
>)
    ensures
        match old(ctx).spec_check(relayer, add) {
            Ok(_) => if add {
                &&& final(ctx).config.relayers@ == old(ctx).config.relayers@.push(relayer)
                &&& r == Ok::<RelayerChange, TradingError>(
                    RelayerChange::Added(
                        RelayerAdded {
                            admin: old(ctx).admin,
                            relayer,
                            total_relayers: final(ctx).config.relayers@.len() as u8,
                            timestamp: now,
                        },
                    ),
                )
            } else {
                &&& removed_first(
                    old(ctx).config.relayers@,
                    relayer,
                    final(ctx).config.relayers@,
                )
                &&& old(ctx).config.wf() ==> !final(ctx).config.relayers@.contains(relayer)
                &&& r == Ok::<RelayerChange, TradingError>(
                    RelayerChange::Removed(
                        RelayerRemoved {
                            admin: old(ctx).admin,
                            relayer,
                            total_relayers: final(ctx).config.relayers@.len() as u8,
                            timestamp: now,
                        },
                    ),
                )
            },
            Err(e) => r == Err::<RelayerChange, TradingError>(e) && final(ctx).config.relayers@
                == old(ctx).config.relayers@,
        },
        final(ctx).config.same_settings(old(ctx).config),
        final(ctx).admin == old(ctx).admin,
        old(ctx).config.wf() ==> final(ctx).config.wf(),
{
    if ctx.config.admin != ctx.admin {
        return Err(TradingError::InvalidAdmin);
    }
    if ctx.config.paused {
        return Err(TradingError::TradingPaused);
    }
    if relayer.is_default() {
        return Err(TradingError::InvalidTokenAddress);
    }
    if add {
        if ctx.config.is_relayer(&relayer) {
            return Err(TradingError::TooManyRelayers);
        }
        if ctx.config.relayers.len() >= MAX_RELAYERS {
            return Err(TradingError::TooManyRelayers);
        }
        match ctx.config.add_relayer(relayer) {
            Ok(_) => {},
            Err(e) => { return Err(e); },
        }
        Ok(
            RelayerChange::Added(
                RelayerAdded {
                    admin: ctx.admin,
                    relayer,
                    total_relayers: #[verifier::truncate] (ctx.config.relayers.len() as u8),
                    timestamp: now,
                },
            ),
        )
    } else {
        if !ctx.config.is_relayer(&relayer) {
            return Err(TradingError::UnauthorizedRelayer);
        }
        match ctx.config.remove_relayer(relayer) {
            Ok(_) => {},
            Err(e) => { return Err(e); },
        }
        Ok(
            RelayerChange::Removed(
                RelayerRemoved {
                    admin: ctx.admin,
                    relayer,
                    total_relayers: #[verifier::truncate] (ctx.config.relayers.len() as u8),
                    timestamp: now,
                },
            ),
        )
    }
}

} // verus!
