//! Setting the engine up.
use vstd::prelude::*;
use crate::premarket_trade::common::{EconomicConfig, TechnicalConfig};
use crate::premarket_trade::error::TradingError;
use crate::premarket_trade::state::TradeConfig;
use crate::pubkey::Pubkey;

verus! {

/// What setting up works on: the signer, who becomes the administrator, and
/// the configuration record, which the host has just created under the
/// address with the bump `trade_config_bump`.
#[derive(Clone, Debug, PartialEq, Eq)]
pub struct InitializeTrading {
    pub admin: Pubkey,
    pub trade_config: TradeConfig,
    pub trade_config_bump: u8,
}

/// Sets the engine up for the ledger `vault_program` with the two
/// policies: the signer administers it, trading is not paused, and no
/// relayer is admitted.
pub fn handler(
    ctx: &mut InitializeTrading,
    vault_program: Pubkey,
    economic_config: EconomicConfig,
    technical_config: TechnicalConfig,
) -> (r: Result<(), TradingError>)
    ensures
        r is Ok,
        final(ctx).trade_config.admin == old(ctx).admin,
        final(ctx).trade_config.vault_program == vault_program,
        final(ctx).trade_config.relayers@ == Seq::<Pubkey>::empty(),
        final(ctx).trade_config.economic_config == economic_config,
        final(ctx).trade_config.technical_config == technical_config,
        !final(ctx).trade_config.paused,
        final(ctx).trade_config.bump == old(ctx).trade_config_bump,
        final(ctx).trade_config.wf(),
        final(ctx).admin == old(ctx).admin,
        final(ctx).trade_config_bump == old(ctx).trade_config_bump,
{
    let admin = ctx.admin;
    let bump = ctx.trade_config_bump;
    ctx.trade_config.initialize(admin, vault_program, economic_config, technical_config, bump);
    Ok(())
}

} // verus!
