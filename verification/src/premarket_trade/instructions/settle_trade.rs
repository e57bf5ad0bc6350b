//! The seller delivers: the trade is settled.
//!
//! The seller hands the real tokens to the buyer and is paid the
//! collateral and the reward out of custody. Only the seller can settle,
//! only within the settle window, and only once.
use vstd::prelude::*;
use crate::escrow_vault::events::TokensTransferredOut;
use crate::escrow_vault::instructions::transfer_out;
use crate::escrow_vault::instructions::transfer_out::PaymentRoute;
use crate::escrow_vault::state::{UserBalance, VaultAuthority, VaultConfig};
use crate::escrow_vault::utils::InstructionsSysvar;
use crate::program_ids::{instructions_sysvar_bytes, instructions_sysvar_id};
use crate::premarket_trade::common::{bps_share, spec_reward, trade_value, EconomicConfig};
use crate::premarket_trade::error::{TradeFailure, TradingError};
use crate::premarket_trade::events::TradeSettled;
use crate::premarket_trade::state::{TokenMarket, TradeConfig, TradeRecord};
use crate::pubkey::{lemma_pubkey_eq, Pubkey};
use crate::token::{TokenAccount, Transfer};

verus! {

/// What settling works on: the trade, its market, the engine's
/// configuration, the signer, and on the ledger's side the configuration,
/// the seller's record, the custody record with its address and token
/// account; then the seller's token account for the collateral, the two
/// token accounts for the real token, and what the host shows of the
/// transaction.
#[derive(Clone, Debug, PartialEq, Eq)]
pub struct SettleTrade {
    pub trade_record: TradeRecord,
    pub token_market: TokenMarket,
    pub config: TradeConfig,
    pub seller: Pubkey,
    pub vault_program: Pubkey,
    pub vault_config: VaultConfig,
    pub seller_balance: UserBalance,
    pub vault_authority: VaultAuthority,
    pub vault_authority_key: Pubkey,
    pub vault_ata: TokenAccount,
    pub seller_collateral_ata: TokenAccount,
    pub seller_token_ata: TokenAccount,
    pub buyer_token_ata: TokenAccount,
    pub instruction_sysvar: InstructionsSysvar,
}

/// What a settlement asks for: the delivery of the real tokens from the
/// seller to the buyer, the payment to the seller out of custody where
/// there is something to pay, and the announcement.
#[derive(Clone, Copy, Debug, PartialEq, Eq)]
pub struct Settlement {
    pub delivery: Transfer,
    pub release: Option<(Transfer, TokensTransferredOut)>,
    pub settled: TradeSettled,
}

/// The seller's reward and what the seller is paid in all, collateral and
/// reward together. `None` where a product or the sum does not fit in 64
/// bits.
pub open spec fn spec_settlement_amounts(
    filled_amount: u64,
    price: u64,
    seller_collateral: u64,
    economic_config: EconomicConfig,
) -> Option<(u64, u64)> {
    match spec_reward(filled_amount, price, economic_config.seller_reward_bps) {
        None => None,
        Some(reward) => if seller_collateral + reward > u64::MAX {
            None
        } else {
            Some((reward, (seller_collateral + reward) as u64))
        },
    }
}

/// Sizes the seller's reward, the part of the trade's value that the
/// reward rate makes, and what the seller is paid in all: the collateral
/// and the reward. Fails where a product or the sum does not fit in 64
/// bits.
pub fn calculate_settlement_amounts(
    filled_amount: u64,
    price: u64,
    seller_collateral: u64,
    economic_config: &EconomicConfig,
) -> (r: Result<(u64, u64), TradingError>)
    ensures
        r == match spec_settlement_amounts(filled_amount, price, seller_collateral, *economic_config) {
            Some(amounts) => Ok::<(u64, u64), TradingError>(amounts),
            None => Err::<(u64, u64), TradingError>(TradingError::MathOverflow),
        },
        r matches Ok(amounts) ==> amounts.1 == seller_collateral + amounts.0,
{
    let value = match trade_value(filled_amount, price) {
        Ok(value) => value,
        Err(_) => { return Err(TradingError::MathOverflow); },
    };
    let seller_reward = if economic_config.seller_reward_bps > 0 {
        match bps_share(value, economic_config.seller_reward_bps) {
            Ok(reward) => reward,
            Err(_) => { return Err(TradingError::MathOverflow); },
        }
    } else {
        assert(value * economic_config.seller_reward_bps == 0) by (nonlinear_arith)
            requires
                economic_config.seller_reward_bps == 0,
        ;
        0
    };
    match seller_collateral.checked_add(seller_reward) {
        Some(total) => Ok((seller_reward, total)),
        None => Err(TradingError::MathOverflow),
    }
}

impl SettleTrade {
    /// Whether the records fit together and the signer is the one who can
    /// settle this trade.
    pub open spec fn spec_check_accounts(self) -> Result<(), TradingError> {
        if self.trade_record.settled {
            Err(TradingError::TradeAlreadySettled)
        } else if self.trade_record.seller != self.seller {
            Err(TradingError::OnlySellerCanSettle)
        } else if self.token_market.token_id != self.trade_record.token_id {
            Err(TradingError::TokenMintMismatch)
        } else if self.token_market.real_mint is None {
            Err(TradingError::TokenNotMapped)
        } else if self.config.paused {
            Err(TradingError::TradingPaused)
        } else if self.vault_program != self.config.vault_program {
            Err(TradingError::VaultProgramMismatch)
        } else if self.vault_ata.mint != self.trade_record.collateral_mint {
            Err(TradingError::TokenMintMismatch)
        } else if self.seller_collateral_ata.owner != self.seller {
            Err(TradingError::InvalidAccountOwner)
        } else if self.seller_collateral_ata.mint != self.trade_record.collateral_mint {
            Err(TradingError::TokenMintMismatch)
        } else if self.seller_token_ata.owner != self.seller {
            Err(TradingError::InvalidAccountOwner)
        } else if self.seller_token_ata.mint != self.token_market.real_mint.unwrap() {
            Err(TradingError::TokenMintMismatch)
        } else if self.buyer_token_ata.owner != self.trade_record.buyer {
            Err(TradingError::InvalidAccountOwner)
        } else if self.buyer_token_ata.mint != self.token_market.real_mint.unwrap() {
            Err(TradingError::TokenMintMismatch)
        } else if self.instruction_sysvar.key@ != instructions_sysvar_bytes() {
            Err(TradingError::InvalidInstructionSysvar)
        } else {
            Ok(())
        }
    }

    /// The way of the seller's payment out of custody.
    pub open spec fn spec_route(self) -> PaymentRoute {
        PaymentRoute {
            vault_authority_key: self.vault_authority_key,
            vault_token_account: self.vault_ata,
            recipient_token_account: self.seller_collateral_ata.key,
        }
    }

    /// The delivery of the real tokens.
    pub open spec fn spec_delivery(self) -> Transfer {
        Transfer {
            from: self.seller_token_ata.key,
            to: self.buyer_token_ata.key,
            authority: self.seller,
            amount: self.trade_record.filled_amount,
        }
    }

    /// The announcement of a settlement at `now` with the reward
    /// `seller_reward`.
    pub open spec fn spec_announcement(self, seller_reward: u64, now: i64) -> TradeSettled {
        TradeSettled {
            trade_id: self.trade_record.trade_id,
            token_id: self.trade_record.token_id,
            buyer: self.trade_record.buyer,
            seller: self.trade_record.seller,
            target_mint: self.token_market.real_mint.unwrap(),
            filled_amount: self.trade_record.filled_amount,
            seller_reward,
            settlement_time: now,
        }
    }

    /// The settlement of the trade at `now`: the records after it and what
    /// it asks for, or why the trade cannot be settled.
    pub open spec fn spec_settle(self, now: i64) -> Result<(SettleTrade, Settlement), TradeFailure> {
        if self.spec_check_accounts() is Err {
            Err(TradeFailure::Trading(self.spec_check_accounts()->Err_0))
        } else if now > self.trade_record.grace_period_end(self.token_market.settle_time_limit) {
            Err(TradeFailure::Trading(TradingError::GracePeriodExpired))
        } else if self.seller_token_ata.amount < self.trade_record.filled_amount {
            Err(TradeFailure::Trading(TradingError::InsufficientBalance))
        } else {
            match spec_settlement_amounts(
                self.trade_record.filled_amount,
                self.trade_record.price,
                self.trade_record.seller_collateral,
                self.config.economic_config,
            ) {
                None => Err(TradeFailure::Trading(TradingError::MathOverflow)),
                Some((seller_reward, total)) => {
                    let resolved = TradeRecord { settled: true, ..self.trade_record };
                    if total == 0 {
                        Ok(
                            (
                                SettleTrade { trade_record: resolved, ..self },
                                Settlement {
                                    delivery: self.spec_delivery(),
                                    release: None,
                                    settled: self.spec_announcement(seller_reward, now),
                                },
                            ),
                        )
                    } else {
                        match transfer_out::spec_check(
                            self.vault_config,
                            self.seller_balance,
                            self.vault_authority,
                            self.spec_route(),
                            self.instruction_sysvar,
                            total,
                        ) {
                            Err(e) => Err(TradeFailure::Vault(e)),
                            Ok(_) => Ok(
                                (
                                    SettleTrade {
                                        trade_record: resolved,
                                        seller_balance: transfer_out::spec_balance_after(
                                            self.seller_balance,
                                            total,
                                        ),
                                        vault_authority: transfer_out::spec_authority_after(
                                            self.vault_authority,
                                            total,
                                        ),
                                        ..self
                                    },
                                    Settlement {
                                        delivery: self.spec_delivery(),
                                        release: Some(
                                            transfer_out::spec_outcome(
                                                self.vault_config,
                                                self.seller_balance,
                                                self.spec_route(),
                                                self.instruction_sysvar,
                                                self.seller,
                                                total,
                                            ),
                                        ),
                                        settled: self.spec_announcement(seller_reward, now),
                                    },
                                ),
                            ),
                        }
                    }
                },
            }
        }
    }
}

/// Checks that the records fit together and that the signer is the one
/// who can settle this trade; returns the real token of the market.
pub fn check_accounts(ctx: &SettleTrade) -> (r: Result<Pubkey, TradingError>)
    ensures
        match ctx.spec_check_accounts() {
            Ok(_) => r == Ok::<Pubkey, TradingError>(ctx.token_market.real_mint.unwrap()),
            Err(e) => r == Err::<Pubkey, TradingError>(e),
        },
{
    if ctx.trade_record.settled {
        return Err(TradingError::TradeAlreadySettled);
    }
    if ctx.trade_record.seller != ctx.seller {
        return Err(TradingError::OnlySellerCanSettle);
    }
    if ctx.token_market.token_id != ctx.trade_record.token_id {
        return Err(TradingError::TokenMintMismatch);
    }
    let real_mint = match ctx.token_market.real_mint {
        Some(real_mint) => real_mint,
        None => { return Err(TradingError::TokenNotMapped); },
    };
    if ctx.config.paused {
        return Err(TradingError::TradingPaused);
    }
    if ctx.vault_program != ctx.config.vault_program {
        return Err(TradingError::VaultProgramMismatch);
    }
    if ctx.vault_ata.mint != ctx.trade_record.collateral_mint {
        return Err(TradingError::TokenMintMismatch);
    }
    if ctx.seller_collateral_ata.owner != ctx.seller {
        return Err(TradingError::InvalidAccountOwner);
    }
    if ctx.seller_collateral_ata.mint != ctx.trade_record.collateral_mint {
        return Err(TradingError::TokenMintMismatch);
    }
    if ctx.seller_token_ata.owner != ctx.seller {
        return Err(TradingError::InvalidAccountOwner);
    }
    if ctx.seller_token_ata.mint != real_mint {
        return Err(TradingError::TokenMintMismatch);
    }
    if ctx.buyer_token_ata.owner != ctx.trade_record.buyer {
        return Err(TradingError::InvalidAccountOwner);
    }
    if ctx.buyer_token_ata.mint != real_mint {
        return Err(TradingError::TokenMintMismatch);
    }
    let expected = instructions_sysvar_id();
    proof {
        lemma_pubkey_eq(ctx.instruction_sysvar.key, expected);
    }
    if ctx.instruction_sysvar.key != expected {
        return Err(TradingError::InvalidInstructionSysvar);
    }
    Ok(real_mint)
}

/// Settles the trade at `now`.
///
/// The real tokens are to be delivered from the seller to the buyer. The
/// seller is paid the collateral and the reward out of custody, through
/// the ledger's privileged payment, unless both are nothing. The trade is
/// resolved.
///
/// A trade that is resolved already is always refused as
/// `TradeAlreadySettled`. After that the trade is refused where the signer
/// is not the seller, where the records do not fit together, where the
/// market has no real token, where trading is paused, with
/// `GracePeriodExpired` where `now` is after the settle window, where the
/// seller holds too few real tokens, where the sizing overflows, and where
/// the ledger refuses the payment. Where the trade is refused, nothing
/// changes and nothing is to be transferred.
pub fn handler(ctx: &mut SettleTrade, now: i64) -> (r: Result<Settlement, TradeFailure>)
    ensures
        match old(ctx).spec_settle(now) {
            Ok((after, asked)) => r == Ok::<Settlement, TradeFailure>(asked) && *final(ctx)
                == after,
            Err(e) => r == Err::<Settlement, TradeFailure>(e) && *final(ctx) == *old(ctx),
        },
        old(ctx).trade_record.settled ==> r == Err::<Settlement, TradeFailure>(
            TradeFailure::Trading(TradingError::TradeAlreadySettled),
        ) && *final(ctx) == *old(ctx),
        r is Ok ==> final(ctx).trade_record.settled && now <= old(ctx).trade_record.grace_period_end(
            old(ctx).token_market.settle_time_limit,
        ),
{
    let real_mint = match check_accounts(ctx) {
        Ok(real_mint) => real_mint,
        Err(e) => { return Err(TradeFailure::Trading(e)); },
    };
    if ctx.trade_record.is_grace_period_expired(ctx.token_market.settle_time_limit, now) {
        return Err(TradeFailure::Trading(TradingError::GracePeriodExpired));
    }
    if ctx.seller_token_ata.amount < ctx.trade_record.filled_amount {
        return Err(TradeFailure::Trading(TradingError::InsufficientBalance));
    }
    let delivery = Transfer {
        from: ctx.seller_token_ata.key,
        to: ctx.buyer_token_ata.key,
        authority: ctx.seller,
        amount: ctx.trade_record.filled_amount,
    };
    let (seller_reward, total_seller_release) = match calculate_settlement_amounts(
        ctx.trade_record.filled_amount,
        ctx.trade_record.price,
        ctx.trade_record.seller_collateral,
        &ctx.config.economic_config,
    ) {
        Ok(amounts) => amounts,
        Err(e) => { return Err(TradeFailure::Trading(e)); },
    };
    let release = if total_seller_release > 0 {
        match release_seller_collateral_cpi(ctx, total_seller_release) {
            Ok(paid) => Some(paid),
            Err(e) => { return Err(TradeFailure::Vault(e)); },
        }
    } else {
        None
    };
    ctx.trade_record.settled = true;
    Ok(
        Settlement {
            delivery,
            release,
            settled: TradeSettled {
                trade_id: ctx.trade_record.trade_id,
                token_id: ctx.trade_record.token_id,
                buyer: ctx.trade_record.buyer,
                seller: ctx.trade_record.seller,
                target_mint: real_mint,
                filled_amount: ctx.trade_record.filled_amount,
                seller_reward,
                settlement_time: now,
            },
        },
    )
}

/// Pays `amount` out of custody to the seller, from the seller's record,
/// through the ledger's privileged payment. Where the ledger refuses,
/// nothing changes.
pub fn release_seller_collateral_cpi(ctx: &mut SettleTrade, amount: u64) -> (r: Result<
    (Transfer, TokensTransferredOut),
    crate::escrow_vault::error::VaultError,
>)
    ensures
        match transfer_out::spec_check(
            old(ctx).vault_config,
            old(ctx).seller_balance,
            old(ctx).vault_authority,
            old(ctx).spec_route(),
            old(ctx).instruction_sysvar,
            amount,
        ) {
            Ok(_) => r == Ok::<
                (Transfer, TokensTransferredOut),
                crate::escrow_vault::error::VaultError,
            >(
                transfer_out::spec_outcome(
                    old(ctx).vault_config,
                    old(ctx).seller_balance,
                    old(ctx).spec_route(),
                    old(ctx).instruction_sysvar,
                    old(ctx).seller,
                    amount,
                ),
            ) && *final(ctx) == (SettleTrade {
                seller_balance: transfer_out::spec_balance_after(old(ctx).seller_balance, amount),
                vault_authority: transfer_out::spec_authority_after(
                    old(ctx).vault_authority,
                    amount,
                ),
                ..*old(ctx)
            }),
            Err(e) => r == Err::<
                (Transfer, TokensTransferredOut),
                crate::escrow_vault::error::VaultError,
            >(e) && *final(ctx) == *old(ctx),
        },
{
    let mut seller_balance = ctx.seller_balance;
    let mut vault_authority = ctx.vault_authority;
    let route = PaymentRoute {
        vault_authority_key: ctx.vault_authority_key,
        vault_token_account: ctx.vault_ata,
        recipient_token_account: ctx.seller_collateral_ata.key,
    };
    let paid = transfer_out::pay_out(
        &ctx.vault_config,
        &mut seller_balance,
        &mut vault_authority,
        &route,
        &ctx.instruction_sysvar,
        ctx.seller,
        amount,
    )?;
    ctx.seller_balance = seller_balance;
    ctx.vault_authority = vault_authority;
    Ok(paid)
}

} // verus!
