//! The seller did not deliver in time: the buyer cancels the trade.
//!
//! The buyer is paid the own collateral and a penalty out of the seller's,
//! the seller what is left of it. Only the buyer can cancel, only after the
//! settle window, and only once.
use vstd::prelude::*;
use crate::escrow_vault::error::VaultError;
use crate::escrow_vault::events::TokensTransferredOut;
use crate::escrow_vault::instructions::transfer_out;
use crate::escrow_vault::instructions::transfer_out::PaymentRoute;
use crate::escrow_vault::state::{UserBalance, VaultAuthority, VaultConfig};
use crate::escrow_vault::utils::InstructionsSysvar;
use crate::program_ids::{instructions_sysvar_bytes, instructions_sysvar_id};
use crate::premarket_trade::common::{bps_share, spec_penalty, trade_value, EconomicConfig};
use crate::premarket_trade::error::{TradeFailure, TradingError};
use crate::premarket_trade::events::TradeCancelled;
use crate::premarket_trade::instructions::settle_trade::{SettleTrade, Settlement};
use crate::premarket_trade::state::{TokenMarket, TradeConfig, TradeRecord};
use crate::pubkey::{lemma_pubkey_eq, Pubkey};
use crate::token::{TokenAccount, Transfer};

verus! {

/// What cancelling works on: the trade, its market, the engine's
/// configuration, the signer, and on the ledger's side the configuration,
/// the records of both sides, the custody record with its address and
/// token account; then the token accounts of both sides for the
/// collateral, and what the host shows of the transaction.
#[derive(Clone, Debug, PartialEq, Eq)]
pub struct CancelTrade {
    pub trade_record: TradeRecord,
    pub token_market: TokenMarket,
    pub config: TradeConfig,
    pub buyer: Pubkey,
    pub vault_program: Pubkey,
    pub vault_config: VaultConfig,
    pub buyer_balance: UserBalance,
    pub seller_balance: UserBalance,
    pub vault_authority: VaultAuthority,
    pub vault_authority_key: Pubkey,
    pub vault_ata: TokenAccount,
    pub buyer_collateral_ata: TokenAccount,
    pub seller_collateral_ata: TokenAccount,
    pub instruction_sysvar: InstructionsSysvar,
}

/// What a cancellation asks for: the payment to the buyer and the payment
/// to the seller out of custody, each where there is something to pay, and
/// the announcement.
#[derive(Clone, Copy, Debug, PartialEq, Eq)]
pub struct Cancellation {
    pub buyer_payment: Option<(Transfer, TokensTransferredOut)>,
    pub seller_payment: Option<(Transfer, TokensTransferredOut)>,
    pub cancelled: TradeCancelled,
}

/// The penalty, what the buyer is paid, and what the seller is paid.
/// `None` where a product or a sum does not fit in 64 bits.
pub open spec fn spec_cancellation_amounts(
    filled_amount: u64,
    price: u64,
    buyer_collateral: u64,
    seller_collateral: u64,
    economic_config: EconomicConfig,
) -> Option<(u64, u64, u64)> {
    match spec_penalty(filled_amount, price, economic_config.late_penalty_bps, seller_collateral) {
        None => None,
        Some(penalty) => if buyer_collateral + penalty > u64::MAX {
            None
        } else {
            Some(
                (
                    penalty,
                    (buyer_collateral + penalty) as u64,
                    (seller_collateral - penalty) as u64,
                ),
            )
        },
    }
}

/// Sizes the penalty and the two payments of a cancellation.
///
/// The penalty is the part of the trade's value that the penalty rate
/// makes, but no more than the seller's collateral. The buyer is paid the
/// own collateral and the penalty, the seller the own collateral less the
/// penalty: together what both had locked, no more and no less. Fails
/// where a product or the buyer's sum does not fit in 64 bits.
pub fn calculate_cancellation_amounts(
    filled_amount: u64,
    price: u64,
    buyer_collateral: u64,
    seller_collateral: u64,
    economic_config: &EconomicConfig,
) -> (r: Result<(u64, u64, u64), TradingError>)
    ensures
        r == match spec_cancellation_amounts(
            filled_amount,
            price,
            buyer_collateral,
            seller_collateral,
            *economic_config,
        ) {
            Some(amounts) => Ok::<(u64, u64, u64), TradingError>(amounts),
            None => Err::<(u64, u64, u64), TradingError>(TradingError::MathOverflow),
        },
        r matches Ok(amounts) ==> {
            &&& amounts.0 <= seller_collateral
            &&& amounts.1 == buyer_collateral + amounts.0
            &&& amounts.2 == seller_collateral - amounts.0
            &&& amounts.1 + amounts.2 == buyer_collateral + seller_collateral
        },
{
    let value = match trade_value(filled_amount, price) {
        Ok(value) => value,
        Err(_) => { return Err(TradingError::MathOverflow); },
    };
    let penalty_amount = match bps_share(value, economic_config.late_penalty_bps) {
        Ok(penalty) => penalty,
        Err(_) => { return Err(TradingError::MathOverflow); },
    };
    let actual_penalty = if penalty_amount <= seller_collateral {
        penalty_amount
    } else {
        seller_collateral
    };
    let buyer_total = match buyer_collateral.checked_add(actual_penalty) {
        Some(total) => total,
        None => { return Err(TradingError::MathOverflow); },
    };
    let seller_remaining = seller_collateral - actual_penalty;
    Ok((actual_penalty, buyer_total, seller_remaining))
}

/// A payment of `amount` out of `user_balance`, where `amount` is not
/// nothing: the two records after it and what it asks for, or why the
/// ledger refuses it.
pub open spec fn spec_pay(
    config: VaultConfig,
    user_balance: UserBalance,
    vault_authority: VaultAuthority,
    route: PaymentRoute,
    shown: InstructionsSysvar,
    recipient: Pubkey,
    amount: u64,
) -> Result<(UserBalance, VaultAuthority, Option<(Transfer, TokensTransferredOut)>), VaultError> {
    if amount == 0 {
        Ok((user_balance, vault_authority, None))
    } else {
        match transfer_out::spec_check(config, user_balance, vault_authority, route, shown, amount) {
            Err(e) => Err(e),
            Ok(_) => Ok(
                (
                    transfer_out::spec_balance_after(user_balance, amount),
                    transfer_out::spec_authority_after(vault_authority, amount),
                    Some(
                        transfer_out::spec_outcome(
                            config,
                            user_balance,
                            route,
                            shown,
                            recipient,
                            amount,
                        ),
                    ),
                ),
            ),
        }
    }
}

impl CancelTrade {
    /// Whether the records fit together and the signer is the one who can
    /// cancel this trade.
    pub open spec fn spec_check_accounts(self) -> Result<(), TradingError> {
        if self.trade_record.settled {
            Err(TradingError::TradeAlreadySettled)
        } else if self.trade_record.buyer != self.buyer {
            Err(TradingError::OnlyBuyerCanCancel)
        } else if self.token_market.token_id != self.trade_record.token_id {
            Err(TradingError::TokenMintMismatch)
        } else if self.config.paused {
            Err(TradingError::TradingPaused)
        } else if self.vault_program != self.config.vault_program {
            Err(TradingError::VaultProgramMismatch)
        } else if self.vault_ata.mint != self.trade_record.collateral_mint {
            Err(TradingError::TokenMintMismatch)
        } else if self.buyer_collateral_ata.owner != self.buyer {
            Err(TradingError::InvalidAccountOwner)
        } else if self.buyer_collateral_ata.mint != self.trade_record.collateral_mint {
            Err(TradingError::TokenMintMismatch)
        } else if self.seller_collateral_ata.owner != self.trade_record.seller {
            Err(TradingError::InvalidAccountOwner)
        } else if self.seller_collateral_ata.mint != self.trade_record.collateral_mint {
            Err(TradingError::TokenMintMismatch)
        } else if self.instruction_sysvar.key@ != instructions_sysvar_bytes() {
            Err(TradingError::InvalidInstructionSysvar)
        } else {
            Ok(())
        }
    }

    /// The way of the buyer's payment out of custody.
    pub open spec fn spec_buyer_route(self) -> PaymentRoute {
        PaymentRoute {
            vault_authority_key: self.vault_authority_key,
            vault_token_account: self.vault_ata,
            recipient_token_account: self.buyer_collateral_ata.key,
        }
    }

    /// The way of the seller's payment out of custody.
    pub open spec fn spec_seller_route(self) -> PaymentRoute {
        PaymentRoute {
            vault_authority_key: self.vault_authority_key,
            vault_token_account: self.vault_ata,
            recipient_token_account: self.seller_collateral_ata.key,
        }
    }

    /// The announcement of a cancellation at `now` with the penalty
    /// `penalty_amount`.
    pub open spec fn spec_announcement(self, penalty_amount: u64, now: i64) -> TradeCancelled {
        TradeCancelled {
            trade_id: self.trade_record.trade_id,
            token_id: self.trade_record.token_id,
            buyer: self.trade_record.buyer,
            seller: self.trade_record.seller,
            penalty_amount,
            cancellation_time: now,
        }
    }

    /// The cancellation of the trade at `now`: the records after it and
    /// what it asks for, or why the trade cannot be cancelled.
    pub open spec fn spec_cancel(self, now: i64) -> Result<
        (CancelTrade, Cancellation),
        TradeFailure,
    > {
        if self.spec_check_accounts() is Err {
            Err(TradeFailure::Trading(self.spec_check_accounts()->Err_0))
        } else if now <= self.trade_record.grace_period_end(self.token_market.settle_time_limit) {
            Err(TradeFailure::Trading(TradingError::GracePeriodActive))
        } else {
            match spec_cancellation_amounts(
                self.trade_record.filled_amount,
                self.trade_record.price,
                self.trade_record.buyer_collateral,
                self.trade_record.seller_collateral,
                self.config.economic_config,
            ) {
                None => Err(TradeFailure::Trading(TradingError::MathOverflow)),
                Some((penalty, buyer_total, seller_remaining)) => match spec_pay(
                    self.vault_config,
                    self.buyer_balance,
                    self.vault_authority,
                    self.spec_buyer_route(),
                    self.instruction_sysvar,
                    self.buyer,
                    buyer_total,
                ) {
                    Err(e) => Err(TradeFailure::Vault(e)),
                    Ok((buyer_balance, authority, buyer_payment)) => match spec_pay(
                        self.vault_config,
                        self.seller_balance,
                        authority,
                        self.spec_seller_route(),
                        self.instruction_sysvar,
                        self.trade_record.seller,
                        seller_remaining,
                    ) {
                        Err(e) => Err(TradeFailure::Vault(e)),
                        Ok((seller_balance, vault_authority, seller_payment)) => Ok(
                            (
                                CancelTrade {
                                    trade_record: TradeRecord {
                                        settled: true,
                                        ..self.trade_record
                                    },
                                    buyer_balance,
                                    seller_balance,
                                    vault_authority,
                                    ..self
                                },
                                Cancellation {
                                    buyer_payment,
                                    seller_payment,
                                    cancelled: self.spec_announcement(penalty, now),
                                },
                            ),
                        ),
                    },
                },
            }
        }
    }
}

/// Checks that the records fit together and that the signer is the one
/// who can cancel this trade.
pub fn check_accounts(ctx: &CancelTrade) -> (r: Result<(), TradingError>)
    ensures
        r == ctx.spec_check_accounts(),
{
    if ctx.trade_record.settled {
        return Err(TradingError::TradeAlreadySettled);
    }
    if ctx.trade_record.buyer != ctx.buyer {
        return Err(TradingError::OnlyBuyerCanCancel);
    }
    if ctx.token_market.token_id != ctx.trade_record.token_id {
        return Err(TradingError::TokenMintMismatch);
    }
    if ctx.config.paused {
        return Err(TradingError::TradingPaused);
    }
    if ctx.vault_program != ctx.config.vault_program {
        return Err(TradingError::VaultProgramMismatch);
    }
    if ctx.vault_ata.mint != ctx.trade_record.collateral_mint {
        return Err(TradingError::TokenMintMismatch);
    }
    if ctx.buyer_collateral_ata.owner != ctx.buyer {
        return Err(TradingError::InvalidAccountOwner);
    }
    if ctx.buyer_collateral_ata.mint != ctx.trade_record.collateral_mint {
        return Err(TradingError::TokenMintMismatch);
    }
    if ctx.seller_collateral_ata.owner != ctx.trade_record.seller {
        return Err(TradingError::InvalidAccountOwner);
    }
    if ctx.seller_collateral_ata.mint != ctx.trade_record.collateral_mint {
        return Err(TradingError::TokenMintMismatch);
    }
    let expected = instructions_sysvar_id();
    proof {
        lemma_pubkey_eq(ctx.instruction_sysvar.key, expected);
    }
    if ctx.instruction_sysvar.key != expected {
        return Err(TradingError::InvalidInstructionSysvar);
    }
    Ok(())
}

/// Cancels the trade at `now`.
///
/// The buyer is paid the own collateral and the penalty, the seller what
/// the penalty leaves of the own collateral, each out of custody through
/// the ledger's privileged payment and each unless it is nothing. The
/// trade is resolved.
///
/// A trade that is resolved already is always refused as
/// `TradeAlreadySettled`. After that the trade is refused where the signer
/// is not the buyer, where the records do not fit together, where trading
/// is paused, with `GracePeriodActive` where `now` is still within the
/// settle window, where the sizing overflows, and where the ledger refuses
/// a payment. Where the trade is refused, nothing changes and nothing is to
/// be transferred.
pub fn handler(ctx: &mut CancelTrade, now: i64) -> (r: Result<Cancellation, TradeFailure>)
    ensures
        match old(ctx).spec_cancel(now) {
            Ok((after, asked)) => r == Ok::<Cancellation, TradeFailure>(asked) && *final(ctx)
                == after,
            Err(e) => r == Err::<Cancellation, TradeFailure>(e) && *final(ctx) == *old(ctx),
        },
        old(ctx).trade_record.settled ==> r == Err::<Cancellation, TradeFailure>(
            TradeFailure::Trading(TradingError::TradeAlreadySettled),
        ) && *final(ctx) == *old(ctx),
        r is Ok ==> {
            &&& final(ctx).trade_record.settled
            &&& now > old(ctx).trade_record.grace_period_end(
                old(ctx).token_market.settle_time_limit,
            )
            &&& old(ctx).buyer_balance.balance + old(ctx).seller_balance.balance
                - final(ctx).buyer_balance.balance - final(ctx).seller_balance.balance
                == old(ctx).trade_record.buyer_collateral + old(ctx).trade_record.seller_collateral
            &&& old(ctx).vault_authority.total_deposits - final(ctx).vault_authority.total_deposits
                == old(ctx).trade_record.buyer_collateral + old(ctx).trade_record.seller_collateral
        },
{
    match check_accounts(ctx) {
        Ok(_) => {},
        Err(e) => { return Err(TradeFailure::Trading(e)); },
    }
    if !ctx.trade_record.is_grace_period_expired(ctx.token_market.settle_time_limit, now) {
        return Err(TradeFailure::Trading(TradingError::GracePeriodActive));
    }
    let (penalty_amount, buyer_total, seller_remaining) = match calculate_cancellation_amounts(
        ctx.trade_record.filled_amount,
        ctx.trade_record.price,
        ctx.trade_record.buyer_collateral,
        ctx.trade_record.seller_collateral,
        &ctx.config.economic_config,
    ) {
        Ok(amounts) => amounts,
        Err(e) => { return Err(TradeFailure::Trading(e)); },
    };
    let saved_buyer = ctx.buyer_balance;
    let saved_authority = ctx.vault_authority;
    let buyer_payment = if buyer_total > 0 {
        match transfer_collateral_to_buyer_cpi(ctx, buyer_total) {
            Ok(paid) => Some(paid),
            Err(e) => { return Err(TradeFailure::Vault(e)); },
        }
    } else {
        None
    };
    let seller_payment = if seller_remaining > 0 {
        match transfer_collateral_to_seller_cpi(ctx, seller_remaining) {
            Ok(paid) => Some(paid),
            Err(e) => {
                ctx.buyer_balance = saved_buyer;
                ctx.vault_authority = saved_authority;
                return Err(TradeFailure::Vault(e));
            },
        }
    } else {
        None
    };
    ctx.trade_record.settled = true;
    Ok(
        Cancellation {
            buyer_payment,
            seller_payment,
            cancelled: TradeCancelled {
                trade_id: ctx.trade_record.trade_id,
                token_id: ctx.trade_record.token_id,
                buyer: ctx.trade_record.buyer,
                seller: ctx.trade_record.seller,
                penalty_amount,
                cancellation_time: now,
            },
        },
    )
}

/// Pays `amount` out of custody to the buyer, from the buyer's record,
/// through the ledger's privileged payment. Where the ledger refuses,
/// nothing changes.
pub fn transfer_collateral_to_buyer_cpi(ctx: &mut CancelTrade, amount: u64) -> (r: Result<
    (Transfer, TokensTransferredOut),
    VaultError,
>)
    ensures
        match transfer_out::spec_check(
            old(ctx).vault_config,
            old(ctx).buyer_balance,
            old(ctx).vault_authority,
            old(ctx).spec_buyer_route(),
            old(ctx).instruction_sysvar,
            amount,
        ) {
            Ok(_) => r == Ok::<(Transfer, TokensTransferredOut), VaultError>(
                transfer_out::spec_outcome(
                    old(ctx).vault_config,
                    old(ctx).buyer_balance,
                    old(ctx).spec_buyer_route(),
                    old(ctx).instruction_sysvar,
                    old(ctx).buyer,
                    amount,
                ),
            ) && *final(ctx) == (CancelTrade {
                buyer_balance: transfer_out::spec_balance_after(old(ctx).buyer_balance, amount),
                vault_authority: transfer_out::spec_authority_after(
                    old(ctx).vault_authority,
                    amount,
                ),
                ..*old(ctx)
            }),
            Err(e) => r == Err::<(Transfer, TokensTransferredOut), VaultError>(e) && *final(ctx)
                == *old(ctx),
        },
{
    let mut buyer_balance = ctx.buyer_balance;
    let mut vault_authority = ctx.vault_authority;
    let route = PaymentRoute {
        vault_authority_key: ctx.vault_authority_key,
        vault_token_account: ctx.vault_ata,
        recipient_token_account: ctx.buyer_collateral_ata.key,
    };
    let paid = transfer_out::pay_out(
        &ctx.vault_config,
        &mut buyer_balance,
        &mut vault_authority,
        &route,
        &ctx.instruction_sysvar,
        ctx.buyer,
        amount,
    )?;
    ctx.buyer_balance = buyer_balance;
    ctx.vault_authority = vault_authority;
    Ok(paid)
}

/// Pays `amount` out of custody to the seller, from the seller's record,
/// through the ledger's privileged payment. Where the ledger refuses,
/// nothing changes.
pub fn transfer_collateral_to_seller_cpi(ctx: &mut CancelTrade, amount: u64) -> (r: Result<
    (Transfer, TokensTransferredOut),
    VaultError,
>)
    ensures
        match transfer_out::spec_check(
            old(ctx).vault_config,
            old(ctx).seller_balance,
            old(ctx).vault_authority,
            old(ctx).spec_seller_route(),
            old(ctx).instruction_sysvar,
            amount,
        ) {
            Ok(_) => r == Ok::<(Transfer, TokensTransferredOut), VaultError>(
                transfer_out::spec_outcome(
                    old(ctx).vault_config,
                    old(ctx).seller_balance,
                    old(ctx).spec_seller_route(),
                    old(ctx).instruction_sysvar,
                    old(ctx).trade_record.seller,
                    amount,
                ),
            ) && *final(ctx) == (CancelTrade {
                seller_balance: transfer_out::spec_balance_after(old(ctx).seller_balance, amount),
                vault_authority: transfer_out::spec_authority_after(
                    old(ctx).vault_authority,
                    amount,
                ),
                ..*old(ctx)
            }),
            Err(e) => r == Err::<(Transfer, TokensTransferredOut), VaultError>(e) && *final(ctx)
                == *old(ctx),
        },
{
    let mut seller_balance = ctx.seller_balance;
    let mut vault_authority = ctx.vault_authority;
    let route = PaymentRoute {
        vault_authority_key: ctx.vault_authority_key,
        vault_token_account: ctx.vault_ata,
        recipient_token_account: ctx.seller_collateral_ata.key,
    };
    let paid = transfer_out::pay_out(
        &ctx.vault_config,
        &mut seller_balance,
        &mut vault_authority,
        &route,
        &ctx.instruction_sysvar,
        ctx.trade_record.seller,
        amount,
    )?;
    ctx.seller_balance = seller_balance;
    ctx.vault_authority = vault_authority;
    Ok(paid)
}

/// A cancellation creates and destroys nothing: whatever the trade, the
/// policy and the collateral of the two sides, the penalty is no more than
/// the seller had locked, and the two payments together are what the two
/// sides had locked together.
pub proof fn lemma_cancellation_conserves(
    filled_amount: u64,
    price: u64,
    buyer_collateral: u64,
    seller_collateral: u64,
    economic_config: EconomicConfig,
)
    requires
        spec_cancellation_amounts(
            filled_amount,
            price,
            buyer_collateral,
            seller_collateral,
            economic_config,
        ) is Some,
    ensures
        ({
            let (penalty, buyer_total, seller_remaining) = spec_cancellation_amounts(
                filled_amount,
                price,
                buyer_collateral,
                seller_collateral,
                economic_config,
            ).unwrap();
            &&& penalty <= seller_collateral
            &&& buyer_total == buyer_collateral + penalty
            &&& seller_remaining == seller_collateral - penalty
            &&& buyer_total + seller_remaining == buyer_collateral + seller_collateral
        }),
{
}

/// A trade is settled or cancelled, never both at one time: while the
/// seller can still settle, the buyer cannot cancel yet, and once the buyer
/// can cancel, the seller can no longer settle.
pub proof fn lemma_settle_and_cancel_exclude(settling: SettleTrade, cancelling: CancelTrade, now: i64)
    requires
        settling.trade_record == cancelling.trade_record,
        settling.token_market.settle_time_limit == cancelling.token_market.settle_time_limit,
    ensures
        !(settling.spec_settle(now) is Ok && cancelling.spec_cancel(now) is Ok),
{
}

/// A trade is resolved once: after a settlement or a cancellation that
/// succeeded, every further settlement and every further cancellation of
/// the trade is refused as `TradeAlreadySettled`, whoever asks and
/// whenever.
pub proof fn lemma_resolved_once(
    resolved: TradeRecord,
    settling: SettleTrade,
    cancelling: CancelTrade,
    now: i64,
)
    requires
        resolved.settled,
        settling.trade_record == resolved,
        cancelling.trade_record == resolved,
    ensures
        settling.spec_settle(now) == Err::<(SettleTrade, Settlement), TradeFailure>(
            TradeFailure::Trading(TradingError::TradeAlreadySettled),
        ),
        cancelling.spec_cancel(now) == Err::<(CancelTrade, Cancellation), TradeFailure>(
            TradeFailure::Trading(TradingError::TradeAlreadySettled),
        ),
{
}

/// A settlement and a cancellation that succeed leave the trade resolved.
pub proof fn lemma_resolving_resolves(settling: SettleTrade, cancelling: CancelTrade, now: i64)
    ensures
        settling.spec_settle(now) matches Ok((after, _)) ==> after.trade_record.settled,
        cancelling.spec_cancel(now) matches Ok((after, _)) ==> after.trade_record.settled,
{
}

} // verus!
