//! A trader cancels an order before it is matched.
//!
//! The order's record is marked as cancelled, and what is locked for the
//! part that was not filled is added to the trader's available balance
//! again: a credit within the ledger, not a payment out of custody.
use vstd::prelude::*;
use crate::digest::sha256;
use crate::escrow_vault::error::VaultError;
use crate::escrow_vault::events::BalanceCredited;
use crate::escrow_vault::instructions::credit_balance;
use crate::escrow_vault::state::{UserBalance, VaultAuthority, VaultConfig};
use crate::escrow_vault::utils::InstructionsSysvar;
use crate::program_ids::{instructions_sysvar_bytes, instructions_sysvar_id};
use crate::premarket_trade::common::{
    bps_share, order_message, spec_collateral, trade_value, EconomicConfig, PreOrder,
};
use crate::premarket_trade::error::{TradeFailure, TradingError};
use crate::premarket_trade::events::OrderCancelled;
use crate::premarket_trade::state::order_status::lemma_release_bounded;
use crate::premarket_trade::state::{
    OrderStatus, OrderStatusType, OrderType, TokenMarket, TradeConfig,
};
use crate::premarket_trade::utils::calculate_order_hash;
use crate::pubkey::{lemma_pubkey_eq, Pubkey};
use crate::token::TokenAccount;

verus! {

/// What cancelling an order works on: the order's record, which the host
/// keeps under the order's name at `order_status_key` and would write
/// under the address with the bump `order_status_bump`; the market, the
/// engine's configuration, the signer, and on the ledger's side the
/// configuration, the trader's record and the custody record; then the
/// trader's token account for the collateral, and what the host shows of
/// the transaction.
#[derive(Clone, Debug, PartialEq, Eq)]
pub struct CancelOrder {
    pub order_status: OrderStatus,
    pub order_status_key: Pubkey,
    pub order_status_bump: u8,
    pub token_market: TokenMarket,
    pub config: TradeConfig,
    pub trader: Pubkey,
    pub vault_program: Pubkey,
    pub vault_config: VaultConfig,
    pub trader_balance: UserBalance,
    pub vault_authority: VaultAuthority,
    pub trader_collateral_ata: TokenAccount,
    pub instruction_sysvar: InstructionsSysvar,
}

/// What a cancelled order announces: the credit in the ledger, where
/// something was unlocked, and the cancellation.
#[derive(Clone, Copy, Debug, PartialEq, Eq)]
pub struct OrderCancellation {
    pub unlocked: Option<BalanceCredited>,
    pub cancelled: OrderCancelled,
}

/// The collateral ratio of an order's side.
pub open spec fn spec_side_ratio(is_buy: bool, economic_config: EconomicConfig) -> u16 {
    if is_buy {
        economic_config.buyer_collateral_ratio
    } else {
        economic_config.seller_collateral_ratio
    }
}

/// Sizes the collateral of an order of `amount` units at `price`: the part
/// of the order's value that the collateral ratio of its side makes. Fails
/// where a product does not fit in 64 bits.
pub fn calculate_order_collateral(
    amount: u64,
    price: u64,
    is_buy: bool,
    economic_config: &EconomicConfig,
) -> (r: Result<u64, TradingError>)
    ensures
        r == match spec_collateral(amount, price, spec_side_ratio(is_buy, *economic_config)) {
            Some(collateral) => Ok::<u64, TradingError>(collateral),
            None => Err::<u64, TradingError>(TradingError::MathOverflow),
        },
{
    let value = match trade_value(amount, price) {
        Ok(value) => value,
        Err(_) => { return Err(TradingError::MathOverflow); },
    };
    let collateral_ratio = if is_buy {
        economic_config.buyer_collateral_ratio
    } else {
        economic_config.seller_collateral_ratio
    };
    match bps_share(value, collateral_ratio) {
        Ok(collateral) => Ok(collateral),
        Err(_) => Err(TradingError::MathOverflow),
    }
}

impl CancelOrder {
    /// Whether the records fit `order` and the signer is its trader.
    pub open spec fn spec_check_accounts(self, order: PreOrder) -> Result<(), TradingError> {
        if self.token_market.token_id != order.token_id {
            Err(TradingError::TokenMintMismatch)
        } else if self.config.paused {
            Err(TradingError::TradingPaused)
        } else if self.trader != order.trader {
            Err(TradingError::InvalidOrderOwner)
        } else if self.vault_program != self.config.vault_program {
            Err(TradingError::VaultProgramMismatch)
        } else if self.trader_collateral_ata.owner != self.trader {
            Err(TradingError::InvalidAccountOwner)
        } else if self.trader_collateral_ata.mint != order.collateral_token {
            Err(TradingError::TokenMintMismatch)
        } else if self.instruction_sysvar.key@ != instructions_sysvar_bytes() {
            Err(TradingError::InvalidInstructionSysvar)
        } else {
            Ok(())
        }
    }

    /// The order's record as the cancellation finds it, or starts it at
    /// `now` with `collateral_locked` as the order's collateral.
    pub open spec fn spec_opened(
        self,
        order: PreOrder,
        collateral_locked: u64,
        now: i64,
    ) -> OrderStatus {
        if self.order_status.user == Pubkey::spec_default() {
            OrderStatus {
                order_id: self.order_status_key,
                token_market: order.token_id,
                user: order.trader,
                order_type: if order.is_buy {
                    OrderType::Buy
                } else {
                    OrderType::Sell
                },
                original_quantity: order.amount,
                filled_quantity: 0,
                collateral_locked,
                created_at: now,
                expires_at: order.deadline,
                status: OrderStatusType::Active,
                bump: self.order_status_bump,
            }
        } else {
            self.order_status
        }
    }

    /// The order's record as it is cancelled at `now`, and what is
    /// unlocked; or why the order cannot be cancelled.
    pub open spec fn spec_cancelled(self, order: PreOrder, now: i64) -> Result<
        (OrderStatus, u64),
        TradingError,
    > {
        let sized = spec_collateral(
            order.amount,
            order.price,
            spec_side_ratio(order.is_buy, self.config.economic_config),
        );
        let opened = self.spec_opened(
            order,
            if sized is Some {
                sized.unwrap()
            } else {
                0
            },
            now,
        );
        if self.spec_check_accounts(order) is Err {
            Err(self.spec_check_accounts(order)->Err_0)
        } else if now > order.deadline {
            Err(TradingError::OrderExpired)
        } else if self.order_status.user == Pubkey::spec_default() && sized is None {
            Err(TradingError::MathOverflow)
        } else if opened.status == OrderStatusType::Cancelled {
            Err(TradingError::OrderAlreadyCancelled)
        } else if opened.filled_quantity >= opened.original_quantity {
            Err(TradingError::OrderAlreadyFilled)
        } else if opened.spec_cancel() is Err {
            Err(opened.spec_cancel()->Err_0)
        } else {
            Ok(
                (
                    opened.spec_cancel()->Ok_0,
                    opened.spec_collateral_to_release(opened.spec_remaining()) as u64,
                ),
            )
        }
    }

    /// The cancellation of `order` at `now`: the records after it and the
    /// credit in the ledger, or why the order cannot be cancelled.
    pub open spec fn spec_cancel(self, order: PreOrder, now: i64) -> Result<
        (CancelOrder, Option<BalanceCredited>),
        TradeFailure,
    > {
        match self.spec_cancelled(order, now) {
            Err(e) => Err(TradeFailure::Trading(e)),
            Ok((order_status, unlock)) => if unlock == 0 {
                Ok((CancelOrder { order_status, ..self }, None))
            } else {
                match credit_balance::spec_check(
                    self.vault_config,
                    self.trader_balance,
                    self.instruction_sysvar,
                    unlock,
                ) {
                    Err(e) => Err(TradeFailure::Vault(e)),
                    Ok(_) => Ok(
                        (
                            CancelOrder {
                                order_status,
                                trader_balance: credit_balance::spec_after(
                                    self.trader_balance,
                                    unlock,
                                ),
                                ..self
                            },
                            Some(
                                credit_balance::spec_outcome(
                                    self.vault_config,
                                    self.trader_balance,
                                    self.instruction_sysvar,
                                    unlock,
                                ),
                            ),
                        ),
                    ),
                }
            },
        }
    }
}

/// Checks the records against `order`, finds or starts the order's record,
/// and cancels it: returns the record as cancelled and what is to be
/// unlocked.
pub fn cancelled_order(ctx: &CancelOrder, order: &PreOrder, now: i64) -> (r: Result<
    (OrderStatus, u64),
    TradingError,
>)
    ensures
        r == ctx.spec_cancelled(*order, now),
{
    if ctx.token_market.token_id != order.token_id {
        return Err(TradingError::TokenMintMismatch);
    }
    if ctx.config.paused {
        return Err(TradingError::TradingPaused);
    }
    if ctx.trader != order.trader {
        return Err(TradingError::InvalidOrderOwner);
    }
    if ctx.vault_program != ctx.config.vault_program {
        return Err(TradingError::VaultProgramMismatch);
    }
    if ctx.trader_collateral_ata.owner != ctx.trader {
        return Err(TradingError::InvalidAccountOwner);
    }
    if ctx.trader_collateral_ata.mint != order.collateral_token {
        return Err(TradingError::TokenMintMismatch);
    }
    let expected = instructions_sysvar_id();
    proof {
        lemma_pubkey_eq(ctx.instruction_sysvar.key, expected);
    }
    if ctx.instruction_sysvar.key != expected {
        return Err(TradingError::InvalidInstructionSysvar);
    }
    if now > order.deadline {
        return Err(TradingError::OrderExpired);
    }
    let mut order_status = ctx.order_status;
    if order_status.user.is_default() {
        let order_type = if order.is_buy {
            OrderType::Buy
        } else {
            OrderType::Sell
        };
        let collateral_amount = calculate_order_collateral(
            order.amount,
            order.price,
            order.is_buy,
            &ctx.config.economic_config,
        )?;
        order_status.initialize(
            ctx.order_status_key,
            order.token_id,
            order.trader,
            order_type,
            order.amount,
            collateral_amount,
            order.deadline,
            ctx.order_status_bump,
            now,
        );
    }
    match order_status.status {
        OrderStatusType::Cancelled => { return Err(TradingError::OrderAlreadyCancelled); },
        _ => {},
    }
    if order_status.filled_quantity >= order_status.original_quantity {
        return Err(TradingError::OrderAlreadyFilled);
    }
    let remaining_amount = order_status.remaining_quantity();
    proof {
        lemma_release_bounded(order_status, remaining_amount);
    }
    let collateral_to_unlock = order_status.collateral_to_release(remaining_amount);
    order_status.cancel_order()?;
    Ok((order_status, collateral_to_unlock))
}

/// Cancels `order` at `now`.
///
/// The order's record is found, or started from the order where there is
/// none yet, and marked as cancelled. What is locked for the part that was
/// not filled, the same part of the order's collateral, is added to the
/// trader's available balance through the ledger's privileged credit,
/// unless it is nothing.
///
/// Refused where the records do not fit the order, where trading is
/// paused, where the signer is not the order's trader, where `now` is after
/// the order's deadline, where the sizing overflows, where the order is
/// cancelled, filled or expired already, and where the ledger refuses the
/// credit. Where the cancellation is refused, nothing changes.
pub fn handler(ctx: &mut CancelOrder, order: PreOrder, now: i64) -> (r: Result<
    OrderCancellation,
    TradeFailure,
>)
    ensures
        match old(ctx).spec_cancel(order, now) {
            Ok((after, unlocked)) => {
                &&& *final(ctx) == after
                &&& r matches Ok(done)
                &&& done.unlocked == unlocked
                &&& done.cancelled.order_hash@ == sha256(order_message(order))
                &&& done.cancelled.trader == order.trader
                &&& done.cancelled.token_id == order.token_id
                &&& done.cancelled.collateral_released == old(ctx).spec_cancelled(order, now)->Ok_0.1
                &&& done.cancelled.cancellation_time == now
            },
            Err(e) => r == Err::<OrderCancellation, TradeFailure>(e) && *final(ctx) == *old(ctx),
        },
{
    let (order_status, collateral_to_unlock) = match cancelled_order(ctx, &order, now) {
        Ok(found) => found,
        Err(e) => { return Err(TradeFailure::Trading(e)); },
    };
    let unlocked = if collateral_to_unlock > 0 {
        match unlock_order_collateral_cpi(ctx, collateral_to_unlock) {
            Ok(credited) => Some(credited),
            Err(e) => { return Err(TradeFailure::Vault(e)); },
        }
    } else {
        None
    };
    ctx.order_status = order_status;
    Ok(
        OrderCancellation {
            unlocked,
            cancelled: OrderCancelled {
                order_hash: calculate_order_hash(&order),
                trader: order.trader,
                token_id: order.token_id,
                collateral_released: collateral_to_unlock,
                cancellation_time: now,
            },
        },
    )
}

/// Adds `amount` to the trader's available balance through the ledger's
/// privileged operation. Where the ledger refuses, nothing changes.
pub fn unlock_order_collateral_cpi(ctx: &mut CancelOrder, amount: u64) -> (r: Result<
    BalanceCredited,
    VaultError,
>)
    ensures
        match credit_balance::spec_check(
            old(ctx).vault_config,
            old(ctx).trader_balance,
            old(ctx).instruction_sysvar,
            amount,
        ) {
            Ok(_) => r == Ok::<BalanceCredited, VaultError>(
                credit_balance::spec_outcome(
                    old(ctx).vault_config,
                    old(ctx).trader_balance,
                    old(ctx).instruction_sysvar,
                    amount,
                ),
            ) && *final(ctx) == (CancelOrder {
                trader_balance: credit_balance::spec_after(old(ctx).trader_balance, amount),
                ..*old(ctx)
            }),
            Err(e) => r == Err::<BalanceCredited, VaultError>(e) && *final(ctx) == *old(ctx),
        },
{
    let mut trader_balance = ctx.trader_balance;
    let credited = credit_balance::credit(
        &ctx.vault_config,
        &mut trader_balance,
        &ctx.instruction_sysvar,
        amount,
    )?;
    ctx.trader_balance = trader_balance;
    Ok(credited)
}

} // verus!
