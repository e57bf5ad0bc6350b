//! Two orders are matched: a trade begins.
//!
//! A relayer presents a buy order and a sell order that fit together. The
//! fill is sized, the collateral of both sides is sized at the buyer's
//! price and locked in the ledger, and the trade is recorded. Both locks
//! succeed, or there is no trade.
use vstd::prelude::*;
use crate::digest::sha256;
use crate::escrow_vault::error::VaultError;
use crate::escrow_vault::events::BalanceSlashed;
use crate::escrow_vault::instructions::slash_balance;
use crate::escrow_vault::state::{UserBalance, VaultAuthority, VaultConfig};
use crate::escrow_vault::utils::InstructionsSysvar;
use crate::program_ids::{instructions_sysvar_bytes, instructions_sysvar_id};
use crate::premarket_trade::common::{
    bps_share, order_message, spec_collateral, trade_value, EconomicConfig, PreOrder,
};
use crate::premarket_trade::error::{TradeFailure, TradingError};
use crate::premarket_trade::events::OrdersMatched;
use crate::premarket_trade::state::{TokenMarket, TradeConfig, TradeRecord};
use crate::premarket_trade::utils::{
    calculate_fill_amount, calculate_order_hash, can_match_orders, spec_can_match,
    spec_fill_amount, spec_validate_deadline, validate_order_deadline,
};
use crate::pubkey::{lemma_pubkey_eq, Pubkey};
use crate::token::TokenAccount;

verus! {

/// What matching works on: the trade's record with the address under
/// which the host keeps it, the market with its address, the engine's
/// configuration, the signer, who must be a relayer, and on the ledger's
/// side the configuration, the records of the two traders and the custody
/// record; then the token accounts of both traders for the collateral, and
/// what the host shows of the transaction.
#[derive(Clone, Debug, PartialEq, Eq)]
pub struct MatchOrders {
    pub trade_record: TradeRecord,
    pub trade_record_key: Pubkey,
    pub token_market: TokenMarket,
    pub token_market_key: Pubkey,
    pub config: TradeConfig,
    pub relayer: Pubkey,
    pub vault_program: Pubkey,
    pub vault_config: VaultConfig,
    pub buyer_balance: UserBalance,
    pub seller_balance: UserBalance,
    pub vault_authority: VaultAuthority,
    pub buyer_collateral_ata: TokenAccount,
    pub seller_collateral_ata: TokenAccount,
    pub instruction_sysvar: InstructionsSysvar,
}

/// What a match announces: the two locks in the ledger and the trade.
#[derive(Clone, Copy, Debug, PartialEq, Eq)]
pub struct Match {
    pub buyer_lock: BalanceSlashed,
    pub seller_lock: BalanceSlashed,
    pub matched: OrdersMatched,
}

/// The collateral of the buyer and of the seller for `amount` units at
/// `price`. `None` where a product does not fit in 64 bits.
pub open spec fn spec_collateral_requirements(
    amount: u64,
    price: u64,
    economic_config: EconomicConfig,
) -> Option<(u64, u64)> {
    match (
        spec_collateral(amount, price, economic_config.buyer_collateral_ratio),
        spec_collateral(amount, price, economic_config.seller_collateral_ratio),
    ) {
        (Some(buyer), Some(seller)) => Some((buyer, seller)),
        _ => None,
    }
}

/// Sizes the collateral of both sides for `amount` units at `price`: for
/// each side, the part of the trade's value that its collateral ratio
/// makes. Fails where a product does not fit in 64 bits.
pub fn calculate_collateral_requirements(
    amount: u64,
    price: u64,
    economic_config: &EconomicConfig,
) -> (r: Result<(u64, u64), TradingError>)
    ensures
        r == match spec_collateral_requirements(amount, price, *economic_config) {
            Some(both) => Ok::<(u64, u64), TradingError>(both),
            None => Err::<(u64, u64), TradingError>(TradingError::MathOverflow),
        },
{
    let value = match trade_value(amount, price) {
        Ok(value) => value,
        Err(_) => { return Err(TradingError::MathOverflow); },
    };
    let buyer_collateral = match bps_share(value, economic_config.buyer_collateral_ratio) {
        Ok(collateral) => collateral,
        Err(_) => { return Err(TradingError::MathOverflow); },
    };
    let seller_collateral = match bps_share(value, economic_config.seller_collateral_ratio) {
        Ok(collateral) => collateral,
        Err(_) => { return Err(TradingError::MathOverflow); },
    };
    Ok((buyer_collateral, seller_collateral))
}

/// What a match settles before anything is locked: how much is filled and
/// what each side locks.
#[derive(Clone, Copy, Debug, PartialEq, Eq)]
pub struct MatchTerms {
    pub fill: u64,
    pub buyer_collateral: u64,
    pub seller_collateral: u64,
}

impl MatchOrders {
    /// Whether the records fit together and the signer is a relayer.
    pub open spec fn spec_check_accounts(self) -> Result<(), TradingError> {
        if !self.config.relayers@.contains(self.relayer) {
            Err(TradingError::UnauthorizedRelayer)
        } else if self.config.paused {
            Err(TradingError::TradingPaused)
        } else if self.vault_program != self.config.vault_program {
            Err(TradingError::VaultProgramMismatch)
        } else if self.buyer_collateral_ata.mint != self.seller_collateral_ata.mint {
            Err(TradingError::TokenMintMismatch)
        } else if self.instruction_sysvar.key@ != instructions_sysvar_bytes() {
            Err(TradingError::InvalidInstructionSysvar)
        } else {
            Ok(())
        }
    }

    /// The terms on which the two orders are matched at `now`, or why they
    /// are not.
    pub open spec fn spec_terms(
        self,
        buy_order: PreOrder,
        sell_order: PreOrder,
        fill_amount: Option<u64>,
        now: i64,
    ) -> Result<MatchTerms, TradingError> {
        let fill = spec_fill_amount(buy_order.amount, sell_order.amount, fill_amount);
        let collateral = spec_collateral_requirements(
            fill,
            buy_order.price,
            self.config.economic_config,
        );
        if self.spec_check_accounts() is Err {
            Err(self.spec_check_accounts()->Err_0)
        } else if spec_can_match(buy_order, sell_order) is Err {
            Err(spec_can_match(buy_order, sell_order)->Err_0)
        } else if buy_order.token_id != self.token_market_key {
            Err(TradingError::TokenMintMismatch)
        } else if sell_order.token_id != self.token_market_key {
            Err(TradingError::TokenMintMismatch)
        } else if spec_validate_deadline(buy_order.deadline, now) is Err {
            Err(TradingError::OrderExpired)
        } else if spec_validate_deadline(sell_order.deadline, now) is Err {
            Err(TradingError::OrderExpired)
        } else if fill == 0 {
            Err(TradingError::ZeroAmount)
        } else if fill < self.config.economic_config.minimum_fill_amount {
            Err(TradingError::BelowMinimumFill)
        } else if collateral is None {
            Err(TradingError::MathOverflow)
        } else if buy_order.collateral_token != self.buyer_collateral_ata.mint {
            Err(TradingError::TokenMintMismatch)
        } else if sell_order.collateral_token != self.seller_collateral_ata.mint {
            Err(TradingError::TokenMintMismatch)
        } else {
            Ok(
                MatchTerms {
                    fill,
                    buyer_collateral: collateral.unwrap().0,
                    seller_collateral: collateral.unwrap().1,
                },
            )
        }
    }

    /// The trade that is recorded for two orders matched at `now` on
    /// `terms`.
    pub open spec fn spec_record(
        self,
        buy_order: PreOrder,
        sell_order: PreOrder,
        terms: MatchTerms,
        now: i64,
    ) -> TradeRecord {
        TradeRecord {
            trade_id: self.trade_record_key,
            buyer: buy_order.trader,
            seller: sell_order.trader,
            token_id: self.token_market_key,
            collateral_mint: buy_order.collateral_token,
            filled_amount: terms.fill,
            price: buy_order.price,
            buyer_collateral: terms.buyer_collateral,
            seller_collateral: terms.seller_collateral,
            match_time: now,
            settled: false,
            target_mint: None,
        }
    }

    /// The match of the two orders at `now`: the terms and the records
    /// after it, or why the orders are not matched.
    pub open spec fn spec_match(
        self,
        buy_order: PreOrder,
        sell_order: PreOrder,
        fill_amount: Option<u64>,
        now: i64,
    ) -> Result<(MatchOrders, MatchTerms), TradeFailure> {
        match self.spec_terms(buy_order, sell_order, fill_amount, now) {
            Err(e) => Err(TradeFailure::Trading(e)),
            Ok(terms) => match slash_balance::spec_check(
                self.vault_config,
                self.buyer_balance,
                self.instruction_sysvar,
                terms.buyer_collateral,
            ) {
                Err(e) => Err(TradeFailure::Vault(e)),
                Ok(_) => match slash_balance::spec_check(
                    self.vault_config,
                    self.seller_balance,
                    self.instruction_sysvar,
                    terms.seller_collateral,
                ) {
                    Err(e) => Err(TradeFailure::Vault(e)),
                    Ok(_) => Ok(
                        (
                            MatchOrders {
                                trade_record: self.spec_record(buy_order, sell_order, terms, now),
                                buyer_balance: slash_balance::spec_after(
                                    self.buyer_balance,
                                    terms.buyer_collateral,
                                ),
                                seller_balance: slash_balance::spec_after(
                                    self.seller_balance,
                                    terms.seller_collateral,
                                ),
                                ..self
                            },
                            terms,
                        ),
                    ),
                },
            },
        }
    }
}

/// Settles the terms of a match before anything is locked: checks the
/// records, the two orders against each other, against the market and
/// against the clock, sizes the fill and the collateral of both sides, and
/// checks the collateral token of each order.
pub fn match_terms(
    ctx: &MatchOrders,
    buy_order: &PreOrder,
    sell_order: &PreOrder,
    fill_amount: Option<u64>,
    now: i64,
) -> (r: Result<MatchTerms, TradingError>)
    ensures
        r == ctx.spec_terms(*buy_order, *sell_order, fill_amount, now),
{
    if !ctx.config.is_relayer(&ctx.relayer) {
        return Err(TradingError::UnauthorizedRelayer);
    }
    if ctx.config.paused {
        return Err(TradingError::TradingPaused);
    }
    if ctx.vault_program != ctx.config.vault_program {
        return Err(TradingError::VaultProgramMismatch);
    }
    if ctx.buyer_collateral_ata.mint != ctx.seller_collateral_ata.mint {
        return Err(TradingError::TokenMintMismatch);
    }
    let expected = instructions_sysvar_id();
    proof {
        lemma_pubkey_eq(ctx.instruction_sysvar.key, expected);
    }
    if ctx.instruction_sysvar.key != expected {
        return Err(TradingError::InvalidInstructionSysvar);
    }
    can_match_orders(buy_order, sell_order)?;
    if buy_order.token_id != ctx.token_market_key {
        return Err(TradingError::TokenMintMismatch);
    }
    if sell_order.token_id != ctx.token_market_key {
        return Err(TradingError::TokenMintMismatch);
    }
    validate_order_deadline(buy_order.deadline, now)?;
    validate_order_deadline(sell_order.deadline, now)?;
    let fill = calculate_fill_amount(buy_order.amount, sell_order.amount, fill_amount);
    if fill == 0 {
        return Err(TradingError::ZeroAmount);
    }
    if fill < ctx.config.economic_config.minimum_fill_amount {
        return Err(TradingError::BelowMinimumFill);
    }
    let (buyer_collateral, seller_collateral) = calculate_collateral_requirements(
        fill,
        buy_order.price,
        &ctx.config.economic_config,
    )?;
    if buy_order.collateral_token != ctx.buyer_collateral_ata.mint {
        return Err(TradingError::TokenMintMismatch);
    }
    if sell_order.collateral_token != ctx.seller_collateral_ata.mint {
        return Err(TradingError::TokenMintMismatch);
    }
    Ok(MatchTerms { fill, buyer_collateral, seller_collateral })
}

/// Matches a buy order and a sell order at `now`.
///
/// The fill is the smaller of the two amounts, and no more than
/// `fill_amount` where one is given. The trade is made at the buyer's
/// price. Each side locks the part of the trade's value that its
/// collateral ratio makes: the ledger takes it from the side's available
/// balance. The trade is recorded as not resolved, with `now` as the time
/// of the match.
///
/// Refused where the signer is no relayer, where trading is paused, where
/// the records do not fit together, where the orders do not fit each
/// other or the market, where an order's deadline is not after `now`,
/// where the fill is nothing or under the policy's minimum, where the
/// sizing overflows, where an order names another collateral token, and
/// where the ledger refuses a lock. Where the match is refused, neither
/// side is locked and nothing changes.
pub fn handler(
    ctx: &mut MatchOrders,
    buy_order: PreOrder,
    sell_order: PreOrder,
    fill_amount: Option<u64>,
    now: i64,
) -> (r: Result<Match, TradeFailure>)
    ensures
        match old(ctx).spec_match(buy_order, sell_order, fill_amount, now) {
            Ok((after, terms)) => {
                &&& *final(ctx) == after
                &&& r matches Ok(done)
                &&& done.buyer_lock == slash_balance::spec_outcome(
                    old(ctx).vault_config,
                    old(ctx).buyer_balance,
                    old(ctx).instruction_sysvar,
                    terms.buyer_collateral,
                )
                &&& done.seller_lock == slash_balance::spec_outcome(
                    old(ctx).vault_config,
                    old(ctx).seller_balance,
                    old(ctx).instruction_sysvar,
                    terms.seller_collateral,
                )
                &&& done.matched.trade_id == after.trade_record.trade_id
                &&& done.matched.buyer == buy_order.trader
                &&& done.matched.seller == sell_order.trader
                &&& done.matched.token_id == old(ctx).token_market_key
                &&& done.matched.collateral_mint == buy_order.collateral_token
                &&& done.matched.filled_amount == terms.fill
                &&& done.matched.price == buy_order.price
                &&& done.matched.buyer_collateral == terms.buyer_collateral
                &&& done.matched.seller_collateral == terms.seller_collateral
                &&& done.matched.match_time == now
                &&& done.matched.buy_order_hash@ == sha256(order_message(buy_order))
                &&& done.matched.sell_order_hash@ == sha256(order_message(sell_order))
            },
            Err(e) => r == Err::<Match, TradeFailure>(e) && *final(ctx) == *old(ctx),
        },
{
    let terms = match match_terms(ctx, &buy_order, &sell_order, fill_amount, now) {
        Ok(terms) => terms,
        Err(e) => { return Err(TradeFailure::Trading(e)); },
    };
    let saved_buyer = ctx.buyer_balance;
    let buyer_lock = match lock_buyer_collateral_cpi(ctx, terms.buyer_collateral) {
        Ok(lock) => lock,
        Err(e) => { return Err(TradeFailure::Vault(e)); },
    };
    let seller_lock = match lock_seller_collateral_cpi(ctx, terms.seller_collateral) {
        Ok(lock) => lock,
        Err(e) => {
            ctx.buyer_balance = saved_buyer;
            return Err(TradeFailure::Vault(e));
        },
    };
    let trade_id = ctx.trade_record_key;
    let token_id = ctx.token_market_key;
    ctx.trade_record.initialize(
        trade_id,
        buy_order.trader,
        sell_order.trader,
        token_id,
        buy_order.collateral_token,
        terms.fill,
        buy_order.price,
        terms.buyer_collateral,
        terms.seller_collateral,
        now,
    );
    Ok(
        Match {
            buyer_lock,
            seller_lock,
            matched: OrdersMatched {
                trade_id,
                buyer: buy_order.trader,
                seller: sell_order.trader,
                token_id,
                collateral_mint: buy_order.collateral_token,
                filled_amount: terms.fill,
                price: buy_order.price,
                buyer_collateral: terms.buyer_collateral,
                seller_collateral: terms.seller_collateral,
                match_time: now,
                buy_order_hash: calculate_order_hash(&buy_order),
                sell_order_hash: calculate_order_hash(&sell_order),
            },
        },
    )
}

/// Locks `amount` of the buyer's available balance through the ledger's
/// privileged operation. Where the ledger refuses, nothing changes.
pub fn lock_buyer_collateral_cpi(ctx: &mut MatchOrders, amount: u64) -> (r: Result<
    BalanceSlashed,
    VaultError,
>)
    ensures
        match slash_balance::spec_check(
            old(ctx).vault_config,
            old(ctx).buyer_balance,
            old(ctx).instruction_sysvar,
            amount,
        ) {
            Ok(_) => r == Ok::<BalanceSlashed, VaultError>(
                slash_balance::spec_outcome(
                    old(ctx).vault_config,
                    old(ctx).buyer_balance,
                    old(ctx).instruction_sysvar,
                    amount,
                ),
            ) && *final(ctx) == (MatchOrders {
                buyer_balance: slash_balance::spec_after(old(ctx).buyer_balance, amount),
                ..*old(ctx)
            }),
            Err(e) => r == Err::<BalanceSlashed, VaultError>(e) && *final(ctx) == *old(ctx),
        },
{
    let mut buyer_balance = ctx.buyer_balance;
    let lock = slash_balance::slash(
        &ctx.vault_config,
        &mut buyer_balance,
        &ctx.instruction_sysvar,
        amount,
    )?;
    ctx.buyer_balance = buyer_balance;
    Ok(lock)
}

/// Locks `amount` of the seller's available balance through the ledger's
/// privileged operation. Where the ledger refuses, nothing changes.
pub fn lock_seller_collateral_cpi(ctx: &mut MatchOrders, amount: u64) -> (r: Result<
    BalanceSlashed,
    VaultError,
>)
    ensures
        match slash_balance::spec_check(
            old(ctx).vault_config,
            old(ctx).seller_balance,
            old(ctx).instruction_sysvar,
            amount,
        ) {
            Ok(_) => r == Ok::<BalanceSlashed, VaultError>(
                slash_balance::spec_outcome(
                    old(ctx).vault_config,
                    old(ctx).seller_balance,
                    old(ctx).instruction_sysvar,
                    amount,
                ),
            ) && *final(ctx) == (MatchOrders {
                seller_balance: slash_balance::spec_after(old(ctx).seller_balance, amount),
                ..*old(ctx)
            }),
            Err(e) => r == Err::<BalanceSlashed, VaultError>(e) && *final(ctx) == *old(ctx),
        },
{
    let mut seller_balance = ctx.seller_balance;
    let lock = slash_balance::slash(
        &ctx.vault_config,
        &mut seller_balance,
        &ctx.instruction_sysvar,
        amount,
    )?;
    ctx.seller_balance = seller_balance;
    Ok(lock)
}

} // verus!
