//! The rules on orders: what makes one valid, which two can be matched,
//! how much of them is filled, and how orders and trades are named.
use vstd::prelude::*;
use crate::digest::{sha256, sha256_digest};
use crate::premarket_trade::common::{
    create_order_message, order_message, PreOrder, MAX_PRICE, MIN_PRICE,
};
use crate::premarket_trade::error::TradingError;
use crate::pubkey::Pubkey;

verus! {

/// Whether an order's amount and price are in range.
pub open spec fn spec_validate_amounts(amount: u64, price: u64) -> Result<(), TradingError> {
    if amount == 0 {
        Err(TradingError::ZeroAmount)
    } else if price < MIN_PRICE {
        Err(TradingError::PriceTooLow)
    } else if price > MAX_PRICE {
        Err(TradingError::PriceTooHigh)
    } else {
        Ok(())
    }
}

/// Whether an order with this deadline is still open at `now`.
pub open spec fn spec_validate_deadline(deadline: i64, now: i64) -> Result<(), TradingError> {
    if deadline > now {
        Ok(())
    } else {
        Err(TradingError::OrderExpired)
    }
}

/// Whether `order` is `trader`'s, in range, and still open at `now`.
pub open spec fn spec_validate_order(order: PreOrder, trader: Pubkey, now: i64) -> Result<
    (),
    TradingError,
> {
    if order.trader != trader {
        Err(TradingError::InvalidSignature)
    } else if spec_validate_amounts(order.amount, order.price) is Err {
        spec_validate_amounts(order.amount, order.price)
    } else {
        spec_validate_deadline(order.deadline, now)
    }
}

/// Whether a buy order and a sell order can be matched: same market, same
/// collateral token, the buyer bids at least what the seller asks, two
/// different traders, and each order on its own side.
pub open spec fn spec_can_match(buy_order: PreOrder, sell_order: PreOrder) -> Result<
    (),
    TradingError,
> {
    if buy_order.token_id != sell_order.token_id {
        Err(TradingError::TokenMintMismatch)
    } else if buy_order.collateral_token != sell_order.collateral_token {
        Err(TradingError::TokenMintMismatch)
    } else if buy_order.price < sell_order.price {
        Err(TradingError::InvalidPrice)
    } else if buy_order.trader == sell_order.trader {
        Err(TradingError::SelfTrade)
    } else if !buy_order.is_buy {
        Err(TradingError::InvalidOrderType)
    } else if sell_order.is_buy {
        Err(TradingError::InvalidOrderType)
    } else {
        Ok(())
    }
}

/// The smaller of two amounts.
pub open spec fn spec_min(a: u64, b: u64) -> u64 {
    if a <= b {
        a
    } else {
        b
    }
}

/// How much of two orders is filled: the smallest of the two amounts and of
/// what was asked for, if anything was.
pub open spec fn spec_fill_amount(
    buy_amount: u64,
    sell_amount: u64,
    requested_fill: Option<u64>,
) -> u64 {
    match requested_fill {
        Some(fill) => spec_min(fill, spec_min(buy_amount, sell_amount)),
        None => spec_min(buy_amount, sell_amount),
    }
}

/// Checks an order that a relayer presents for `trader`: it must be the
/// trader's own, its amount and price in range, and its deadline after
/// `now`.
pub fn validate_order_business_logic(order: &PreOrder, trader: &Pubkey, now: i64) -> (r: Result<
    (),
    TradingError,
>)
    ensures
        r == spec_validate_order(*order, *trader, now),
{
    if order.trader != *trader {
        return Err(TradingError::InvalidSignature);
    }
    validate_order_amounts(order.amount, order.price)?;
    validate_order_deadline(order.deadline, now)?;
    Ok(())
}

/// The name of an order: the SHA-256 digest of the message that its trader
/// signs.
pub fn calculate_order_hash(order: &PreOrder) -> (r: [u8; 32])
    ensures
        r@ == sha256(order_message(*order)),
{
    let message = create_order_message(order);
    sha256_digest(&message)
}

/// An order is open while its deadline is after `now`.
pub fn validate_order_deadline(deadline: i64, now: i64) -> (r: Result<(), TradingError>)
    ensures
        r == spec_validate_deadline(deadline, now),
{
    if deadline > now {
        Ok(())
    } else {
        Err(TradingError::OrderExpired)
    }
}

/// An order's amount is positive and its price lies between `MIN_PRICE` and
/// `MAX_PRICE`.
pub fn validate_order_amounts(amount: u64, price: u64) -> (r: Result<(), TradingError>)
    ensures
        r == spec_validate_amounts(amount, price),
{
    if amount == 0 {
        return Err(TradingError::ZeroAmount);
    }
    if price < MIN_PRICE {
        return Err(TradingError::PriceTooLow);
    }
    if price > MAX_PRICE {
        return Err(TradingError::PriceTooHigh);
    }
    Ok(())
}

/// Checks that a buy order and a sell order can be matched.
pub fn can_match_orders(buy_order: &PreOrder, sell_order: &PreOrder) -> (r: Result<
    (),
    TradingError,
>)
    ensures
        r == spec_can_match(*buy_order, *sell_order),
{
    if buy_order.token_id != sell_order.token_id {
        return Err(TradingError::TokenMintMismatch);
    }
    if buy_order.collateral_token != sell_order.collateral_token {
        return Err(TradingError::TokenMintMismatch);
    }
    if buy_order.price < sell_order.price {
        return Err(TradingError::InvalidPrice);
    }
    if buy_order.trader == sell_order.trader {
        return Err(TradingError::SelfTrade);
    }
    if !buy_order.is_buy {
        return Err(TradingError::InvalidOrderType);
    }
    if sell_order.is_buy {
        return Err(TradingError::InvalidOrderType);
    }
    Ok(())
}

/// How much of two orders is filled: the smaller of the two amounts, and no
/// more than `requested_fill` where one is given.
pub fn calculate_fill_amount(buy_amount: u64, sell_amount: u64, requested_fill: Option<u64>) -> (r:
    u64)
    ensures
        r == spec_fill_amount(buy_amount, sell_amount, requested_fill),
        r <= buy_amount,
        r <= sell_amount,
        requested_fill matches Some(fill) ==> r <= fill,
        r == buy_amount || r == sell_amount || requested_fill == Some(r),
{
    let max_fill = if buy_amount <= sell_amount { buy_amount } else { sell_amount };
    match requested_fill {
        Some(fill) => if fill <= max_fill { fill } else { max_fill },
        None => max_fill,
    }
}

/// The name of a trade: the SHA-256 digest of the buy order's name followed
/// by the sell order's.
pub fn generate_trade_id(buy_hash: &[u8; 32], sell_hash: &[u8; 32]) -> (r: [u8; 32])
    ensures
        r@ == sha256(buy_hash@ + sell_hash@),
{
    let mut combined: Vec<u8> = Vec::new();
    let mut i: usize = 0;
    while i < 32
        invariant
            i <= 32,
            combined@ == buy_hash@.subrange(0, i as int),
        decreases 32 - i,
    {
        combined.push(buy_hash[i]);
        i += 1;
    }
    let mut j: usize = 0;
    while j < 32
        invariant
            j <= 32,
            combined@ == buy_hash@ + sell_hash@.subrange(0, j as int),
        decreases 32 - j,
    {
        combined.push(sell_hash[j]);
        j += 1;
    }
    assert(combined@ == buy_hash@ + sell_hash@);
    sha256_digest(&combined)
}

} // verus!
