//! What the engine's parts share: the limits, the signed order, the
//! policies, and the sizing of collateral.
use vstd::prelude::*;
use vstd::bytes::{spec_u64_to_le_bytes, u64_to_le_bytes};
use crate::pubkey::Pubkey;

verus! {

/// A price is an integer count of millionths.
pub const PRICE_SCALE: u64 = 1_000_000;

/// Lowest price that an order may name.
pub const MIN_PRICE: u64 = 1_000;

/// Highest price that an order may name.
pub const MAX_PRICE: u64 = 1_000_000_000_000_000_000;

/// A ratio is an integer count of hundredths of a percent.
pub const BPS_SCALE: u64 = 10_000;

/// Highest collateral ratio: 200%.
pub const MAX_COLLATERAL_RATIO: u16 = 20000;

/// Highest reward for a seller who delivers: 10%.
pub const MAX_REWARD_BPS: u16 = 1000;

/// Highest penalty for a seller who does not: 100%.
pub const MAX_PENALTY_BPS: u16 = 10000;

/// Most bytes in a market's symbol.
pub const MAX_SYMBOL_LENGTH: usize = 10;

/// Most bytes in a market's name.
pub const MAX_NAME_LENGTH: usize = 50;

/// An order as its trader signed it, away from the engine.
#[derive(Clone, Copy, Debug, PartialEq, Eq)]
pub struct PreOrder {
    pub trader: Pubkey,
    pub collateral_token: Pubkey,
    pub token_id: Pubkey,
    pub amount: u64,
    pub price: u64,
    pub is_buy: bool,
    pub nonce: u64,
    pub deadline: i64,
}

/// The economic policy: the bounds on a fill and the ratios by which
/// collateral, reward and penalty are sized.
#[derive(Clone, Copy, Debug, PartialEq, Eq)]
pub struct EconomicConfig {
    pub minimum_fill_amount: u64,
    pub maximum_order_amount: u64,
    pub buyer_collateral_ratio: u16,
    pub seller_collateral_ratio: u16,
    pub seller_reward_bps: u16,
    pub late_penalty_bps: u16,
}

impl Default for EconomicConfig {
    /// Full collateral on both sides, no reward, full penalty.
    fn default() -> (r: EconomicConfig)
        ensures
            r == (EconomicConfig {
                minimum_fill_amount: 1000,
                maximum_order_amount: 1_000_000_000_000,
                buyer_collateral_ratio: 10000,
                seller_collateral_ratio: 10000,
                seller_reward_bps: 0,
                late_penalty_bps: 10000,
            }),
    {
        EconomicConfig {
            buyer_collateral_ratio: 10000,
            seller_collateral_ratio: 10000,
            seller_reward_bps: 0,
            late_penalty_bps: 10000,
            minimum_fill_amount: 1000,
            maximum_order_amount: 1_000_000_000_000,
        }
    }
}

/// The technical policy: the shortest and the longest settle window, in
/// seconds.
#[derive(Clone, Copy, Debug, PartialEq, Eq)]
pub struct TechnicalConfig {
    pub min_settle_time: u32,
    pub max_settle_time: u32,
}

impl Default for TechnicalConfig {
    /// Thirty seconds to thirty days.
    fn default() -> (r: TechnicalConfig)
        ensures
            r == (TechnicalConfig { min_settle_time: 30, max_settle_time: 2592000 }),
    {
        TechnicalConfig { min_settle_time: 30, max_settle_time: 2592000 }
    }
}

/// The one way in which sizing fails.
#[derive(Clone, Copy, Debug, PartialEq, Eq, Structural, Hash)]
pub enum SharedError {
    MathOverflow,
}

/// The value of `amount` units at `price`: `amount * price / PRICE_SCALE`,
/// rounded down. `None` where `amount * price` does not fit in 64 bits.
pub open spec fn spec_trade_value(amount: u64, price: u64) -> Option<u64> {
    if amount * price > u64::MAX {
        None
    } else {
        Some(((amount * price) / (PRICE_SCALE as int)) as u64)
    }
}

/// The part of `value` that `bps` hundredths of a percent make:
/// `value * bps / 10000`, rounded down. `None` where `value * bps` does not
/// fit in 64 bits.
pub open spec fn spec_bps_share(value: u64, bps: u16) -> Option<u64> {
    if value * bps > u64::MAX {
        None
    } else {
        Some(((value * bps) / (BPS_SCALE as int)) as u64)
    }
}

/// The collateral for `amount` units at `price` under the ratio `ratio`.
pub open spec fn spec_collateral(amount: u64, price: u64, ratio: u16) -> Option<u64> {
    match spec_trade_value(amount, price) {
        Some(value) => spec_bps_share(value, ratio),
        None => None,
    }
}

/// The reward of a seller who delivers `amount` units at `price`, under the
/// reward rate `reward_bps`.
pub open spec fn spec_reward(amount: u64, price: u64, reward_bps: u16) -> Option<u64> {
    spec_collateral(amount, price, reward_bps)
}

/// The penalty of a seller who does not deliver `amount` units at `price`,
/// under the penalty rate `penalty_bps`: that part of the trade's value,
/// but no more than the seller has locked.
pub open spec fn spec_penalty(
    amount: u64,
    price: u64,
    penalty_bps: u16,
    seller_collateral: u64,
) -> Option<u64> {
    match spec_collateral(amount, price, penalty_bps) {
        Some(penalty) => Some(
            if penalty <= seller_collateral {
                penalty
            } else {
                seller_collateral
            },
        ),
        None => None,
    }
}

/// The value of `amount` units at `price`: `amount * price / PRICE_SCALE`,
/// rounded down. Fails where `amount * price` does not fit in 64 bits.
pub fn trade_value(amount: u64, price: u64) -> (r: Result<u64, SharedError>)
    ensures
        r == match spec_trade_value(amount, price) {
            Some(value) => Ok::<u64, SharedError>(value),
            None => Err::<u64, SharedError>(SharedError::MathOverflow),
        },
{
    match amount.checked_mul(price) {
        Some(product) => Ok(product / PRICE_SCALE),
        None => Err(SharedError::MathOverflow),
    }
}

/// The part of `value` that `bps` hundredths of a percent make:
/// `value * bps / 10000`, rounded down. Fails where `value * bps` does not
/// fit in 64 bits.
pub fn bps_share(value: u64, bps: u16) -> (r: Result<u64, SharedError>)
    ensures
        r == match spec_bps_share(value, bps) {
            Some(share) => Ok::<u64, SharedError>(share),
            None => Err::<u64, SharedError>(SharedError::MathOverflow),
        },
{
    match value.checked_mul(bps as u64) {
        Some(scaled) => Ok(scaled / BPS_SCALE),
        None => Err(SharedError::MathOverflow),
    }
}

/// Sizes the collateral for `amount` units at `price` under `ratio`:
/// the trade's value times the ratio, each division rounded down. Fails
/// where a product does not fit in 64 bits.
pub fn safe_calculate_collateral(amount: u64, price: u64, ratio: u16) -> (r: Result<
    u64,
    SharedError,
>)
    ensures
        r == match spec_collateral(amount, price, ratio) {
            Some(collateral) => Ok::<u64, SharedError>(collateral),
            None => Err::<u64, SharedError>(SharedError::MathOverflow),
        },
{
    let value = trade_value(amount, price)?;
    bps_share(value, ratio)
}

/// The words that open every order message.
pub open spec fn domain_separator() -> Seq<u8> {
    seq![80u8, 114u8, 101u8, 77u8, 97u8, 114u8, 107u8, 101u8, 116u8, 79u8, 114u8, 100u8, 101u8, 114u8]
}

/// The byte that stands for an order's side.
pub open spec fn side_byte(is_buy: bool) -> u8 {
    if is_buy {
        1u8
    } else {
        0u8
    }
}

/// The message that a trader signs for `order`: the domain separator, then
/// the order's fields in the order of their declaration, integers in
/// little-endian.
pub open spec fn order_message(order: PreOrder) -> Seq<u8> {
    domain_separator() + order.trader@ + order.collateral_token@ + order.token_id@
        + spec_u64_to_le_bytes(order.amount) + spec_u64_to_le_bytes(order.price) + seq![
        side_byte(order.is_buy),
    ] + spec_u64_to_le_bytes(order.nonce) + spec_u64_to_le_bytes(order.deadline as u64)
}

/// Appends the bytes of `key` to `message`.
fn push_pubkey(message: &mut Vec<u8>, key: &Pubkey)
    ensures
        final(message)@ == old(message)@ + key@,
{
    let mut i: usize = 0;
    while i < 32
        invariant
            i <= 32,
            message@ == old(message)@ + key@.subrange(0, i as int),
        decreases 32 - i,
    {
        message.push(key.bytes[i]);
        assert(key@.subrange(0, i + 1) == key@.subrange(0, i as int).push(key@[i as int]));
        i += 1;
    }
    assert(key@.subrange(0, 32) == key@);
}

/// Appends the eight little-endian bytes of `value` to `message`.
fn push_u64(message: &mut Vec<u8>, value: u64)
    ensures
        final(message)@ == old(message)@ + spec_u64_to_le_bytes(value),
{
    let mut bytes = u64_to_le_bytes(value);
    message.append(&mut bytes);
}

/// Writes the message that a trader signs for `order`.
pub fn create_order_message(order: &PreOrder) -> (message: Vec<u8>)
    ensures
        message@ == order_message(*order),
{
    let mut message: Vec<u8> = Vec::new();
    message.push(80u8);
    message.push(114u8);
    message.push(101u8);
    message.push(77u8);
    message.push(97u8);
    message.push(114u8);
    message.push(107u8);
    message.push(101u8);
    message.push(116u8);
    message.push(79u8);
    message.push(114u8);
    message.push(100u8);
    message.push(101u8);
    message.push(114u8);
    assert(message@ == domain_separator());
    push_pubkey(&mut message, &order.trader);
    push_pubkey(&mut message, &order.collateral_token);
    push_pubkey(&mut message, &order.token_id);
    push_u64(&mut message, order.amount);
    push_u64(&mut message, order.price);
    message.push(if order.is_buy { 1u8 } else { 0u8 });
    assert(message@ == domain_separator() + order.trader@ + order.collateral_token@
        + order.token_id@ + spec_u64_to_le_bytes(order.amount) + spec_u64_to_le_bytes(order.price)
        + seq![side_byte(order.is_buy)]);
    push_u64(&mut message, order.nonce);
    push_u64(&mut message, order.deadline as u64);
    message
}

} // verus!
