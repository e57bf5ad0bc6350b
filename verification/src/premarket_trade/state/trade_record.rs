//! One trade: two matched orders with their collateral locked, waiting to
//! be settled or cancelled.
use vstd::prelude::*;
use crate::premarket_trade::error::TradingError;
use crate::pubkey::Pubkey;

verus! {

/// The record of one trade. It is written when two orders are matched and
/// changes once more, when the trade is settled or cancelled.
#[derive(Clone, Copy, Debug, PartialEq, Eq)]
pub struct TradeRecord {
    pub trade_id: Pubkey,
    pub buyer: Pubkey,
    pub seller: Pubkey,
    pub token_id: Pubkey,
    pub collateral_mint: Pubkey,
    pub filled_amount: u64,
    pub price: u64,
    pub buyer_collateral: u64,
    pub seller_collateral: u64,
    pub match_time: i64,
    pub settled: bool,
    pub target_mint: Option<Pubkey>,
}

impl TradeRecord {
    /// Bytes that the record occupies in storage.
    pub const INIT_SPACE: usize = 8 + 32 + 32 + 32 + 32 + 32 + 8 + 8 + 8 + 8 + 8 + 1 + 1 + 32;

    /// The last second at which the seller can still deliver, for a settle
    /// window of `grace_period` seconds.
    pub open spec fn grace_period_end(self, grace_period: u32) -> int {
        self.match_time + grace_period
    }

    /// Starts the record of a trade that was matched at `now`: not settled,
    /// nothing delivered.
    pub fn initialize(
        &mut self,
        trade_id: Pubkey,
        buyer: Pubkey,
        seller: Pubkey,
        token_id: Pubkey,
        collateral_mint: Pubkey,
        filled_amount: u64,
        price: u64,
        buyer_collateral: u64,
        seller_collateral: u64,
        now: i64,
    )
        ensures
            *final(self) == (TradeRecord {
                trade_id,
                buyer,
                seller,
                token_id,
                collateral_mint,
                filled_amount,
                price,
                buyer_collateral,
                seller_collateral,
                match_time: now,
                settled: false,
                target_mint: None,
            }),
    {
        self.trade_id = trade_id;
        self.buyer = buyer;
        self.seller = seller;
        self.token_id = token_id;
        self.collateral_mint = collateral_mint;
        self.filled_amount = filled_amount;
        self.price = price;
        self.buyer_collateral = buyer_collateral;
        self.seller_collateral = seller_collateral;
        self.match_time = now;
        self.settled = false;
        self.target_mint = None;
    }

    /// Whether the trade is resolved.
    pub fn is_settled(&self) -> (r: bool)
        ensures
            r == self.settled,
    {
        self.settled
    }

    /// Resolves the trade with `target_mint` as the token delivered. A
    /// trade that is resolved already is reported as `TradeAlreadySettled`
    /// and stays as it was.
    pub fn mark_settled(&mut self, target_mint: Pubkey) -> (r: Result<(), TradingError>)
        ensures
            old(self).settled ==> r == Err::<(), TradingError>(TradingError::TradeAlreadySettled)
                && *final(self) == *old(self),
            !old(self).settled ==> r is Ok && *final(self) == (TradeRecord {
                settled: true,
                target_mint: Some(target_mint),
                ..*old(self)
            }),
    {
        if self.settled {
            return Err(TradingError::TradeAlreadySettled);
        }
        self.settled = true;
        self.target_mint = Some(target_mint);
        Ok(())
    }

    /// The filled amount times the price, unscaled. Fails where the product
    /// does not fit in 64 bits.
    pub fn total_value(&self) -> (r: Result<u64, TradingError>)
        ensures
            self.filled_amount * self.price <= u64::MAX ==> r == Ok::<u64, TradingError>(
                (self.filled_amount * self.price) as u64,
            ),
            self.filled_amount * self.price > u64::MAX ==> r == Err::<u64, TradingError>(
                TradingError::MathOverflow,
            ),
    {
        match self.filled_amount.checked_mul(self.price) {
            Some(value) => Ok(value),
            None => Err(TradingError::MathOverflow),
        }
    }

    /// The collateral of both sides together, held at the numeric ceiling
    /// where the sum is over it.
    pub fn total_collateral(&self) -> (r: u64)
        ensures
            self.buyer_collateral + self.seller_collateral <= u64::MAX ==> r
                == self.buyer_collateral + self.seller_collateral,
            self.buyer_collateral + self.seller_collateral > u64::MAX ==> r == u64::MAX,
    {
        self.buyer_collateral.saturating_add(self.seller_collateral)
    }

    /// Whether a settle window of `grace_period` seconds has passed at
    /// `now`.
    pub fn is_grace_period_expired(&self, grace_period: u32, now: i64) -> (r: bool)
        ensures
            r == (now > self.grace_period_end(grace_period)),
    {
        let end: i128 = self.match_time as i128 + grace_period as i128;
        now as i128 > end
    }

    /// Whether `user` is one of the two sides of the trade.
    pub fn validate_participant(&self, user: &Pubkey) -> (r: Result<bool, TradingError>)
        ensures
            r == Ok::<bool, TradingError>(self.buyer == *user || self.seller == *user),
    {
        Ok(self.buyer == *user || self.seller == *user)
    }

    /// Whether `user` is the buyer.
    pub fn is_buyer(&self, user: &Pubkey) -> (r: bool)
        ensures
            r == (self.buyer == *user),
    {
        self.buyer == *user
    }

    /// Whether `user` is the seller.
    pub fn is_seller(&self, user: &Pubkey) -> (r: bool)
        ensures
            r == (self.seller == *user),
    {
        self.seller == *user
    }
}

} // verus!
