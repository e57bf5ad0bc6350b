//! The life of one order: how much of it is filled, and whether it can
//! still be.
use vstd::prelude::*;
use crate::premarket_trade::error::TradingError;
use crate::pubkey::Pubkey;

verus! {

/// The side of an order.
#[derive(Clone, Copy, Debug, PartialEq, Eq, Structural, Hash)]
pub enum OrderType {
    Buy,
    Sell,
}

/// Where an order stands. `Filled`, `Cancelled` and `Expired` are final.
#[derive(Clone, Copy, Debug, PartialEq, Eq, Structural, Hash)]
pub enum OrderStatusType {
    Active,
    PartiallyFilled,
    Filled,
    Cancelled,
    Expired,
}

/// The record of one order, kept under the order's name.
#[derive(Clone, Copy, Debug, PartialEq, Eq)]
pub struct OrderStatus {
    pub order_id: Pubkey,
    pub token_market: Pubkey,
    pub user: Pubkey,
    pub order_type: OrderType,
    pub original_quantity: u64,
    pub filled_quantity: u64,
    pub collateral_locked: u64,
    pub created_at: i64,
    pub expires_at: i64,
    pub status: OrderStatusType,
    pub bump: u8,
}

impl OrderStatus {
    /// Bytes that the record occupies in storage.
    pub const INIT_SPACE: usize = 32 + 32 + 32 + 1 + 8 + 8 + 8 + 8 + 8 + 1 + 1;

    /// No more is filled than was ordered.
    pub open spec fn wf(self) -> bool {
        self.filled_quantity <= self.original_quantity
    }

    /// Whether the order is open to fills and to cancellation.
    pub open spec fn is_open(self) -> bool {
        self.status == OrderStatusType::Active || self.status == OrderStatusType::PartiallyFilled
    }

    /// What is left to fill.
    pub open spec fn spec_remaining(self) -> u64 {
        if self.filled_quantity >= self.original_quantity {
            0
        } else {
            (self.original_quantity - self.filled_quantity) as u64
        }
    }

    /// Whether the order can be filled at `current_time`.
    pub open spec fn spec_can_fill(self, current_time: i64) -> bool {
        self.is_open() && current_time <= self.expires_at && self.spec_remaining() > 0
    }

    /// The record after `fill_quantity` more was filled at `now`, or why it
    /// cannot be.
    pub open spec fn spec_fill(self, fill_quantity: u64, now: i64) -> Result<
        OrderStatus,
        TradingError,
    > {
        if !self.spec_can_fill(now) {
            Err(TradingError::OrderExpired)
        } else if fill_quantity > self.spec_remaining() {
            Err(TradingError::ExceedOrderAmount)
        } else {
            Ok(
                OrderStatus {
                    filled_quantity: (self.filled_quantity + fill_quantity) as u64,
                    status: if self.filled_quantity + fill_quantity >= self.original_quantity {
                        OrderStatusType::Filled
                    } else {
                        OrderStatusType::PartiallyFilled
                    },
                    ..self
                },
            )
        }
    }

    /// The record after it was cancelled, or why it cannot be.
    pub open spec fn spec_cancel(self) -> Result<OrderStatus, TradingError> {
        if self.is_open() {
            Ok(OrderStatus { status: OrderStatusType::Cancelled, ..self })
        } else {
            Err(TradingError::OrderAlreadyFilled)
        }
    }

    /// The record after it was marked as expired at `now`, or why it cannot
    /// be.
    pub open spec fn spec_mark_expired(self, now: i64) -> Result<OrderStatus, TradingError> {
        if now > self.expires_at {
            Ok(OrderStatus { status: OrderStatusType::Expired, ..self })
        } else {
            Err(TradingError::OrderNotFound)
        }
    }

    /// The part of the locked collateral that belongs to `fill_quantity` of
    /// the order, rounded down; nothing for an order of nothing.
    pub open spec fn spec_collateral_to_release(self, fill_quantity: u64) -> int {
        if self.original_quantity == 0 {
            0
        } else {
            (self.collateral_locked * fill_quantity) / (self.original_quantity as int)
        }
    }

    /// How much of the order is filled, in hundredths of a percent, rounded
    /// down; nothing for an order of nothing.
    pub open spec fn spec_fill_percentage(self) -> int {
        if self.original_quantity == 0 {
            0
        } else {
            (self.filled_quantity * 10000) / (self.original_quantity as int)
        }
    }

    /// Starts the record of an order of `quantity` that `user` placed at
    /// `now`: active, nothing filled.
    pub fn initialize(
        &mut self,
        order_id: Pubkey,
        token_market: Pubkey,
        user: Pubkey,
        order_type: OrderType,
        quantity: u64,
        collateral_locked: u64,
        expires_at: i64,
        bump: u8,
        now: i64,
    )
        ensures
            *final(self) == (OrderStatus {
                order_id,
                token_market,
                user,
                order_type,
                original_quantity: quantity,
                filled_quantity: 0,
                collateral_locked,
                created_at: now,
                expires_at,
                status: OrderStatusType::Active,
                bump,
            }),
            final(self).wf(),
    {
        self.order_id = order_id;
        self.token_market = token_market;
        self.user = user;
        self.order_type = order_type;
        self.original_quantity = quantity;
        self.filled_quantity = 0;
        self.collateral_locked = collateral_locked;
        self.created_at = now;
        self.expires_at = expires_at;
        self.status = OrderStatusType::Active;
        self.bump = bump;
    }

    /// What is left to fill: nothing where more is filled than was ordered.
    pub fn remaining_quantity(&self) -> (r: u64)
        ensures
            r == self.spec_remaining(),
            self.wf() ==> r == self.original_quantity - self.filled_quantity,
    {
        if self.filled_quantity >= self.original_quantity {
            0
        } else {
            self.original_quantity - self.filled_quantity
        }
    }

    /// Whether the order can be filled at `current_time`: it is active or
    /// partially filled, its deadline has not passed, and something is left.
    pub fn can_fill(&self, current_time: i64) -> (r: bool)
        ensures
            r == self.spec_can_fill(current_time),
    {
        let open = match self.status {
            OrderStatusType::Active => true,
            OrderStatusType::PartiallyFilled => true,
            _ => false,
        };
        open && current_time <= self.expires_at && self.remaining_quantity() > 0
    }

    /// Whether the order's deadline has passed at `current_time`.
    pub fn is_expired(&self, current_time: i64) -> (r: bool)
        ensures
            r == (current_time > self.expires_at),
    {
        current_time > self.expires_at
    }

    /// Fills `fill_quantity` more of the order at `now`. An order that
    /// cannot be filled is reported as `OrderExpired`, a quantity over what
    /// is left as `ExceedOrderAmount`; the record then stays as it was. The
    /// order becomes `Filled` when nothing is left, `PartiallyFilled`
    /// otherwise.
    pub fn fill_order(&mut self, fill_quantity: u64, now: i64) -> (r: Result<(), TradingError>)
        ensures
            match old(self).spec_fill(fill_quantity, now) {
                Ok(after) => r is Ok && *final(self) == after,
                Err(e) => r == Err::<(), TradingError>(e) && *final(self) == *old(self),
            },
            old(self).wf() ==> final(self).wf(),
            final(self).filled_quantity >= old(self).filled_quantity,
    {
        if !self.can_fill(now) {
            return Err(TradingError::OrderExpired);
        }
        if fill_quantity > self.remaining_quantity() {
            return Err(TradingError::ExceedOrderAmount);
        }
        self.filled_quantity = self.filled_quantity + fill_quantity;
        if self.filled_quantity >= self.original_quantity {
            self.status = OrderStatusType::Filled;
        } else {
            self.status = OrderStatusType::PartiallyFilled;
        }
        Ok(())
    }

    /// Cancels an order that is active or partially filled. Any other order
    /// is reported as `OrderAlreadyFilled` and stays as it was.
    pub fn cancel_order(&mut self) -> (r: Result<(), TradingError>)
        ensures
            match old(self).spec_cancel() {
                Ok(after) => r is Ok && *final(self) == after,
                Err(e) => r == Err::<(), TradingError>(e) && *final(self) == *old(self),
            },
            old(self).wf() ==> final(self).wf(),
    {
        let open = match self.status {
            OrderStatusType::Active => true,
            OrderStatusType::PartiallyFilled => true,
            _ => false,
        };
        if !open {
            return Err(TradingError::OrderAlreadyFilled);
        }
        self.status = OrderStatusType::Cancelled;
        Ok(())
    }

    /// Marks the order as expired once its deadline has passed at `now`,
    /// wherever it stood. Before that the order is reported as
    /// `OrderNotFound` and stays as it was.
    pub fn mark_expired(&mut self, now: i64) -> (r: Result<(), TradingError>)
        ensures
            match old(self).spec_mark_expired(now) {
                Ok(after) => r is Ok && *final(self) == after,
                Err(e) => r == Err::<(), TradingError>(e) && *final(self) == *old(self),
            },
            old(self).wf() ==> final(self).wf(),
    {
        if !self.is_expired(now) {
            return Err(TradingError::OrderNotFound);
        }
        self.status = OrderStatusType::Expired;
        Ok(())
    }

    /// How much of the order is filled, in hundredths of a percent:
    /// `filled_quantity * 10000 / original_quantity`, rounded down; nothing
    /// for an order of nothing. The result must fit in 64 bits, as it does
    /// whenever no more is filled than was ordered.
    pub fn fill_percentage(&self) -> (r: u64)
        requires
            self.spec_fill_percentage() <= u64::MAX,
        ensures
            r == self.spec_fill_percentage(),
            self.wf() ==> r <= 10000,
    {
        if self.original_quantity == 0 {
            return 0;
        }
        let scaled: u128 = (self.filled_quantity as u128) * 10000u128;
        let quotient: u128 = scaled / (self.original_quantity as u128);
        proof {
            lemma_percentage_bounded(*self);
        }
        quotient as u64
    }

    /// Checks that the order is `user`'s.
    pub fn validate_owner(&self, user: &Pubkey) -> (r: Result<(), TradingError>)
        ensures
            self.user == *user ==> r is Ok,
            self.user != *user ==> r == Err::<(), TradingError>(TradingError::InvalidOrderOwner),
    {
        if self.user != *user {
            return Err(TradingError::InvalidOrderOwner);
        }
        Ok(())
    }

    /// The part of the locked collateral that belongs to `fill_quantity` of
    /// the order: `collateral_locked * fill_quantity / original_quantity`,
    /// rounded down; nothing for an order of nothing. The part must fit in
    /// 64 bits, as it does for every quantity up to the order's own.
    pub fn collateral_to_release(&self, fill_quantity: u64) -> (r: u64)
        requires
            self.spec_collateral_to_release(fill_quantity) <= u64::MAX,
        ensures
            r == self.spec_collateral_to_release(fill_quantity),
    {
        if self.original_quantity == 0 {
            return 0;
        }
        assert(self.collateral_locked * fill_quantity <= u64::MAX * u64::MAX) by (nonlinear_arith)
            requires
                self.collateral_locked <= u64::MAX,
                fill_quantity <= u64::MAX,
        ;
        let product: u128 = (self.collateral_locked as u128) * (fill_quantity as u128);
        let quotient: u128 = product / (self.original_quantity as u128);
        quotient as u64
    }
}

/// An order of which no more is filled than was ordered is filled to at
/// most 100%.
pub proof fn lemma_percentage_bounded(order: OrderStatus)
    ensures
        0 <= order.spec_fill_percentage(),
        order.wf() ==> order.spec_fill_percentage() <= 10000,
{
    if order.original_quantity > 0 {
        let f = order.filled_quantity as int;
        let o = order.original_quantity as int;
        assert(0 <= (f * 10000) / o) by (nonlinear_arith)
            requires
                0 <= f,
                o > 0,
        ;
        assert(f <= o ==> (f * 10000) / o <= 10000) by (nonlinear_arith)
            requires
                0 <= f,
                o > 0,
        ;
    }
}

/// The part of the collateral that belongs to a part of the order is no
/// more than the whole collateral.
pub proof fn lemma_release_bounded(order: OrderStatus, fill_quantity: u64)
    requires
        fill_quantity <= order.original_quantity,
    ensures
        0 <= order.spec_collateral_to_release(fill_quantity) <= order.collateral_locked,
{
    if order.original_quantity > 0 {
        let c = order.collateral_locked as int;
        let f = fill_quantity as int;
        let o = order.original_quantity as int;
        assert(0 <= (c * f) / o <= c) by (nonlinear_arith)
            requires
                0 <= c,
                0 <= f <= o,
                o > 0,
        ;
    }
}

} // verus!
