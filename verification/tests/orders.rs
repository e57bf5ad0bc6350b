use premarket_escrow::premarket_trade::common::{create_order_message, PreOrder};
use premarket_escrow::premarket_trade::error::TradingError;
use premarket_escrow::premarket_trade::state::{OrderStatus, OrderStatusType, OrderType};
use premarket_escrow::premarket_trade::utils::{
    calculate_order_hash, can_match_orders, generate_trade_id, validate_order_amounts,
    validate_order_business_logic, validate_order_deadline,
};
use premarket_escrow::pubkey::Pubkey;

fn key(tag: u8) -> Pubkey {
    Pubkey::new_from_array([tag; 32])
}

fn buy_order() -> PreOrder {
    PreOrder {
        trader: key(1),
        collateral_token: key(2),
        token_id: key(3),
        amount: 50,
        price: 100_000_000,
        is_buy: true,
        nonce: 7,
        deadline: 1_700_000_000,
    }
}

fn sell_order() -> PreOrder {
    PreOrder {
        trader: key(4),
        collateral_token: key(2),
        token_id: key(3),
        amount: 80,
        price: 90_000_000,
        is_buy: false,
        nonce: 9,
        deadline: -5,
    }
}

const BUY_HASH: [u8; 32] = [
    110, 184, 192, 14, 147, 166, 26, 170, 26, 37, 37, 70, 43, 140, 242, 8, 145, 10, 125, 179, 92,
    232, 25, 2, 140, 38, 192, 190, 236, 184, 218, 69,
];

const SELL_HASH: [u8; 32] = [
    108, 1, 132, 140, 230, 169, 203, 72, 8, 103, 150, 166, 49, 219, 139, 76, 112, 205, 235, 166,
    43, 177, 110, 164, 204, 161, 178, 142, 25, 105, 223, 174,
];

#[test]
fn the_order_message_lists_the_fields_in_order() {
    let message = create_order_message(&buy_order());
    assert_eq!(message.len(), 143);
    assert_eq!(&message[..14], b"PreMarketOrder");
    assert_eq!(&message[14..46], &[1u8; 32]);
    assert_eq!(&message[46..78], &[2u8; 32]);
    assert_eq!(&message[78..110], &[3u8; 32]);
    assert_eq!(&message[110..118], &50u64.to_le_bytes());
    assert_eq!(&message[118..126], &100_000_000u64.to_le_bytes());
    assert_eq!(message[126], 1);
    assert_eq!(&message[127..135], &7u64.to_le_bytes());
    assert_eq!(&message[135..143], &1_700_000_000i64.to_le_bytes());
    let other = create_order_message(&sell_order());
    assert_eq!(other[126], 0);
    assert_eq!(&other[135..143], &[251, 255, 255, 255, 255, 255, 255, 255]);
}

#[test]
fn an_order_is_named_by_the_digest_of_its_message() {
    assert_eq!(calculate_order_hash(&buy_order()), BUY_HASH);
    assert_eq!(calculate_order_hash(&sell_order()), SELL_HASH);
    let mut changed = buy_order();
    changed.nonce = 8;
    assert_ne!(calculate_order_hash(&changed), BUY_HASH);
}

#[test]
fn a_trade_is_named_by_the_digest_of_both_order_names() {
    assert_eq!(
        generate_trade_id(&BUY_HASH, &SELL_HASH),
        [
            203, 88, 145, 74, 78, 8, 27, 74, 232, 59, 14, 76, 23, 144, 27, 88, 4, 97, 126, 231,
            69, 164, 44, 252, 100, 18, 89, 254, 28, 249, 192, 39,
        ]
    );
    assert_eq!(
        generate_trade_id(&[0u8; 32], &[0u8; 32]),
        [
            245, 165, 253, 66, 209, 106, 32, 48, 39, 152, 239, 110, 211, 9, 151, 155, 67, 0, 61,
            35, 32, 217, 240, 232, 234, 152, 49, 169, 39, 89, 251, 75,
        ]
    );
    assert_ne!(generate_trade_id(&SELL_HASH, &BUY_HASH), generate_trade_id(&BUY_HASH, &SELL_HASH));
}

#[test]
fn amounts_and_prices_have_bounds() {
    assert_eq!(validate_order_amounts(1, 1_000), Ok(()));
    assert_eq!(validate_order_amounts(u64::MAX, 1_000_000_000_000_000_000), Ok(()));
    assert_eq!(validate_order_amounts(0, 1_000), Err(TradingError::ZeroAmount));
    assert_eq!(validate_order_amounts(0, 1), Err(TradingError::ZeroAmount));
    assert_eq!(validate_order_amounts(1, 999), Err(TradingError::PriceTooLow));
    assert_eq!(validate_order_amounts(1, 1_000_000_000_000_000_001), Err(TradingError::PriceTooHigh));
}

#[test]
fn an_order_is_open_until_its_deadline() {
    assert_eq!(validate_order_deadline(100, 99), Ok(()));
    assert_eq!(validate_order_deadline(100, 100), Err(TradingError::OrderExpired));
    assert_eq!(validate_order_deadline(100, 101), Err(TradingError::OrderExpired));
    assert_eq!(validate_order_deadline(i64::MIN, i64::MIN), Err(TradingError::OrderExpired));
    assert_eq!(validate_order_deadline(i64::MAX, i64::MIN), Ok(()));
}

#[test]
fn an_order_is_checked_for_its_trader_its_range_and_its_deadline() {
    assert_eq!(validate_order_business_logic(&buy_order(), &key(1), 0), Ok(()));
    assert_eq!(validate_order_business_logic(&buy_order(), &key(9), 0), Err(TradingError::InvalidSignature));
    let mut order = buy_order();
    order.amount = 0;
    order.deadline = 0;
    assert_eq!(validate_order_business_logic(&order, &key(1), 0), Err(TradingError::ZeroAmount));
    assert_eq!(validate_order_business_logic(&order, &key(9), 0), Err(TradingError::InvalidSignature));
    order.amount = 1;
    order.price = 1;
    assert_eq!(validate_order_business_logic(&order, &key(1), 0), Err(TradingError::PriceTooLow));
    order.price = u64::MAX;
    assert_eq!(validate_order_business_logic(&order, &key(1), 0), Err(TradingError::PriceTooHigh));
    order.price = 1_000;
    assert_eq!(validate_order_business_logic(&order, &key(1), 0), Err(TradingError::OrderExpired));
    assert_eq!(validate_order_business_logic(&order, &key(1), -1), Ok(()));
}

#[test]
fn two_orders_fit_each_other_or_not() {
    assert_eq!(can_match_orders(&buy_order(), &sell_order()), Ok(()));
    let with = |change: &dyn Fn(&mut PreOrder, &mut PreOrder)| {
        let (mut buy, mut sell) = (buy_order(), sell_order());
        change(&mut buy, &mut sell);
        can_match_orders(&buy, &sell)
    };
    assert_eq!(with(&|b, _| b.token_id = key(30)), Err(TradingError::TokenMintMismatch));
    assert_eq!(with(&|_, s| s.collateral_token = key(20)), Err(TradingError::TokenMintMismatch));
    assert_eq!(with(&|b, s| b.price = s.price - 1), Err(TradingError::InvalidPrice));
    assert_eq!(with(&|b, s| b.price = s.price), Ok(()));
    assert_eq!(with(&|b, s| s.trader = b.trader), Err(TradingError::SelfTrade));
    assert_eq!(with(&|b, _| b.is_buy = false), Err(TradingError::InvalidOrderType));
    assert_eq!(with(&|_, s| s.is_buy = true), Err(TradingError::InvalidOrderType));
    // the earlier reason wins
    assert_eq!(
        with(&|b, s| { s.trader = b.trader; b.price = 1 }),
        Err(TradingError::InvalidPrice)
    );
}

fn order_status(quantity: u64, collateral: u64, expires_at: i64) -> OrderStatus {
    let mut status = OrderStatus {
        order_id: key(0),
        token_market: key(0),
        user: key(0),
        order_type: OrderType::Sell,
        original_quantity: 1,
        filled_quantity: 1,
        collateral_locked: 1,
        created_at: 0,
        expires_at: 0,
        status: OrderStatusType::Expired,
        bump: 0,
    };
    status.initialize(key(10), key(3), key(1), OrderType::Buy, quantity, collateral, expires_at, 9, 50);
    status
}

#[test]
fn an_order_starts_active_with_nothing_filled() {
    let status = order_status(100, 400, 1_000);
    assert_eq!(
        status,
        OrderStatus {
            order_id: key(10),
            token_market: key(3),
            user: key(1),
            order_type: OrderType::Buy,
            original_quantity: 100,
            filled_quantity: 0,
            collateral_locked: 400,
            created_at: 50,
            expires_at: 1_000,
            status: OrderStatusType::Active,
            bump: 9,
        }
    );
    assert_eq!(status.remaining_quantity(), 100);
    assert!(status.can_fill(1_000));
    assert!(!status.can_fill(1_001));
    assert!(!status.is_expired(1_000));
    assert!(status.is_expired(1_001));
    assert_eq!(status.fill_percentage(), 0);
    assert_eq!(status.validate_owner(&key(1)), Ok(()));
    assert_eq!(status.validate_owner(&key(2)), Err(TradingError::InvalidOrderOwner));
}

#[test]
fn an_order_is_filled_step_by_step() {
    let mut status = order_status(100, 400, 1_000);
    assert_eq!(status.fill_order(30, 10), Ok(()));
    assert_eq!(status.status, OrderStatusType::PartiallyFilled);
    assert_eq!(status.filled_quantity, 30);
    assert_eq!(status.remaining_quantity(), 70);
    assert_eq!(status.fill_percentage(), 3_000);
    let before = status;
    assert_eq!(status.fill_order(71, 10), Err(TradingError::ExceedOrderAmount));
    assert_eq!(status.fill_order(1, 1_001), Err(TradingError::OrderExpired));
    assert_eq!(status, before);
    assert_eq!(status.fill_order(70, 1_000), Ok(()));
    assert_eq!(status.status, OrderStatusType::Filled);
    assert_eq!(status.filled_quantity, 100);
    assert_eq!(status.fill_percentage(), 10_000);
    assert!(!status.can_fill(10));
    let filled = status;
    assert_eq!(status.fill_order(0, 10), Err(TradingError::OrderExpired));
    assert_eq!(status.cancel_order(), Err(TradingError::OrderAlreadyFilled));
    assert_eq!(status, filled);
}

#[test]
fn a_fill_of_nothing_marks_the_order_as_partially_filled() {
    let mut status = order_status(100, 400, 1_000);
    assert_eq!(status.fill_order(0, 10), Ok(()));
    assert_eq!(status.status, OrderStatusType::PartiallyFilled);
    assert_eq!(status.filled_quantity, 0);
}

#[test]
fn an_order_of_nothing_cannot_be_filled() {
    let mut status = order_status(0, 0, 1_000);
    assert!(!status.can_fill(10));
    assert_eq!(status.fill_order(0, 10), Err(TradingError::OrderExpired));
    assert_eq!(status.fill_percentage(), 0);
    assert_eq!(status.collateral_to_release(5), 0);
}

#[test]
fn an_open_order_is_cancelled_once() {
    let mut status = order_status(100, 400, 1_000);
    assert_eq!(status.cancel_order(), Ok(()));
    assert_eq!(status.status, OrderStatusType::Cancelled);
    let cancelled = status;
    assert_eq!(status.cancel_order(), Err(TradingError::OrderAlreadyFilled));
    assert_eq!(status.fill_order(1, 10), Err(TradingError::OrderExpired));
    assert_eq!(status, cancelled);
    let mut partly = order_status(100, 400, 1_000);
    partly.fill_order(40, 10).unwrap();
    assert_eq!(partly.cancel_order(), Ok(()));
    assert_eq!(partly.status, OrderStatusType::Cancelled);
    assert_eq!(partly.filled_quantity, 40);
}

#[test]
fn an_order_expires_after_its_deadline_wherever_it_stands() {
    let mut status = order_status(100, 400, 1_000);
    assert_eq!(status.mark_expired(1_000), Err(TradingError::OrderNotFound));
    assert_eq!(status.status, OrderStatusType::Active);
    assert_eq!(status.mark_expired(1_001), Ok(()));
    assert_eq!(status.status, OrderStatusType::Expired);
    assert_eq!(status.cancel_order(), Err(TradingError::OrderAlreadyFilled));
    let mut filled = order_status(100, 400, 1_000);
    filled.fill_order(100, 10).unwrap();
    assert_eq!(filled.mark_expired(2_000), Ok(()));
    assert_eq!(filled.status, OrderStatusType::Expired);
    assert_eq!(filled.filled_quantity, 100);
}

#[test]
fn collateral_is_released_in_proportion() {
    let status = order_status(100, 400, 1_000);
    assert_eq!(status.collateral_to_release(0), 0);
    assert_eq!(status.collateral_to_release(25), 100);
    assert_eq!(status.collateral_to_release(100), 400);
    let odd = order_status(3, 10, 1_000);
    assert_eq!(odd.collateral_to_release(1), 3);
    assert_eq!(odd.collateral_to_release(2), 6);
    assert_eq!(odd.collateral_to_release(3), 10);
    let large = order_status(u64::MAX, u64::MAX, 1_000);
    assert_eq!(large.collateral_to_release(u64::MAX), u64::MAX);
    assert_eq!(large.collateral_to_release(u64::MAX - 1), u64::MAX - 1);
    let mut nearly = order_status(u64::MAX, 1, 1_000);
    nearly.fill_order(u64::MAX - 1, 10).unwrap();
    assert_eq!(nearly.fill_percentage(), 9_999);
}
