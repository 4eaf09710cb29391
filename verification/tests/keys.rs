use solsocial::error::SolSocialError;
use solsocial::state::keys::{
    same_address, BondingCurveParams, KeyHolder, KeyTransaction, TransactionType, UserKeys,
};

const ALICE: [u8; 32] = [1; 32];
const BOB: [u8; 32] = [2; 32];

fn gentle_curve() -> BondingCurveParams {
    BondingCurveParams {
        base_price: 1_000,
        price_factor: 10,
        max_supply: 1_000,
        creator_fee: 500,
        protocol_fee: 250,
    }
}

#[test]
fn default_curve_parameters() {
    assert_eq!(
        BondingCurveParams::default(),
        BondingCurveParams {
            base_price: 1_000_000,
            price_factor: 1_100_000,
            max_supply: 1_000_000,
            creator_fee: 500,
            protocol_fee: 250,
        }
    );
}

#[test]
fn addresses_compare_byte_by_byte() {
    let mut other = ALICE;
    assert!(same_address(&ALICE, &other));
    other[31] = 0;
    assert!(!same_address(&ALICE, &other));
    assert!(!same_address(&ALICE, &BOB));
}

#[test]
fn new_ledger_is_empty_and_active() {
    let keys = UserKeys::new(ALICE, None, 42);
    assert_eq!(keys.user, ALICE);
    assert_eq!(keys.supply, 0);
    assert_eq!(keys.volume, 0);
    assert_eq!(keys.holders, 0);
    assert_eq!(keys.creator_earnings, 0);
    assert_eq!(keys.protocol_fees, 0);
    assert_eq!(keys.created_at, 42);
    assert_eq!(keys.last_trade_at, 42);
    assert_eq!(keys.curve_params, BondingCurveParams::default());
    assert!(keys.is_active);
    assert!(!keys.milestone_100_reached);
    assert!(!keys.milestone_1000_reached);
    let own = UserKeys::new(BOB, Some(gentle_curve()), -7);
    assert_eq!(own.curve_params, gentle_curve());
    assert_eq!(own.created_at, -7);
}

#[test]
fn ledger_prices_on_its_own_curve() {
    let mut keys = UserKeys::new(ALICE, Some(gentle_curve()), 0);
    assert_eq!(keys.calculate_price(0), Ok(1_000));
    assert_eq!(keys.calculate_price(20), Ok(1_040));
    assert_eq!(keys.calculate_price(1_000), Err(SolSocialError::SupplyLimitExceeded));
    keys.supply = 10;
    // 1010 + 1012 + 1014 = 3036, 5% = 151, 2.5% = 75
    assert_eq!(keys.calculate_buy_price(3), Ok((3_036, 151, 75)));
    // 1004 + 1006 + 1008 = 3018, 5% = 150, 2.5% = 75
    assert_eq!(keys.calculate_sell_price(3), Ok((3_018, 150, 75)));
    assert_eq!(keys.calculate_buy_price(0), Err(SolSocialError::InvalidQuantity));
    assert_eq!(keys.calculate_sell_price(11), Err(SolSocialError::InsufficientSupply));
    assert_eq!(keys.calculate_buy_price(991), Err(SolSocialError::SupplyLimitExceeded));
}

#[test]
fn ledger_quote_refuses_fees_over_the_price() {
    let greedy = BondingCurveParams {
        base_price: 1_000,
        price_factor: 10,
        max_supply: 1_000,
        creator_fee: 6_000,
        protocol_fee: 6_000,
    };
    let keys = UserKeys::new(ALICE, Some(greedy), 0);
    assert_eq!(keys.calculate_buy_price(1), Err(SolSocialError::FeeExceedsAmount));
}

#[test]
fn ledger_books_a_purchase() {
    let mut keys = UserKeys::new(ALICE, None, 1);
    assert_eq!(keys.update_after_buy(3, 3_000_000, 150_000, 75_000, 9), Ok(()));
    assert_eq!(keys.supply, 3);
    assert_eq!(keys.volume, 3_000_000);
    assert_eq!(keys.creator_earnings, 150_000);
    assert_eq!(keys.protocol_fees, 75_000);
    assert_eq!(keys.last_trade_at, 9);
    assert_eq!(keys.created_at, 1);
    assert_eq!(keys.holders, 0);
    let before = keys;
    assert_eq!(
        keys.update_after_buy(u64::MAX, 1, 1, 1, 10),
        Err(SolSocialError::ArithmeticOverflow)
    );
    assert_eq!(keys, before);
    assert_eq!(
        keys.update_after_buy(1, u64::MAX, 1, 1, 10),
        Err(SolSocialError::ArithmeticOverflow)
    );
    assert_eq!(
        keys.update_after_buy(1, 1, u64::MAX, 1, 10),
        Err(SolSocialError::ArithmeticOverflow)
    );
    assert_eq!(
        keys.update_after_buy(1, 1, 1, u64::MAX, 10),
        Err(SolSocialError::ArithmeticOverflow)
    );
    assert_eq!(keys, before);
}

#[test]
fn ledger_books_a_sale() {
    let mut keys = UserKeys::new(ALICE, None, 1);
    keys.supply = 5;
    assert_eq!(keys.update_after_sell(2, 2_000_000, 100_000, 50_000, 12), Ok(()));
    assert_eq!(keys.supply, 3);
    assert_eq!(keys.volume, 2_000_000);
    assert_eq!(keys.creator_earnings, 100_000);
    assert_eq!(keys.protocol_fees, 50_000);
    assert_eq!(keys.last_trade_at, 12);
    let before = keys;
    assert_eq!(
        keys.update_after_sell(4, 1, 1, 1, 13),
        Err(SolSocialError::InsufficientSupply)
    );
    assert_eq!(
        keys.update_after_sell(1, u64::MAX, 1, 1, 13),
        Err(SolSocialError::ArithmeticOverflow)
    );
    assert_eq!(keys, before);
}

#[test]
fn new_position_is_closed() {
    let position = KeyHolder::new(BOB, ALICE, 5);
    assert_eq!(
        position,
        KeyHolder {
            holder: BOB,
            keys_user: ALICE,
            amount: 0,
            avg_price: 0,
            total_invested: 0,
            first_purchase_at: 5,
            last_purchase_at: 5,
        }
    );
}

#[test]
fn position_averages_what_was_paid() {
    let mut position = KeyHolder::new(BOB, ALICE, 5);
    assert_eq!(position.update_after_buy(2, 2_000, 10), Ok(()));
    assert_eq!(position.amount, 2);
    assert_eq!(position.total_invested, 2_000);
    assert_eq!(position.avg_price, 1_000);
    assert_eq!(position.first_purchase_at, 10);
    assert_eq!(position.last_purchase_at, 10);
    // (2000 + 1003) / (2 + 1) = 1001
    assert_eq!(position.update_after_buy(1, 1_003, 20), Ok(()));
    assert_eq!(position.amount, 3);
    assert_eq!(position.total_invested, 3_003);
    assert_eq!(position.avg_price, 1_001);
    assert_eq!(position.first_purchase_at, 10);
    assert_eq!(position.last_purchase_at, 20);
    let before = position;
    assert_eq!(
        position.update_after_buy(u64::MAX, 1, 30),
        Err(SolSocialError::ArithmeticOverflow)
    );
    assert_eq!(
        position.update_after_buy(1, u64::MAX, 30),
        Err(SolSocialError::ArithmeticOverflow)
    );
    assert_eq!(position, before);
}

#[test]
fn position_bought_for_nothing_has_no_cost_basis() {
    let mut position = KeyHolder::new(BOB, ALICE, 5);
    assert_eq!(position.update_after_buy(0, 0, 6), Ok(()));
    assert_eq!(position.amount, 0);
    assert_eq!(position.avg_price, 0);
}

#[test]
fn position_keeps_its_part_of_the_investment() {
    let mut position = KeyHolder {
        holder: BOB,
        keys_user: ALICE,
        amount: 3,
        avg_price: 1_000_000,
        total_invested: 3_000_000,
        first_purchase_at: 1,
        last_purchase_at: 2,
    };
    // 2 of 3 keys keep two thirds of the investment: 3000000 * 2 / 3 = 2000000
    assert_eq!(position.update_after_sell(1), Ok(()));
    assert_eq!(position.amount, 2);
    assert_eq!(position.total_invested, 2_000_000);
    assert_eq!(position.avg_price, 1_000_000);
    assert_eq!(position.update_after_sell(2), Ok(()));
    assert_eq!(position.amount, 0);
    assert_eq!(position.total_invested, 0);
    assert_eq!(position.avg_price, 0);
    assert_eq!(position.first_purchase_at, 1);
    assert_eq!(position.last_purchase_at, 2);
}

#[test]
fn position_cannot_sell_what_it_does_not_hold() {
    let mut position = KeyHolder {
        holder: BOB,
        keys_user: ALICE,
        amount: 3,
        avg_price: 10,
        total_invested: 30,
        first_purchase_at: 1,
        last_purchase_at: 2,
    };
    let before = position;
    assert_eq!(position.update_after_sell(4), Err(SolSocialError::InsufficientShares));
    assert_eq!(position, before);
}

#[test]
fn position_with_the_largest_investment_keeps_its_part() {
    let mut position = KeyHolder {
        holder: BOB,
        keys_user: ALICE,
        amount: u64::MAX,
        avg_price: 1,
        total_invested: u64::MAX,
        first_purchase_at: 1,
        last_purchase_at: 2,
    };
    assert_eq!(position.update_after_sell(1), Ok(()));
    assert_eq!(position.amount, u64::MAX - 1);
    // (2^64 - 1) * (2^64 - 2) / (2^64 - 1) = 2^64 - 2
    assert_eq!(position.total_invested, u64::MAX - 1);
}

#[test]
fn transaction_record_keeps_what_it_is_given() {
    let record = KeyTransaction::new(
        TransactionType::Sell,
        ALICE,
        BOB,
        3,
        1_000,
        3_000,
        150,
        75,
        String::from("first-trade"),
        99,
    );
    assert_eq!(record.transaction_type, TransactionType::Sell);
    assert_eq!(record.keys_user, ALICE);
    assert_eq!(record.trader, BOB);
    assert_eq!(record.amount, 3);
    assert_eq!(record.price_per_key, 1_000);
    assert_eq!(record.total_value, 3_000);
    assert_eq!(record.creator_fee, 150);
    assert_eq!(record.protocol_fee, 75);
    assert_eq!(record.timestamp, 99);
    assert_eq!(record.signature, "first-trade");
}

#[test]
fn part_of_the_investment_is_rounded_down_once() {
    let mut position = KeyHolder {
        holder: BOB,
        keys_user: ALICE,
        amount: 7,
        avg_price: 142,
        total_invested: 1_000,
        first_purchase_at: 1,
        last_purchase_at: 2,
    };
    // 1000 * 4 / 7 = 571.4
    assert_eq!(position.update_after_sell(3), Ok(()));
    assert_eq!(position.amount, 4);
    assert_eq!(position.total_invested, 571);
    // 571 * 1 / 4 = 142.75
    assert_eq!(position.update_after_sell(3), Ok(()));
    assert_eq!(position.amount, 1);
    assert_eq!(position.total_invested, 142);
    assert_eq!(position.avg_price, 142);
}
