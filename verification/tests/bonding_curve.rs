use solsocial::error::SolSocialError;
use solsocial::state::keys::{BondingCurveParams, TransactionType};
use solsocial::utils::bonding_curve::{BondingCurve, TradingStats};

fn wide_curve() -> BondingCurveParams {
    BondingCurveParams {
        base_price: 1_000_000,
        price_factor: 16000,
        max_supply: u64::MAX,
        creator_fee: 500,
        protocol_fee: 500,
    }
}

fn steep_curve() -> BondingCurveParams {
    BondingCurveParams {
        base_price: 1,
        price_factor: 1,
        max_supply: 1_000,
        creator_fee: 500,
        protocol_fee: 500,
    }
}

#[test]
fn test_price_at_supply() {
    // First key should be base price
    assert_eq!(BondingCurve::get_price_at_supply(0).unwrap(), BondingCurve::BASE_PRICE);

    // The quadratic term is rounded down: 1 / 16000 and 100 / 16000 are both zero, so
    // the tenth key costs what the first costs, and never less.
    let price_1 = BondingCurve::get_price_at_supply(1).unwrap();
    let price_10 = BondingCurve::get_price_at_supply(10).unwrap();
    assert!(price_10 >= price_1);
    assert_eq!(price_1, 1_000_000);
    assert_eq!(price_10, 1_000_000);
}

#[test]
fn test_buy_sell_symmetry() {
    let supply = 10;
    let amount = 5;

    let buy_price = BondingCurve::get_buy_price(supply, amount).unwrap();
    let sell_price = BondingCurve::get_sell_price(supply + amount, amount).unwrap();

    // Buy and sell prices should be equal (before fees)
    assert_eq!(buy_price, sell_price);
}

#[test]
fn test_fees_calculation() {
    let price = 1_000_000; // 0.001 SOL
    let protocol_fee = BondingCurve::get_protocol_fee(price).unwrap();
    let creator_fee = BondingCurve::get_creator_fee(price).unwrap();

    assert_eq!(protocol_fee, 50_000); // 5% of 1M
    assert_eq!(creator_fee, 50_000); // 5% of 1M
}

#[test]
fn test_market_cap() {
    let supply = 0;
    let market_cap = BondingCurve::get_market_cap(supply).unwrap();
    assert_eq!(market_cap, 0);

    let supply = 10;
    let market_cap = BondingCurve::get_market_cap(supply).unwrap();
    assert!(market_cap > 0);
}

#[test]
fn test_trade_validation() {
    // Valid trade
    assert!(BondingCurve::validate_trade(10, 5, true).is_ok());

    // Invalid amount (0)
    assert!(BondingCurve::validate_trade(10, 0, true).is_err());

    // Invalid amount (too large)
    assert!(BondingCurve::validate_trade(10, 101, true).is_err());

    // Insufficient supply for sell
    assert!(BondingCurve::validate_trade(5, 10, false).is_err());
}

#[test]
fn price_follows_the_quadratic_formula() {
    assert_eq!(BondingCurve::get_price_at_supply(127), Ok(1_000_001));
    assert_eq!(BondingCurve::get_price_at_supply(200), Ok(1_000_002));
    assert_eq!(BondingCurve::get_price_at_supply(999_999), Ok(63_499_875));
    assert!(
        BondingCurve::get_price_at_supply(127).unwrap()
            > BondingCurve::get_price_at_supply(1).unwrap()
    );
}

#[test]
fn price_is_refused_at_the_maximum_supply() {
    assert_eq!(
        BondingCurve::get_price_at_supply(BondingCurve::MAX_SUPPLY),
        Err(SolSocialError::SupplyLimitExceeded)
    );
    assert_eq!(
        BondingCurve::get_price_at_supply(u64::MAX),
        Err(SolSocialError::SupplyLimitExceeded)
    );
}

#[test]
fn price_never_falls_as_supply_grows() {
    let mut supply: u64 = 0;
    while supply + 1 < 3_000 {
        let low = BondingCurve::get_price_at_supply(supply).unwrap();
        let high = BondingCurve::get_price_at_supply(supply + 1).unwrap();
        assert!(low <= high);
        supply += 1;
    }
    let steep = steep_curve();
    assert_eq!(steep.price_at(0), Ok(1));
    assert_eq!(steep.price_at(3), Ok(10));
    assert_eq!(steep.price_at(999), Ok(998_002));
    assert!(steep.price_at(3).unwrap() < steep.price_at(4).unwrap());
}

#[test]
fn square_that_does_not_fit_is_an_overflow() {
    let curve = wide_curve();
    assert_eq!(curve.price_at(1 << 32), Err(SolSocialError::ArithmeticOverflow));
    assert_eq!(curve.price_at(u64::MAX - 1), Err(SolSocialError::ArithmeticOverflow));
    assert_eq!(curve.price_at((1 << 32) - 1), Ok(1_152_921_505_069_976));
}

#[test]
fn price_that_does_not_fit_is_an_overflow() {
    let curve = BondingCurveParams {
        base_price: u64::MAX,
        price_factor: 1,
        max_supply: 100,
        creator_fee: 0,
        protocol_fee: 0,
    };
    assert_eq!(curve.price_at(0), Ok(u64::MAX));
    assert_eq!(curve.price_at(1), Err(SolSocialError::ArithmeticOverflow));
}

#[test]
fn zero_price_factor_leaves_the_base_price() {
    let curve = BondingCurveParams {
        base_price: 7,
        price_factor: 0,
        max_supply: 100,
        creator_fee: 0,
        protocol_fee: 0,
    };
    assert_eq!(curve.price_at(50), Ok(7));
    assert_eq!(curve.aggregate_price(0, 100, TransactionType::Buy), Ok(700));
}

#[test]
fn buy_price_sums_the_keys_minted() {
    assert_eq!(BondingCurve::get_buy_price(10, 5), Ok(5_000_000));
    assert_eq!(BondingCurve::get_buy_price(1, 1), Ok(1_000_000));
    assert_eq!(BondingCurve::get_buy_price(200, 100), Ok(100_000_344));
    let steep = steep_curve();
    // 1 + 2 + 5 + 10
    assert_eq!(steep.aggregate_price(0, 4, TransactionType::Buy), Ok(18));
    // 5 + 10
    assert_eq!(steep.aggregate_price(4, 2, TransactionType::Sell), Ok(15));
}

#[test]
fn buy_price_errors() {
    assert_eq!(BondingCurve::get_buy_price(10, 0), Err(SolSocialError::InvalidQuantity));
    assert_eq!(
        BondingCurve::get_buy_price(1_000_000, 0),
        Err(SolSocialError::InvalidQuantity)
    );
    assert_eq!(
        BondingCurve::get_buy_price(1_000_000, 1),
        Err(SolSocialError::SupplyLimitExceeded)
    );
    assert_eq!(
        BondingCurve::get_buy_price(999_999, 2),
        Err(SolSocialError::SupplyLimitExceeded)
    );
    assert_eq!(
        BondingCurve::get_buy_price(5, u64::MAX),
        Err(SolSocialError::ArithmeticOverflow)
    );
    assert_eq!(BondingCurve::get_buy_price(999_999, 1), Ok(63_499_875));
}

#[test]
fn buy_price_sum_that_does_not_fit_is_an_overflow() {
    let curve = BondingCurveParams {
        base_price: u64::MAX - 1,
        price_factor: 0,
        max_supply: 100,
        creator_fee: 0,
        protocol_fee: 0,
    };
    assert_eq!(curve.aggregate_price(0, 1, TransactionType::Buy), Ok(u64::MAX - 1));
    assert_eq!(
        curve.aggregate_price(0, 2, TransactionType::Buy),
        Err(SolSocialError::ArithmeticOverflow)
    );
}

#[test]
fn sell_price_errors() {
    assert_eq!(BondingCurve::get_sell_price(10, 0), Err(SolSocialError::InvalidQuantity));
    assert_eq!(BondingCurve::get_sell_price(0, 0), Err(SolSocialError::InvalidQuantity));
    assert_eq!(BondingCurve::get_sell_price(0, 1), Err(SolSocialError::InsufficientSupply));
    assert_eq!(BondingCurve::get_sell_price(5, 10), Err(SolSocialError::InsufficientSupply));
    assert_eq!(
        BondingCurve::get_sell_price(1_000_001, 1),
        Err(SolSocialError::SupplyLimitExceeded)
    );
    assert_eq!(BondingCurve::get_sell_price(1_000_000, 1), Ok(63_499_875));
}

#[test]
fn buying_then_selling_is_symmetric_before_fees() {
    let cases: [(u64, u64); 6] = [(0, 1), (1, 1), (10, 5), (500, 250), (999_000, 999), (0, 0)];
    for (supply, quantity) in cases {
        assert_eq!(
            BondingCurve::get_buy_price(supply, quantity),
            BondingCurve::get_sell_price(supply + quantity, quantity)
        );
    }
    let steep = steep_curve();
    assert_eq!(
        steep.aggregate_price(7, 20, TransactionType::Buy),
        steep.aggregate_price(27, 20, TransactionType::Sell)
    );
}

#[test]
fn prices_after_fees_pin_both_directions() {
    // A purchase pays the fees on top of the curve price.
    assert_eq!(
        BondingCurve::get_buy_price_after_fees(10, 5),
        Ok((5_500_000, 250_000, 250_000))
    );
    // A sale has the fees taken out of the curve price.
    assert_eq!(
        BondingCurve::get_sell_price_after_fees(15, 5),
        Ok((4_500_000, 250_000, 250_000))
    );
    assert_eq!(
        BondingCurve::get_buy_price_after_fees(10, 0),
        Err(SolSocialError::InvalidQuantity)
    );
    assert_eq!(
        BondingCurve::get_sell_price_after_fees(3, 4),
        Err(SolSocialError::InsufficientSupply)
    );
}

#[test]
fn percent_fee_overflows_on_a_large_price() {
    assert_eq!(BondingCurve::get_protocol_fee(0), Ok(0));
    assert_eq!(BondingCurve::get_creator_fee(199), Ok(9));
    assert_eq!(
        BondingCurve::get_protocol_fee(u64::MAX),
        Err(SolSocialError::ArithmeticOverflow)
    );
    assert_eq!(
        BondingCurve::get_creator_fee(u64::MAX / 5 + 1),
        Err(SolSocialError::ArithmeticOverflow)
    );
    assert_eq!(
        BondingCurve::get_protocol_fee(u64::MAX / 5),
        Ok(u64::MAX / 5 * 5 / 100)
    );
}

#[test]
fn market_cap_sums_all_keys() {
    assert_eq!(BondingCurve::get_market_cap(10), Ok(10_000_000));
    assert_eq!(BondingCurve::get_market_cap(1_000), Ok(1_000_020_334));
    assert_eq!(
        BondingCurve::get_market_cap(1_000_001),
        Err(SolSocialError::SupplyLimitExceeded)
    );
}

#[test]
fn price_impact_in_percent() {
    assert_eq!(BondingCurve::get_price_impact(10, 5, true), Ok(0));
    assert_eq!(BondingCurve::get_price_impact(0, 5, false), Ok(0));
    assert_eq!(
        BondingCurve::get_price_impact(3, 5, false),
        Err(SolSocialError::InsufficientSupply)
    );
    assert_eq!(
        BondingCurve::get_price_impact(3, u64::MAX, true),
        Err(SolSocialError::ArithmeticOverflow)
    );
    let steep = steep_curve();
    // The marginal price goes from 1 + 81 to 1 + 361.
    assert_eq!(steep.price_impact(10, 10, TransactionType::Buy), Ok(341));
    // The marginal price goes from 1 + 361 to 1 + 81.
    assert_eq!(steep.price_impact(20, 10, TransactionType::Sell), Ok(77));
    assert_eq!(steep.current_price(0), Ok(1));
    assert_eq!(steep.current_price(10), Ok(82));
}

#[test]
fn price_impact_without_a_price_to_compare_with() {
    let free = BondingCurveParams {
        base_price: 0,
        price_factor: 16000,
        max_supply: 1_000,
        creator_fee: 0,
        protocol_fee: 0,
    };
    assert_eq!(
        free.price_impact(1, 1, TransactionType::Buy),
        Err(SolSocialError::ArithmeticOverflow)
    );
}

#[test]
fn trade_validation_names_each_refusal() {
    assert_eq!(BondingCurve::validate_trade(10, 5, true), Ok(()));
    assert_eq!(BondingCurve::validate_trade(10, 100, true), Ok(()));
    assert_eq!(BondingCurve::validate_trade(100, 100, false), Ok(()));
    assert_eq!(
        BondingCurve::validate_trade(10, 0, true),
        Err(SolSocialError::InvalidQuantity)
    );
    assert_eq!(
        BondingCurve::validate_trade(10, 101, true),
        Err(SolSocialError::AmountTooLarge)
    );
    assert_eq!(
        BondingCurve::validate_trade(5, 10, false),
        Err(SolSocialError::InsufficientSupply)
    );
    assert_eq!(
        BondingCurve::validate_trade(1_000_000, 1, true),
        Err(SolSocialError::SupplyLimitExceeded)
    );
    assert_eq!(
        BondingCurve::validate_trade(999_950, 51, true),
        Err(SolSocialError::SupplyLimitExceeded)
    );
    assert_eq!(BondingCurve::validate_trade(999_950, 50, true), Ok(()));
}

#[test]
fn trade_validation_bounds_the_price_impact() {
    let steep = steep_curve();
    assert_eq!(
        steep.validate_trade(10, 10, TransactionType::Buy),
        Err(SolSocialError::PriceImpactTooHigh)
    );
    assert_eq!(
        steep.validate_trade(20, 10, TransactionType::Sell),
        Err(SolSocialError::PriceImpactTooHigh)
    );
    // From 1 + 99 * 99 to 1 + 100 * 100 is 2%.
    assert_eq!(steep.validate_trade(100, 1, TransactionType::Buy), Ok(()));
}

#[test]
fn trading_stats_at_a_supply() {
    assert_eq!(
        BondingCurve::get_trading_stats(10),
        Ok(TradingStats {
            current_price: 1_000_000,
            market_cap: 10_000_000,
            supply: 10,
            buy_price_1: 1_000_000,
            sell_price_1: 1_000_000,
        })
    );
    assert_eq!(
        BondingCurve::get_trading_stats(0),
        Ok(TradingStats {
            current_price: 1_000_000,
            market_cap: 0,
            supply: 0,
            buy_price_1: 1_000_000,
            sell_price_1: 0,
        })
    );
    assert_eq!(
        BondingCurve::get_trading_stats(1_000_000),
        Err(SolSocialError::SupplyLimitExceeded)
    );
}

#[test]
fn standard_curve_accepts_every_small_trade_within_the_limits() {
    for supply in [0u64, 1, 99, 100, 5_000, 80_000, 800_000, 999_900] {
        for amount in [1u64, 2, 50, 100] {
            assert_eq!(BondingCurve::validate_trade(supply, amount, true), Ok(()));
            assert_eq!(BondingCurve::get_price_impact(supply, amount, true), Ok(0));
        }
    }
    for supply in [100u64, 101, 5_000, 80_000, 800_000, 1_000_000] {
        for amount in [1u64, 2, 50, 100] {
            assert_eq!(BondingCurve::validate_trade(supply, amount, false), Ok(()));
            assert_eq!(BondingCurve::get_price_impact(supply, amount, false), Ok(0));
        }
    }
    assert_eq!(
        BondingCurve::validate_trade(1_000_001, 1, false),
        Err(SolSocialError::SupplyLimitExceeded)
    );
}
