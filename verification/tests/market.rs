use solsocial::error::SolSocialError;
use solsocial::market::{Market, Marketplace};
use solsocial::state::keys::BondingCurveParams;

const SUBJECT: [u8; 32] = [7; 32];
const OTHER_SUBJECT: [u8; 32] = [8; 32];
const ANN: [u8; 32] = [21; 32];
const BEN: [u8; 32] = [22; 32];
const CAT: [u8; 32] = [23; 32];

fn steep_curve() -> BondingCurveParams {
    BondingCurveParams {
        base_price: 1_000,
        price_factor: 10,
        max_supply: 50,
        creator_fee: 500,
        protocol_fee: 250,
    }
}

fn held(market: &Market, holder: &[u8; 32]) -> u64 {
    match market.position(holder) {
        Some(position) => position.amount,
        None => 0,
    }
}

fn open(market: &Market, holder: &[u8; 32]) -> u64 {
    if held(market, holder) > 0 {
        1
    } else {
        0
    }
}

fn assert_consistent(market: &Market) {
    let everyone = [SUBJECT, ANN, BEN, CAT];
    let mut total = 0;
    let mut holders = 0;
    for holder in everyone.iter() {
        total += held(market, holder);
        holders += open(market, holder);
    }
    assert_eq!(total, market.keys().supply);
    assert_eq!(holders, market.keys().holders);
}

#[test]
fn created_market_holds_the_genesis_key() {
    let market = Market::create(SUBJECT, None, 10).unwrap();
    assert_eq!(market.keys().supply, 1);
    assert_eq!(market.keys().holders, 1);
    let creator = market.position(&SUBJECT).unwrap();
    assert_eq!(creator.amount, 1);
    assert_eq!(creator.avg_price, 0);
    assert_eq!(creator.total_invested, 0);
    assert_eq!(market.position(&ANN), None);
    assert_consistent(&market);
}

#[test]
fn market_refuses_bad_fee_rates() {
    let mut params = steep_curve();
    params.creator_fee = 2_000;
    assert!(matches!(
        Market::create(SUBJECT, Some(params), 10),
        Err(SolSocialError::InvalidFeeStructure)
    ));
}

#[test]
fn positions_add_up_to_the_supply_after_every_trade() {
    let mut market = Market::create(SUBJECT, Some(steep_curve()), 10).unwrap();
    assert_consistent(&market);
    market.buy(&ANN, u64::MAX, 3, u64::MAX, 11).unwrap();
    assert_consistent(&market);
    market.buy(&BEN, u64::MAX, 5, u64::MAX, 12).unwrap();
    assert_consistent(&market);
    market.buy(&ANN, u64::MAX, 2, u64::MAX, 13).unwrap();
    assert_consistent(&market);
    market.sell(&BEN, u64::MAX, 5, 0, 14).unwrap();
    assert_consistent(&market);
    market.sell(&ANN, u64::MAX, 1, 0, 15).unwrap();
    assert_consistent(&market);
    market.buy(&BEN, u64::MAX, 1, u64::MAX, 16).unwrap();
    assert_consistent(&market);
    market.sell(&SUBJECT, u64::MAX, 1, 0, 17).unwrap();
    assert_consistent(&market);
    assert!(market.buy(&CAT, 5, 1, u64::MAX, 18).is_err());
    assert_consistent(&market);
    assert!(market.sell(&CAT, u64::MAX, 1, 0, 19).is_err());
    assert_consistent(&market);
    assert_eq!(market.keys().supply, 5);
    assert_eq!(market.keys().holders, 2);
    assert_eq!(held(&market, &ANN), 4);
    assert_eq!(held(&market, &BEN), 1);
    assert_eq!(held(&market, &SUBJECT), 0);
    assert_eq!(market.position(&CAT), None);
}

#[test]
fn market_books_prices_and_fees() {
    let mut market = Market::create(SUBJECT, Some(steep_curve()), 10).unwrap();
    // Keys 1 to 5 cost 1000 + 1000 + 1000 + 1001 + 1002.
    let bought = market.buy(&ANN, 10_000, 5, 5_003, 11).unwrap();
    assert_eq!(bought.event.price, 5_003);
    assert_eq!(bought.event.subject_fee, 250);
    assert_eq!(bought.event.protocol_fee, 125);
    assert_eq!(bought.event.total_paid, 5_378);
    assert_eq!(bought.event.supply_after, 6);
    assert_eq!(market.keys(), bought.keys);
    assert_eq!(market.position(&ANN), Some(bought.holder));
    assert_eq!(bought.holder.avg_price, 1_000);
    // Keys 4 and 5 pay back 1001 + 1002.
    let sold = market.sell(&ANN, 5_003, 2, 2_003, 12).unwrap();
    assert_eq!(sold.event.price, 2_003);
    assert_eq!(sold.event.creator_fee, 100);
    assert_eq!(sold.event.protocol_fee, 50);
    assert_eq!(sold.event.net_proceeds, 1_853);
    assert_eq!(sold.event.new_supply, 4);
    assert_eq!(market.keys().volume, 7_006);
    assert_eq!(market.keys().creator_earnings, 350);
    assert_eq!(market.keys().protocol_fees, 175);
    // 3 of 5 keys keep three fifths of 5003, rounded down.
    assert_eq!(market.position(&ANN).unwrap().total_invested, 3_001);
}

#[test]
fn oversell_leaves_the_market_as_it_was() {
    let mut market = Market::create(SUBJECT, Some(steep_curve()), 10).unwrap();
    market.buy(&ANN, u64::MAX, 3, u64::MAX, 11).unwrap();
    let keys = market.keys();
    let ann = market.position(&ANN);
    let creator = market.position(&SUBJECT);
    assert_eq!(
        market.sell(&ANN, u64::MAX, 4, 0, 12).unwrap_err(),
        SolSocialError::InsufficientShares
    );
    assert_eq!(market.keys(), keys);
    assert_eq!(market.position(&ANN), ann);
    assert_eq!(market.position(&SUBJECT), creator);
    assert_eq!(ann.unwrap().amount, 3);
}

#[test]
fn every_refusal_leaves_the_market_as_it_was() {
    let mut market = Market::create(SUBJECT, Some(steep_curve()), 10).unwrap();
    market.buy(&ANN, u64::MAX, 3, u64::MAX, 11).unwrap();
    let keys = market.keys();
    let ann = market.position(&ANN);
    let refused = [
        market.buy(&ANN, u64::MAX, 0, u64::MAX, 12).unwrap_err(),
        market.buy(&SUBJECT, u64::MAX, 1, u64::MAX, 12).unwrap_err(),
        market.buy(&BEN, u64::MAX, 47, u64::MAX, 12).unwrap_err(),
        market.buy(&BEN, u64::MAX, 1, 1_000, 12).unwrap_err(),
        market.buy(&BEN, 1_075, 1, u64::MAX, 12).unwrap_err(),
        market.sell(&ANN, u64::MAX, 0, 0, 12).unwrap_err(),
        market.sell(&BEN, u64::MAX, 1, 0, 12).unwrap_err(),
        market.sell(&ANN, u64::MAX, 1, 1_001, 12).unwrap_err(),
        market.sell(&ANN, 999, 1, 0, 12).unwrap_err(),
    ];
    assert_eq!(
        refused,
        [
            SolSocialError::InvalidQuantity,
            SolSocialError::CannotBuyOwnKeys,
            SolSocialError::SupplyLimitExceeded,
            SolSocialError::SlippageExceeded,
            SolSocialError::InsufficientBalance,
            SolSocialError::InvalidQuantity,
            SolSocialError::InsufficientShares,
            SolSocialError::SlippageExceeded,
            SolSocialError::InsufficientBalance,
        ]
    );
    assert_eq!(market.keys(), keys);
    assert_eq!(market.position(&ANN), ann);
    assert_eq!(market.position(&BEN), None);
    assert_consistent(&market);
}

#[test]
fn halted_market_takes_no_purchases() {
    let mut market = Market::create(SUBJECT, Some(steep_curve()), 10).unwrap();
    market.buy(&ANN, u64::MAX, 2, u64::MAX, 11).unwrap();
    market.set_active(false);
    assert!(!market.keys().is_active);
    assert_eq!(
        market.buy(&BEN, u64::MAX, 1, u64::MAX, 12).unwrap_err(),
        SolSocialError::KeysNotActive
    );
    assert!(market.sell(&ANN, u64::MAX, 1, 0, 13).is_ok());
    market.set_active(true);
    assert!(market.buy(&BEN, u64::MAX, 1, u64::MAX, 14).is_ok());
    assert_consistent(&market);
}

#[test]
fn market_fills_up_to_the_maximum_supply() {
    let mut market = Market::create(SUBJECT, Some(steep_curve()), 10).unwrap();
    assert_eq!(
        market.buy(&ANN, u64::MAX, 50, u64::MAX, 11).unwrap_err(),
        SolSocialError::SupplyLimitExceeded
    );
    let done = market.buy(&ANN, u64::MAX, 49, u64::MAX, 11).unwrap();
    assert_eq!(done.keys.supply, 50);
    assert_eq!(
        market.buy(&BEN, u64::MAX, 1, u64::MAX, 12).unwrap_err(),
        SolSocialError::SupplyLimitExceeded
    );
    let back = market.sell(&ANN, u64::MAX, 49, 0, 13).unwrap();
    assert_eq!(back.event.price, done.event.price);
    assert_consistent(&market);
}

#[test]
fn keys_are_created_once_for_a_subject() {
    let mut all = Marketplace::new();
    assert_eq!(all.keys(&SUBJECT), None);
    assert_eq!(all.create_keys(SUBJECT, None, 1), Ok(()));
    assert_eq!(all.create_keys(SUBJECT, None, 2), Err(SolSocialError::AlreadyExists));
    assert_eq!(
        all.create_keys(SUBJECT, Some(steep_curve()), 2),
        Err(SolSocialError::AlreadyExists)
    );
    assert_eq!(all.create_keys(OTHER_SUBJECT, Some(steep_curve()), 3), Ok(()));
    let keys = all.keys(&SUBJECT).unwrap();
    assert_eq!(keys.supply, 1);
    assert_eq!(keys.holders, 1);
    assert_eq!(keys.created_at, 1);
    assert_eq!(all.keys(&OTHER_SUBJECT).unwrap().curve_params, steep_curve());
    let creator = all.position(&SUBJECT, &SUBJECT).unwrap();
    assert_eq!(creator.amount, 1);
    assert_eq!(creator.avg_price, 0);
    assert_eq!(all.position(&SUBJECT, &OTHER_SUBJECT), None);
    assert_eq!(all.position(&ANN, &SUBJECT), None);
}

#[test]
fn creation_that_is_refused_creates_nothing() {
    let mut all = Marketplace::new();
    let mut params = steep_curve();
    params.protocol_fee = 1_501;
    assert_eq!(
        all.create_keys(SUBJECT, Some(params), 1),
        Err(SolSocialError::InvalidFeeStructure)
    );
    assert_eq!(all.keys(&SUBJECT), None);
    assert_eq!(all.create_keys(SUBJECT, None, 1), Ok(()));
}

#[test]
fn trades_need_keys_to_trade() {
    let mut all = Marketplace::new();
    assert_eq!(
        all.buy_keys(&SUBJECT, &ANN, u64::MAX, 1, u64::MAX, 1),
        Err(SolSocialError::NotFound)
    );
    assert_eq!(all.sell_keys(&SUBJECT, &ANN, u64::MAX, 1, 0, 1), Err(SolSocialError::NotFound));
    all.create_keys(SUBJECT, None, 1).unwrap();
    assert_eq!(
        all.buy_keys(&OTHER_SUBJECT, &ANN, u64::MAX, 1, u64::MAX, 1),
        Err(SolSocialError::NotFound)
    );
    assert!(all.buy_keys(&SUBJECT, &ANN, u64::MAX, 1, u64::MAX, 1).is_ok());
}

#[test]
fn trade_in_one_subject_leaves_the_others_alone() {
    let mut all = Marketplace::new();
    all.create_keys(SUBJECT, Some(steep_curve()), 1).unwrap();
    all.create_keys(OTHER_SUBJECT, Some(steep_curve()), 2).unwrap();
    all.buy_keys(&OTHER_SUBJECT, &ANN, u64::MAX, 2, u64::MAX, 3).unwrap();
    let other_keys = all.keys(&OTHER_SUBJECT);
    let other_ann = all.position(&OTHER_SUBJECT, &ANN);

    let done = all.buy_keys(&SUBJECT, &ANN, u64::MAX, 4, u64::MAX, 4).unwrap();
    assert_eq!(all.keys(&SUBJECT), Some(done.keys));
    assert_eq!(all.position(&SUBJECT, &ANN), Some(done.holder));
    assert_eq!(done.holder.amount, 4);
    assert_eq!(all.keys(&OTHER_SUBJECT), other_keys);
    assert_eq!(all.position(&OTHER_SUBJECT, &ANN), other_ann);

    // A subject may hold keys of another subject, not buy its own.
    assert!(all.buy_keys(&SUBJECT, &OTHER_SUBJECT, u64::MAX, 1, u64::MAX, 5).is_ok());
    assert_eq!(
        all.buy_keys(&SUBJECT, &SUBJECT, u64::MAX, 1, u64::MAX, 5),
        Err(SolSocialError::CannotBuyOwnKeys)
    );

    let sold = all.sell_keys(&SUBJECT, &ANN, u64::MAX, 4, 0, 6).unwrap();
    assert_eq!(sold.holder.amount, 0);
    assert_eq!(all.keys(&SUBJECT).unwrap().supply, 2);
    assert_eq!(all.keys(&SUBJECT).unwrap().holders, 2);
    assert_eq!(all.keys(&OTHER_SUBJECT), other_keys);
}

#[test]
fn refused_trade_leaves_every_market_as_it_was() {
    let mut all = Marketplace::new();
    all.create_keys(SUBJECT, Some(steep_curve()), 1).unwrap();
    all.buy_keys(&SUBJECT, &ANN, u64::MAX, 3, u64::MAX, 2).unwrap();
    let keys = all.keys(&SUBJECT);
    let ann = all.position(&SUBJECT, &ANN);
    assert_eq!(
        all.sell_keys(&SUBJECT, &ANN, u64::MAX, 4, 0, 3),
        Err(SolSocialError::InsufficientShares)
    );
    assert_eq!(
        all.buy_keys(&SUBJECT, &BEN, 10, 1, u64::MAX, 3),
        Err(SolSocialError::InsufficientBalance)
    );
    assert_eq!(all.keys(&SUBJECT), keys);
    assert_eq!(all.position(&SUBJECT, &ANN), ann);
    assert_eq!(all.position(&SUBJECT, &BEN), None);
}

#[test]
fn keys_of_one_subject_are_halted_alone() {
    let mut all = Marketplace::new();
    assert_eq!(all.set_active(&SUBJECT, false), Err(SolSocialError::NotFound));
    all.create_keys(SUBJECT, None, 1).unwrap();
    all.create_keys(OTHER_SUBJECT, None, 2).unwrap();
    assert_eq!(all.set_active(&SUBJECT, false), Ok(()));
    assert!(!all.keys(&SUBJECT).unwrap().is_active);
    assert!(all.keys(&OTHER_SUBJECT).unwrap().is_active);
    assert_eq!(
        all.buy_keys(&SUBJECT, &ANN, u64::MAX, 1, u64::MAX, 3),
        Err(SolSocialError::KeysNotActive)
    );
    assert!(all.buy_keys(&OTHER_SUBJECT, &ANN, u64::MAX, 1, u64::MAX, 3).is_ok());
    assert_eq!(all.set_active(&SUBJECT, true), Ok(()));
    assert!(all.buy_keys(&SUBJECT, &ANN, u64::MAX, 1, u64::MAX, 4).is_ok());
    assert_eq!(all.keys(&SUBJECT).unwrap().supply, 2);
}
