use crate::error::SolSocialError;
use crate::state::keys::{BondingCurveParams, TransactionType};
use vstd::arithmetic::div_mod::{lemma_div_is_ordered, lemma_div_pos_is_pos};
use vstd::prelude::*;

verus! {

/// The quadratic part of a key's price at `supply`: `supply * supply / price_factor`,
/// rounded down, and nothing where the factor is zero.
pub open spec fn curve_component(price_factor: u64, supply: int) -> int {
    if price_factor == 0 {
        0
    } else {
        (supply * supply) / (price_factor as int)
    }
}

/// The price of the key that is minted at `supply`, as a mathematical integer.
pub open spec fn unit_price(params: BondingCurveParams, supply: int) -> int {
    params.base_price + curve_component(params.price_factor, supply)
}

/// Whether the price at `supply` can be computed in 64 bits: the square of the supply and
/// the price itself both fit.
pub open spec fn price_fits(params: BondingCurveParams, supply: int) -> bool {
    supply * supply <= u64::MAX && unit_price(params, supply) <= u64::MAX
}

/// What `price_at` returns.
pub open spec fn price_at_result(params: BondingCurveParams, supply: u64) -> Result<
    u64,
    SolSocialError,
> {
    if supply >= params.max_supply {
        Err(SolSocialError::SupplyLimitExceeded)
    } else if !price_fits(params, supply as int) {
        Err(SolSocialError::ArithmeticOverflow)
    } else {
        Ok(unit_price(params, supply as int) as u64)
    }
}

/// The sum of the prices of the keys at supplies `lo`, `lo + 1`, ..., `hi - 1`.
pub open spec fn range_price(params: BondingCurveParams, lo: int, hi: int) -> int
    decreases hi - lo,
{
    if hi <= lo {
        0
    } else {
        range_price(params, lo, hi - 1) + unit_price(params, hi - 1)
    }
}

/// What pricing the keys at supplies `lo` to `hi - 1` one by one, from the lowest up,
/// comes to. The first key that cannot be priced decides the error: below the maximum
/// supply only an overflow can happen, of a price or of the running sum, and a key at or
/// beyond the maximum supply is refused.
pub open spec fn range_result(params: BondingCurveParams, lo: u64, hi: u64) -> Result<
    u64,
    SolSocialError,
> {
    let stop = if hi <= params.max_supply {
        hi
    } else {
        params.max_supply
    };
    if lo < stop && (!price_fits(params, stop - 1) || range_price(params, lo as int, stop as int)
        > u64::MAX) {
        Err(SolSocialError::ArithmeticOverflow)
    } else if lo < hi && hi > params.max_supply {
        Err(SolSocialError::SupplyLimitExceeded)
    } else {
        Ok(range_price(params, lo as int, hi as int) as u64)
    }
}

/// What `aggregate_price` returns for a purchase of `quantity` keys at `supply`: the sum
/// of the prices of the keys that are minted, `supply` to `supply + quantity - 1`.
pub open spec fn buy_price_result(params: BondingCurveParams, supply: u64, quantity: u64) -> Result<
    u64,
    SolSocialError,
> {
    if quantity == 0 {
        Err(SolSocialError::InvalidQuantity)
    } else if supply >= params.max_supply {
        Err(SolSocialError::SupplyLimitExceeded)
    } else if supply + quantity > u64::MAX {
        Err(SolSocialError::ArithmeticOverflow)
    } else if supply + quantity > params.max_supply {
        Err(SolSocialError::SupplyLimitExceeded)
    } else {
        range_result(params, supply, (supply + quantity) as u64)
    }
}

/// What `aggregate_price` returns for a sale of `quantity` keys at `supply`: the sum of
/// the prices of the keys that are burned, `supply - quantity` to `supply - 1`.
pub open spec fn sell_price_result(params: BondingCurveParams, supply: u64, quantity: u64) -> Result<
    u64,
    SolSocialError,
> {
    if quantity == 0 {
        Err(SolSocialError::InvalidQuantity)
    } else if quantity > supply {
        Err(SolSocialError::InsufficientSupply)
    } else {
        range_result(params, (supply - quantity) as u64, supply)
    }
}

/// What `aggregate_price` returns.
pub open spec fn aggregate_price_result(
    params: BondingCurveParams,
    supply: u64,
    quantity: u64,
    direction: TransactionType,
) -> Result<u64, SolSocialError> {
    match direction {
        TransactionType::Buy => buy_price_result(params, supply, quantity),
        TransactionType::Sell => sell_price_result(params, supply, quantity),
    }
}

/// The marginal price at `supply`: the price of the key minted last, and the base price
/// while no key is outstanding.
pub open spec fn current_price_result(params: BondingCurveParams, supply: u64) -> Result<
    u64,
    SolSocialError,
> {
    if supply == 0 {
        Ok(params.base_price)
    } else {
        price_at_result(params, (supply - 1) as u64)
    }
}

/// The supply that a trade of `quantity` keys at `supply` leaves.
pub open spec fn supply_after_result(supply: u64, quantity: u64, direction: TransactionType) -> Result<
    u64,
    SolSocialError,
> {
    match direction {
        TransactionType::Buy => if supply + quantity > u64::MAX {
            Err(SolSocialError::ArithmeticOverflow)
        } else {
            Ok((supply + quantity) as u64)
        },
        TransactionType::Sell => if quantity > supply {
            Err(SolSocialError::InsufficientSupply)
        } else {
            Ok((supply - quantity) as u64)
        },
    }
}

/// The distance between two prices in whole percent of the first, rounded down.
pub open spec fn impact_between(current_price: u64, new_price: u64) -> Result<u64, SolSocialError> {
    let distance = if new_price > current_price {
        new_price - current_price
    } else {
        current_price - new_price
    };
    if distance * 100 > u64::MAX || current_price == 0 {
        Err(SolSocialError::ArithmeticOverflow)
    } else {
        Ok((distance * 100 / (current_price as int)) as u64)
    }
}

/// What `price_impact` returns: how far the trade moves the marginal price, in whole
/// percent of the marginal price before it. A sale at supply zero moves nothing.
pub open spec fn price_impact_result(
    params: BondingCurveParams,
    supply: u64,
    quantity: u64,
    direction: TransactionType,
) -> Result<u64, SolSocialError> {
    if supply == 0 && direction == TransactionType::Sell {
        Ok(0)
    } else {
        match current_price_result(params, supply) {
            Err(e) => Err(e),
            Ok(current_price) => match supply_after_result(supply, quantity, direction) {
                Err(e) => Err(e),
                Ok(new_supply) => match current_price_result(params, new_supply) {
                    Err(e) => Err(e),
                    Ok(new_price) => impact_between(current_price, new_price),
                },
            },
        }
    }
}

proof fn lemma_square_ordered(a: int, b: int)
    requires
        0 <= a <= b,
    ensures
        0 <= a * a <= b * b,
{
    assert(0 <= a * a <= b * b) by (nonlinear_arith)
        requires
            0 <= a <= b,
    ;
}

/// The price of a key never falls as the supply grows, and is never under the base price.
pub proof fn lemma_unit_price_ordered(params: BondingCurveParams, s1: int, s2: int)
    requires
        0 <= s1 <= s2,
    ensures
        params.base_price <= unit_price(params, s1) <= unit_price(params, s2),
{
    lemma_square_ordered(s1, s2);
    if params.price_factor != 0 {
        lemma_div_is_ordered(s1 * s1, s2 * s2, params.price_factor as int);
        lemma_div_pos_is_pos(s1 * s1, params.price_factor as int);
    }
}

/// Where the price at a supply fits 64 bits, so does the price at every lower supply.
pub proof fn lemma_price_fits_below(params: BondingCurveParams, s1: int, s2: int)
    requires
        0 <= s1 <= s2,
        price_fits(params, s2),
    ensures
        price_fits(params, s1),
{
    lemma_square_ordered(s1, s2);
    lemma_unit_price_ordered(params, s1, s2);
}

/// The sum of the prices over a range grows with the range.
pub proof fn lemma_range_price_ordered(params: BondingCurveParams, lo: int, mid: int, hi: int)
    requires
        0 <= lo <= mid <= hi,
    ensures
        0 <= range_price(params, lo, mid) <= range_price(params, lo, hi),
    decreases hi - lo,
{
    if mid < hi {
        lemma_range_price_ordered(params, lo, mid, hi - 1);
        lemma_unit_price_ordered(params, hi - 1, hi - 1);
    } else if lo < mid {
        lemma_range_price_ordered(params, lo, mid - 1, mid - 1);
        lemma_unit_price_ordered(params, mid - 1, mid - 1);
    }
}

/// The curve is monotonic: of two supplies below the maximum, the higher one never has
/// the lower price. Where the price at the higher supply can be computed, so can the
/// price at the lower one.
pub proof fn lemma_price_monotonic(params: BondingCurveParams, s1: u64, s2: u64)
    requires
        s1 < s2 < params.max_supply,
    ensures
        unit_price(params, s1 as int) <= unit_price(params, s2 as int),
        price_at_result(params, s2) matches Ok(high) ==> (price_at_result(params, s1) matches Ok(
            low,
        ) && low <= high),
{
    lemma_unit_price_ordered(params, s1 as int, s2 as int);
    if price_fits(params, s2 as int) {
        lemma_price_fits_below(params, s1 as int, s2 as int);
    }
}

/// Buying and selling are symmetric: buying `quantity` keys at `supply` costs, before
/// fees, exactly what selling `quantity` keys at `supply + quantity` pays, and where one
/// of the two fails the other fails in the same way.
pub proof fn lemma_buy_sell_symmetry(params: BondingCurveParams, supply: u64, quantity: u64)
    requires
        supply + quantity < params.max_supply,
    ensures
        aggregate_price_result(params, supply, quantity, TransactionType::Buy)
            == aggregate_price_result(
            params,
            (supply + quantity) as u64,
            quantity,
            TransactionType::Sell,
        ),
{
}

impl BondingCurveParams {
    /// The price of the key that is minted at `supply`: the base price plus
    /// `supply * supply / price_factor`, rounded down. The square is formed in 128 bits
    /// and narrowed with a check.
    pub fn price_at(&self, supply: u64) -> (r: Result<u64, SolSocialError>)
        ensures
            r == price_at_result(*self, supply),
    {
        if supply >= self.max_supply {
            return Err(SolSocialError::SupplyLimitExceeded);
        }
        proof {
            lemma_square_ordered(supply as int, u64::MAX as int);
            assert(u64::MAX * u64::MAX <= u128::MAX) by (nonlinear_arith);
        }
        let wide: u128 = (supply as u128) * (supply as u128);
        if wide > u64::MAX as u128 {
            return Err(SolSocialError::ArithmeticOverflow);
        }
        let squared: u64 = wide as u64;
        let component: u64 = if self.price_factor == 0 {
            0
        } else {
            squared / self.price_factor
        };
        match self.base_price.checked_add(component) {
            Some(price) => Ok(price),
            None => Err(SolSocialError::ArithmeticOverflow),
        }
    }

    /// Prices the keys at supplies `lo` to `hi - 1` one by one, from the lowest up.
    fn sum_prices(&self, lo: u64, hi: u64) -> (r: Result<u64, SolSocialError>)
        ensures
            r == range_result(*self, lo, hi),
    {
        if hi <= lo {
            return Ok(0);
        }
        let mut total: u64 = 0;
        let mut i: u64 = lo;
        while i < hi
            invariant
                lo <= i <= hi,
                total == range_price(*self, lo as int, i as int),
                lo < i ==> i <= self.max_supply && price_fits(*self, i - 1),
            decreases hi - i,
        {
            let ghost stop: int = if hi <= self.max_supply {
                hi as int
            } else {
                self.max_supply as int
            };
            let price = match self.price_at(i) {
                Ok(price) => price,
                Err(e) => {
                    proof {
                        if i < self.max_supply && price_fits(*self, stop - 1) {
                            lemma_price_fits_below(*self, i as int, stop - 1);
                        }
                    }
                    return Err(e);
                },
            };
            let next = match total.checked_add(price) {
                Some(next) => next,
                None => {
                    proof {
                        lemma_range_price_ordered(*self, lo as int, i + 1, stop);
                    }
                    return Err(SolSocialError::ArithmeticOverflow);
                },
            };
            total = next;
            i = i + 1;
        }
        Ok(total)
    }

    /// The curve price of a trade of `quantity` keys at `supply`, before fees: for a
    /// purchase the prices of the keys that are minted, for a sale the prices of the keys
    /// that are burned.
    pub fn aggregate_price(&self, supply: u64, quantity: u64, direction: TransactionType) -> (r:
        Result<u64, SolSocialError>)
        ensures
            r == aggregate_price_result(*self, supply, quantity, direction),
    {
        if quantity == 0 {
            return Err(SolSocialError::InvalidQuantity);
        }
        match direction {
            TransactionType::Buy => {
                if supply >= self.max_supply {
                    return Err(SolSocialError::SupplyLimitExceeded);
                }
                let end = match supply.checked_add(quantity) {
                    Some(end) => end,
                    None => {
                        return Err(SolSocialError::ArithmeticOverflow);
                    },
                };
                if end > self.max_supply {
                    return Err(SolSocialError::SupplyLimitExceeded);
                }
                self.sum_prices(supply, end)
            },
            TransactionType::Sell => {
                if quantity > supply {
                    return Err(SolSocialError::InsufficientSupply);
                }
                self.sum_prices(supply - quantity, supply)
            },
        }
    }

    /// The marginal price at `supply`: the price of the key minted last, and the base
    /// price while no key is outstanding.
    pub fn current_price(&self, supply: u64) -> (r: Result<u64, SolSocialError>)
        ensures
            r == current_price_result(*self, supply),
    {
        if supply == 0 {
            Ok(self.base_price)
        } else {
            self.price_at(supply - 1)
        }
    }

    /// How far a trade of `quantity` keys at `supply` moves the marginal price, in whole
    /// percent of the marginal price before the trade.
    pub fn price_impact(&self, supply: u64, quantity: u64, direction: TransactionType) -> (r:
        Result<u64, SolSocialError>)
        ensures
            r == price_impact_result(*self, supply, quantity, direction),
    {
        let is_buy = match direction {
            TransactionType::Buy => true,
            TransactionType::Sell => false,
        };
        if supply == 0 && !is_buy {
            return Ok(0);
        }
        let current_price = match self.current_price(supply) {
            Ok(price) => price,
            Err(e) => {
                return Err(e);
            },
        };
        let new_supply = if is_buy {
            match supply.checked_add(quantity) {
                Some(sum) => sum,
                None => {
                    return Err(SolSocialError::ArithmeticOverflow);
                },
            }
        } else {
            match supply.checked_sub(quantity) {
                Some(rest) => rest,
                None => {
                    return Err(SolSocialError::InsufficientSupply);
                },
            }
        };
        let new_price = match self.current_price(new_supply) {
            Ok(price) => price,
            Err(e) => {
                return Err(e);
            },
        };
        let distance = if new_price > current_price {
            new_price - current_price
        } else {
            current_price - new_price
        };
        let scaled = match distance.checked_mul(100) {
            Some(scaled) => scaled,
            None => {
                return Err(SolSocialError::ArithmeticOverflow);
            },
        };
        if current_price == 0 {
            return Err(SolSocialError::ArithmeticOverflow);
        }
        Ok(scaled / current_price)
    }

    /// Accepts a trade of 1 to 100 keys that stays within the supply limits of this curve
    /// and moves the marginal price by at most 50%.
    pub fn validate_trade(&self, supply: u64, amount: u64, direction: TransactionType) -> (r:
        Result<(), SolSocialError>)
        ensures
            r == validate_trade_result(*self, supply, amount, direction),
    {
        if amount == 0 {
            return Err(SolSocialError::InvalidQuantity);
        }
        if amount > BondingCurve::MAX_TRADE_AMOUNT {
            return Err(SolSocialError::AmountTooLarge);
        }
        match direction {
            TransactionType::Buy => {
                if supply >= self.max_supply {
                    return Err(SolSocialError::SupplyLimitExceeded);
                }
                if amount > self.max_supply - supply {
                    return Err(SolSocialError::SupplyLimitExceeded);
                }
            },
            TransactionType::Sell => {
                if supply < amount {
                    return Err(SolSocialError::InsufficientSupply);
                }
            },
        }
        let price_impact = match self.price_impact(supply, amount, direction) {
            Ok(impact) => impact,
            Err(e) => {
                return Err(e);
            },
        };
        if price_impact > BondingCurve::MAX_PRICE_IMPACT_PERCENT {
            return Err(SolSocialError::PriceImpactTooHigh);
        }
        Ok(())
    }
}

/// The curve and the fee rates that keys are traded on where nothing else is configured:
/// a first key at 0.001 SOL, a quadratic term over 16000, at most a million keys, and 5%
/// each to the protocol and to the creator.
pub struct BondingCurve;

/// What a subject's keys are worth at one supply.
#[derive(Debug, Clone, Copy, PartialEq, Eq)]
pub struct TradingStats {
    /// Price of the key minted last.
    pub current_price: u64,
    /// Sum of the prices of all keys outstanding.
    pub market_cap: u64,
    pub supply: u64,
    /// Curve price of buying one key now.
    pub buy_price_1: u64,
    /// Curve price of selling one key now; zero while no key is outstanding.
    pub sell_price_1: u64,
}

/// The parameters that `BondingCurve` prices with.
pub open spec fn standard_curve() -> BondingCurveParams {
    BondingCurveParams {
        base_price: BondingCurve::BASE_PRICE,
        price_factor: BondingCurve::PRICE_MULTIPLIER,
        max_supply: BondingCurve::MAX_SUPPLY,
        creator_fee: 500,
        protocol_fee: 500,
    }
}

/// The direction that a flag `is_buy` stands for.
pub open spec fn direction_of(is_buy: bool) -> TransactionType {
    if is_buy {
        TransactionType::Buy
    } else {
        TransactionType::Sell
    }
}

/// A fee of `percent` percent on `price`, rounded down. The product is formed in 64 bits.
pub open spec fn percent_fee_result(price: u64, percent: u64) -> Result<u64, SolSocialError> {
    if price * percent > u64::MAX {
        Err(SolSocialError::ArithmeticOverflow)
    } else {
        Ok((price * percent / 100) as u64)
    }
}

/// What `get_buy_price_after_fees` returns: what the buyer pays in all, the protocol's
/// fee and the creator's fee. The fees come on top of the curve price.
pub open spec fn buy_price_after_fees_result(supply: u64, amount: u64) -> Result<
    (u64, u64, u64),
    SolSocialError,
> {
    match buy_price_result(standard_curve(), supply, amount) {
        Err(e) => Err(e),
        Ok(base_price) => match percent_fee_result(base_price, BondingCurve::PROTOCOL_FEE_PERCENT) {
            Err(e) => Err(e),
            Ok(protocol_fee) => match percent_fee_result(
                base_price,
                BondingCurve::CREATOR_FEE_PERCENT,
            ) {
                Err(e) => Err(e),
                Ok(creator_fee) => if base_price + protocol_fee + creator_fee > u64::MAX {
                    Err(SolSocialError::ArithmeticOverflow)
                } else {
                    Ok(((base_price + protocol_fee + creator_fee) as u64, protocol_fee, creator_fee))
                },
            },
        },
    }
}

/// What `get_sell_price_after_fees` returns: what the seller receives, the protocol's fee
/// and the creator's fee. The fees are taken out of the curve price.
pub open spec fn sell_price_after_fees_result(supply: u64, amount: u64) -> Result<
    (u64, u64, u64),
    SolSocialError,
> {
    match sell_price_result(standard_curve(), supply, amount) {
        Err(e) => Err(e),
        Ok(base_price) => match percent_fee_result(base_price, BondingCurve::PROTOCOL_FEE_PERCENT) {
            Err(e) => Err(e),
            Ok(protocol_fee) => match percent_fee_result(
                base_price,
                BondingCurve::CREATOR_FEE_PERCENT,
            ) {
                Err(e) => Err(e),
                Ok(creator_fee) => Ok(
                    ((base_price - protocol_fee - creator_fee) as u64, protocol_fee, creator_fee),
                ),
            },
        },
    }
}

/// What `get_market_cap` returns: the sum of the prices of all keys from the first to
/// the one minted last.
pub open spec fn market_cap_result(supply: u64) -> Result<u64, SolSocialError> {
    if supply == 0 {
        Ok(0)
    } else {
        buy_price_result(standard_curve(), 0, supply)
    }
}

/// What `validate_trade` returns: a trade of 1 to 100 keys that stays within the supply
/// limits and moves the marginal price by at most 50% is accepted.
pub open spec fn validate_trade_result(
    params: BondingCurveParams,
    supply: u64,
    amount: u64,
    direction: TransactionType,
) -> Result<(), SolSocialError> {
    if amount == 0 {
        Err(SolSocialError::InvalidQuantity)
    } else if amount > BondingCurve::MAX_TRADE_AMOUNT {
        Err(SolSocialError::AmountTooLarge)
    } else if direction == TransactionType::Buy && (supply >= params.max_supply || supply + amount
        > params.max_supply) {
        Err(SolSocialError::SupplyLimitExceeded)
    } else if direction == TransactionType::Sell && supply < amount {
        Err(SolSocialError::InsufficientSupply)
    } else {
        match price_impact_result(params, supply, amount, direction) {
            Err(e) => Err(e),
            Ok(impact) => if impact > BondingCurve::MAX_PRICE_IMPACT_PERCENT {
                Err(SolSocialError::PriceImpactTooHigh)
            } else {
                Ok(())
            },
        }
    }
}

/// The curve price of selling one key at `supply`, and zero while no key is outstanding.
pub open spec fn sell_one_result(supply: u64) -> Result<u64, SolSocialError> {
    if supply == 0 {
        Ok(0)
    } else {
        sell_price_result(standard_curve(), supply, 1)
    }
}

/// What `get_trading_stats` returns.
pub open spec fn trading_stats_result(supply: u64) -> Result<TradingStats, SolSocialError> {
    match current_price_result(standard_curve(), supply) {
        Err(e) => Err(e),
        Ok(current_price) => match market_cap_result(supply) {
            Err(e) => Err(e),
            Ok(market_cap) => match buy_price_result(standard_curve(), supply, 1) {
                Err(e) => Err(e),
                Ok(buy_price_1) => match sell_one_result(supply) {
                    Err(e) => Err(e),
                    Ok(sell_price_1) => Ok(
                        TradingStats { current_price, market_cap, supply, buy_price_1, sell_price_1 },
                    ),
                },
            },
        },
    }
}

/// On the standard curve every supply below the maximum has a price, under 63.5 million
/// lamports.
pub proof fn lemma_standard_price_fits(supply: int)
    requires
        0 <= supply < BondingCurve::MAX_SUPPLY,
    ensures
        price_fits(standard_curve(), supply),
        unit_price(standard_curve(), supply) == 1_000_000 + supply * supply / 16000,
        1_000_000 <= unit_price(standard_curve(), supply) < 63_500_000,
{
    assert(0 <= supply * supply <= 999_999 * 999_999) by (nonlinear_arith)
        requires
            0 <= supply <= 999_999,
    ;
}

/// On the standard curve the prices of any range of keys below the maximum supply add up
/// to less than 63.5 million lamports a key, which fits 64 bits with room to spare.
pub proof fn lemma_standard_range_fits(lo: int, hi: int)
    requires
        0 <= lo <= hi <= BondingCurve::MAX_SUPPLY,
    ensures
        0 <= range_price(standard_curve(), lo, hi) <= (hi - lo) * 63_500_000,
        range_price(standard_curve(), lo, hi) <= 63_500_000_000_000,
    decreases hi - lo,
{
    if lo < hi {
        lemma_standard_range_fits(lo, hi - 1);
        lemma_standard_price_fits(hi - 1);
    }
}

/// On the standard curve a range of keys that ends at or below the maximum supply is
/// always priced.
pub proof fn lemma_standard_range_result(lo: u64, hi: u64)
    requires
        lo <= hi <= BondingCurve::MAX_SUPPLY,
    ensures
        range_result(standard_curve(), lo, hi) == Ok::<u64, SolSocialError>(
            range_price(standard_curve(), lo as int, hi as int) as u64,
        ),
{
    lemma_standard_range_fits(lo as int, hi as int);
    if lo < hi {
        lemma_standard_price_fits(hi - 1);
    }
}

/// On the standard curve a hundred keys move the price by less than a hundredth of it:
/// of two supplies below the maximum that are at most a hundred keys apart, the prices
/// differ by less than 1% of the lower price.
pub proof fn lemma_standard_prices_close(low: int, high: int)
    requires
        0 <= low <= high < BondingCurve::MAX_SUPPLY,
        high - low <= 100,
    ensures
        0 <= 100 * (unit_price(standard_curve(), high) - unit_price(standard_curve(), low))
            < unit_price(standard_curve(), low),
{
    lemma_unit_price_ordered(standard_curve(), low, high);
    let q_low = (low * low) / 16000;
    let q_high = (high * high) / 16000;
    assert(16000 * q_low <= low * low < 16000 * q_low + 16000 && 16000 * q_high <= high * high)
        by (nonlinear_arith)
        requires
            q_low == (low * low) / 16000,
            q_high == (high * high) / 16000,
    ;
    assert(high * high <= low * low + 200 * low + 10000) by (nonlinear_arith)
        requires
            0 <= low <= high,
            high - low <= 100,
    ;
    assert(low * low - 20000 * low + 15_997_384_000 >= 0) by (nonlinear_arith)
        requires
            0 <= low,
    ;
}

/// On the standard curve a trade of at most a hundred keys within the supply limits
/// moves the marginal price by less than one percent.
pub proof fn lemma_standard_impact(supply: u64, amount: u64, direction: TransactionType)
    requires
        amount <= BondingCurve::MAX_TRADE_AMOUNT,
        direction == TransactionType::Buy ==> supply + amount <= BondingCurve::MAX_SUPPLY,
        direction == TransactionType::Sell ==> amount <= supply <= BondingCurve::MAX_SUPPLY,
    ensures
        price_impact_result(standard_curve(), supply, amount, direction) == Ok::<
            u64,
            SolSocialError,
        >(0),
{
    if supply == 0 && direction == TransactionType::Sell {
    } else {
        let new_supply: int = if direction == TransactionType::Buy {
            supply + amount
        } else {
            supply - amount
        };
        let current_at: int = if supply == 0 {
            0
        } else {
            supply - 1
        };
        let new_at: int = if new_supply == 0 {
            0
        } else {
            new_supply - 1
        };
        lemma_standard_price_fits(current_at);
        lemma_standard_price_fits(new_at);
        let current_price = unit_price(standard_curve(), current_at);
        let new_price = unit_price(standard_curve(), new_at);
        assert(current_price_result(standard_curve(), supply) == Ok::<u64, SolSocialError>(
            current_price as u64,
        ));
        assert(current_price_result(standard_curve(), new_supply as u64) == Ok::<
            u64,
            SolSocialError,
        >(new_price as u64));
        if current_at <= new_at {
            lemma_standard_prices_close(current_at, new_at);
            let scaled = 100 * (new_price - current_price);
            assert(scaled / current_price == 0) by (nonlinear_arith)
                requires
                    0 <= scaled < current_price,
            ;
            assert((new_price - current_price) * 100 == scaled);
        } else {
            lemma_standard_prices_close(new_at, current_at);
            let scaled = 100 * (current_price - new_price);
            assert(scaled / current_price == 0) by (nonlinear_arith)
                requires
                    0 <= scaled < current_price,
            ;
            assert((current_price - new_price) * 100 == scaled);
        }
    }
}

impl BondingCurve {
    /// Price of the first key, in lamports (0.001 SOL).
    pub const BASE_PRICE: u64 = 1_000_000;

    /// Divisor of the quadratic term of the price.
    pub const PRICE_MULTIPLIER: u64 = 16000;

    /// Supply at which the curve ends.
    pub const MAX_SUPPLY: u64 = 1_000_000;

    /// Protocol's fee, in percent of the curve price.
    pub const PROTOCOL_FEE_PERCENT: u64 = 5;

    /// Creator's fee, in percent of the curve price.
    pub const CREATOR_FEE_PERCENT: u64 = 5;

    /// The most keys that one validated trade may move.
    pub const MAX_TRADE_AMOUNT: u64 = 100;

    /// The furthest that one validated trade may move the marginal price, in percent.
    pub const MAX_PRICE_IMPACT_PERCENT: u64 = 50;

    fn curve() -> (r: BondingCurveParams)
        ensures
            r == standard_curve(),
    {
        BondingCurveParams {
            base_price: Self::BASE_PRICE,
            price_factor: Self::PRICE_MULTIPLIER,
            max_supply: Self::MAX_SUPPLY,
            creator_fee: 500,
            protocol_fee: 500,
        }
    }

    fn percent_fee(price: u64, percent: u64) -> (r: Result<u64, SolSocialError>)
        ensures
            r == percent_fee_result(price, percent),
    {
        match price.checked_mul(percent) {
            Some(product) => Ok(product / 100),
            None => Err(SolSocialError::ArithmeticOverflow),
        }
    }

    /// The curve price of buying `amount` keys at `supply`: the sum of the prices of the
    /// keys at supplies `supply` to `supply + amount - 1`. It is owed for every purchase
    /// of at least one key that stays within the maximum supply.
    pub fn get_buy_price(supply: u64, amount: u64) -> (r: Result<u64, SolSocialError>)
        ensures
            r == buy_price_result(standard_curve(), supply, amount),
            r is Ok <==> amount > 0 && supply + amount <= Self::MAX_SUPPLY,
            r matches Ok(price) ==> price == range_price(
                standard_curve(),
                supply as int,
                supply + amount,
            ),
    {
        proof {
            if amount > 0 && supply + amount <= Self::MAX_SUPPLY {
                lemma_standard_range_result(supply, (supply + amount) as u64);
                lemma_standard_range_fits(supply as int, supply + amount);
            }
        }
        Self::curve().aggregate_price(supply, amount, TransactionType::Buy)
    }

    /// The curve price of selling `amount` keys at `supply`: the sum of the prices of the
    /// keys at supplies `supply - amount` to `supply - 1`.
    pub fn get_sell_price(supply: u64, amount: u64) -> (r: Result<u64, SolSocialError>)
        ensures
            r == sell_price_result(standard_curve(), supply, amount),
            0 < amount <= supply <= Self::MAX_SUPPLY ==> r is Ok,
            r matches Ok(price) ==> price == range_price(
                standard_curve(),
                supply - amount,
                supply as int,
            ),
    {
        proof {
            if 0 < amount <= supply <= Self::MAX_SUPPLY {
                lemma_standard_range_result((supply - amount) as u64, supply);
                lemma_standard_range_fits(supply - amount, supply as int);
            }
        }
        Self::curve().aggregate_price(supply, amount, TransactionType::Sell)
    }

    /// The price of the key that is minted at `supply`:
    /// `BASE_PRICE + supply * supply / PRICE_MULTIPLIER`.
    pub fn get_price_at_supply(supply: u64) -> (r: Result<u64, SolSocialError>)
        ensures
            r == price_at_result(standard_curve(), supply),
            supply < Self::MAX_SUPPLY ==> r == Ok::<u64, SolSocialError>(
                (1_000_000 + supply * supply / 16000) as u64,
            ),
            supply >= Self::MAX_SUPPLY ==> r == Err::<u64, SolSocialError>(
                SolSocialError::SupplyLimitExceeded,
            ),
    {
        proof {
            if supply < Self::MAX_SUPPLY {
                lemma_standard_price_fits(supply as int);
            }
        }
        Self::curve().price_at(supply)
    }

    /// The protocol's fee on a curve price: 5%, rounded down.
    pub fn get_protocol_fee(price: u64) -> (r: Result<u64, SolSocialError>)
        ensures
            r == percent_fee_result(price, Self::PROTOCOL_FEE_PERCENT),
    {
        Self::percent_fee(price, Self::PROTOCOL_FEE_PERCENT)
    }

    /// The creator's fee on a curve price: 5%, rounded down.
    pub fn get_creator_fee(price: u64) -> (r: Result<u64, SolSocialError>)
        ensures
            r == percent_fee_result(price, Self::CREATOR_FEE_PERCENT),
    {
        Self::percent_fee(price, Self::CREATOR_FEE_PERCENT)
    }

    /// What buying `amount` keys at `supply` costs in all, with the protocol's fee and
    /// the creator's fee that are part of it.
    pub fn get_buy_price_after_fees(supply: u64, amount: u64) -> (r: Result<
        (u64, u64, u64),
        SolSocialError,
    >)
        ensures
            r == buy_price_after_fees_result(supply, amount),
            r is Ok <==> amount > 0 && supply + amount <= Self::MAX_SUPPLY,
    {
        let base_price = match Self::get_buy_price(supply, amount) {
            Ok(price) => price,
            Err(e) => {
                return Err(e);
            },
        };
        proof {
            lemma_standard_range_fits(supply as int, supply + amount);
        }
        let protocol_fee = match Self::get_protocol_fee(base_price) {
            Ok(fee) => fee,
            Err(e) => {
                return Err(e);
            },
        };
        let creator_fee = match Self::get_creator_fee(base_price) {
            Ok(fee) => fee,
            Err(e) => {
                return Err(e);
            },
        };
        let with_protocol = match base_price.checked_add(protocol_fee) {
            Some(sum) => sum,
            None => {
                return Err(SolSocialError::ArithmeticOverflow);
            },
        };
        match with_protocol.checked_add(creator_fee) {
            Some(total_price) => Ok((total_price, protocol_fee, creator_fee)),
            None => Err(SolSocialError::ArithmeticOverflow),
        }
    }

    /// What selling `amount` keys at `supply` pays out, with the protocol's fee and the
    /// creator's fee that were taken from it.
    pub fn get_sell_price_after_fees(supply: u64, amount: u64) -> (r: Result<
        (u64, u64, u64),
        SolSocialError,
    >)
        ensures
            r == sell_price_after_fees_result(supply, amount),
            0 < amount <= supply <= Self::MAX_SUPPLY ==> r is Ok,
            r matches Ok((net_price, protocol_fee, creator_fee)) ==> sell_price_result(
                standard_curve(),
                supply,
                amount,
            ) == Ok::<u64, SolSocialError>((net_price + protocol_fee + creator_fee) as u64),
    {
        let base_price = match Self::get_sell_price(supply, amount) {
            Ok(price) => price,
            Err(e) => {
                return Err(e);
            },
        };
        proof {
            if supply <= Self::MAX_SUPPLY {
                lemma_standard_range_fits(supply - amount, supply as int);
            }
        }
        let protocol_fee = match Self::get_protocol_fee(base_price) {
            Ok(fee) => fee,
            Err(e) => {
                return Err(e);
            },
        };
        let creator_fee = match Self::get_creator_fee(base_price) {
            Ok(fee) => fee,
            Err(e) => {
                return Err(e);
            },
        };
        Ok((base_price - protocol_fee - creator_fee, protocol_fee, creator_fee))
    }

    /// The sum of the prices of all `supply` keys outstanding.
    pub fn get_market_cap(supply: u64) -> (r: Result<u64, SolSocialError>)
        ensures
            r == market_cap_result(supply),
            r is Ok <==> supply <= Self::MAX_SUPPLY,
            r matches Ok(cap) ==> cap == range_price(standard_curve(), 0, supply as int),
    {
        if supply == 0 {
            return Ok(0);
        }
        Self::get_buy_price(0, supply)
    }

    /// How far a trade of `amount` keys at `supply` moves the marginal price, in whole
    /// percent of the marginal price before the trade.
    pub fn get_price_impact(supply: u64, amount: u64, is_buy: bool) -> (r: Result<
        u64,
        SolSocialError,
    >)
        ensures
            r == price_impact_result(standard_curve(), supply, amount, direction_of(is_buy)),
    {
        let direction = if is_buy {
            TransactionType::Buy
        } else {
            TransactionType::Sell
        };
        Self::curve().price_impact(supply, amount, direction)
    }

    /// Accepts a trade of 1 to 100 keys that stays within the supply limits and moves the
    /// marginal price by at most 50%.
    pub fn validate_trade(supply: u64, amount: u64, is_buy: bool) -> (r: Result<
        (),
        SolSocialError,
    >)
        ensures
            r == validate_trade_result(standard_curve(), supply, amount, direction_of(is_buy)),
            r is Ok <==> 0 < amount <= Self::MAX_TRADE_AMOUNT && (if is_buy {
                supply + amount <= Self::MAX_SUPPLY
            } else {
                amount <= supply <= Self::MAX_SUPPLY
            }),
    {
        let direction = if is_buy {
            TransactionType::Buy
        } else {
            TransactionType::Sell
        };
        proof {
            if 0 < amount <= Self::MAX_TRADE_AMOUNT {
                if is_buy && supply + amount <= Self::MAX_SUPPLY {
                    lemma_standard_impact(supply, amount, direction);
                }
                if !is_buy && amount <= supply <= Self::MAX_SUPPLY {
                    lemma_standard_impact(supply, amount, direction);
                }
            }
        }
        Self::curve().validate_trade(supply, amount, direction)
    }

    /// The marginal price, the market cap and the prices of buying and of selling one key
    /// at `supply`. They exist for every supply below the maximum.
    pub fn get_trading_stats(supply: u64) -> (r: Result<TradingStats, SolSocialError>)
        ensures
            r == trading_stats_result(supply),
            r is Ok <==> supply < Self::MAX_SUPPLY,
    {
        proof {
            if 0 < supply <= Self::MAX_SUPPLY {
                lemma_standard_price_fits(supply - 1);
                lemma_standard_range_result((supply - 1) as u64, supply);
            }
        }
        let current_price = match Self::curve().current_price(supply) {
            Ok(price) => price,
            Err(e) => {
                return Err(e);
            },
        };
        let market_cap = match Self::get_market_cap(supply) {
            Ok(cap) => cap,
            Err(e) => {
                return Err(e);
            },
        };
        let buy_price_1 = match Self::get_buy_price(supply, 1) {
            Ok(price) => price,
            Err(e) => {
                return Err(e);
            },
        };
        let sell_price_1 = if supply > 0 {
            match Self::get_sell_price(supply, 1) {
                Ok(price) => price,
                Err(e) => {
                    return Err(e);
                },
            }
        } else {
            0
        };
        Ok(TradingStats { current_price, market_cap, supply, buy_price_1, sell_price_1 })
    }
}

} // verus!
