use crate::error::SolSocialError;
use vstd::prelude::*;

verus! {

/// Share of a trade that goes to the protocol treasury, in basis points.
pub const PROTOCOL_FEE_BPS: u16 = 500;

/// Share of a trade that goes to the creator of the keys, in basis points.
pub const CREATOR_FEE_BPS: u16 = 500;

/// Share of a trade that goes to the referrer, where there is one, in basis points.
pub const REFERRER_FEE_BPS: u16 = 100;

/// The most that the three fee rates together may come to, in basis points.
pub const MAX_TOTAL_FEE_BPS: u16 = 2000;

/// How one gross amount divides between the protocol, the creator, the referrer and the
/// party that keeps the rest.
#[derive(Debug, Clone, Copy, PartialEq, Eq)]
pub struct RevenueDistribution {
    pub protocol_fee: u64,
    pub creator_fee: u64,
    pub referrer_fee: u64,
    pub net_amount: u64,
}

/// What has been traded in one subject's keys, by direction, in lamports.
#[derive(Debug, Clone, Copy, PartialEq, Eq)]
pub struct VolumeMetrics {
    pub total_buy_volume: u64,
    pub total_sell_volume: u64,
    /// Purchases and sales together.
    pub total_volume: u64,
}

/// The lamports that the parties to a trade hold. The four accounts are distinct.
#[derive(Debug, Clone, Copy, PartialEq, Eq)]
pub struct TradeBalances {
    pub trader: u64,
    pub creator: u64,
    pub protocol_treasury: u64,
    pub referrer: Option<u64>,
}

/// An account that takes part in a distribution of rewards, with the shares it takes
/// part with.
#[derive(Debug, Clone, Copy, PartialEq, Eq)]
pub struct RewardRecipient {
    pub balance: u64,
    pub shares: u64,
}

/// The fee on `amount` at `fee_bps` basis points, rounded down.
pub open spec fn fee_amount(amount: u64, fee_bps: u16) -> int {
    (amount * fee_bps) / 10000
}

/// What `calculate_fee` returns: the fee, or an overflow where it does not fit 64 bits.
pub open spec fn fee_result(amount: u64, fee_bps: u16) -> Result<u64, SolSocialError> {
    if fee_amount(amount, fee_bps) <= u64::MAX {
        Ok(fee_amount(amount, fee_bps) as u64)
    } else {
        Err(SolSocialError::ArithmeticOverflow)
    }
}

/// The referrer's fee on `amount`: nothing where there is no referrer.
pub open spec fn referrer_fee_amount(amount: u64, referrer_bps: Option<u16>) -> int {
    match referrer_bps {
        Some(bps) => fee_amount(amount, bps),
        None => 0,
    }
}

/// What `split` returns. Each fee is taken from the same gross amount; the net amount is
/// what is left after all three.
pub open spec fn split_result(
    gross_amount: u64,
    protocol_bps: u16,
    creator_bps: u16,
    referrer_bps: Option<u16>,
) -> Result<RevenueDistribution, SolSocialError> {
    let protocol = fee_amount(gross_amount, protocol_bps);
    let creator = fee_amount(gross_amount, creator_bps);
    let referrer = referrer_fee_amount(gross_amount, referrer_bps);
    if protocol > u64::MAX || creator > u64::MAX || referrer > u64::MAX {
        Err(SolSocialError::ArithmeticOverflow)
    } else if protocol + creator + referrer > gross_amount {
        Err(SolSocialError::FeeExceedsAmount)
    } else {
        Ok(
            RevenueDistribution {
                protocol_fee: protocol as u64,
                creator_fee: creator as u64,
                referrer_fee: referrer as u64,
                net_amount: (gross_amount - protocol - creator - referrer) as u64,
            },
        )
    }
}

/// The rates a deployment without its own configuration charges.
pub open spec fn standard_referrer_bps(has_referrer: bool) -> Option<u16> {
    if has_referrer {
        Some(REFERRER_FEE_BPS)
    } else {
        None
    }
}

/// What `validate_fee_parameters` returns.
pub open spec fn fee_parameters_result(
    protocol_fee_bps: u16,
    creator_fee_bps: u16,
    referrer_fee_bps: u16,
) -> Result<(), SolSocialError> {
    let total = protocol_fee_bps + creator_fee_bps + referrer_fee_bps;
    if total > u16::MAX {
        Err(SolSocialError::ArithmeticOverflow)
    } else if total > MAX_TOTAL_FEE_BPS {
        Err(SolSocialError::InvalidFeeStructure)
    } else {
        Ok(())
    }
}

/// What `calculate_holder_rewards` returns: the holder's part of the pool in proportion to
/// the keys held, rounded down; nothing for a holder without keys or a subject without supply.
pub open spec fn holder_rewards_result(
    user_keys_held: u64,
    total_supply: u64,
    reward_pool: u64,
) -> Result<u64, SolSocialError> {
    if total_supply == 0 || user_keys_held == 0 {
        Ok(0)
    } else if (user_keys_held * reward_pool) / (total_supply as int) > u64::MAX {
        Err(SolSocialError::ArithmeticOverflow)
    } else {
        Ok(((user_keys_held * reward_pool) / (total_supply as int)) as u64)
    }
}

/// The whole basis points that a stake earns per day at `annual_rate_bps` a year.
pub open spec fn daily_rate(annual_rate_bps: u16) -> int {
    (annual_rate_bps as int) / 3_650_000
}

proof fn lemma_product_fits(a: u64, b: u64)
    ensures
        0 <= a * b <= 0xffff_ffff_ffff_ffff * 0xffff_ffff_ffff_ffff,
        a * b <= u128::MAX,
{
    assert(0 <= a * b <= 0xffff_ffff_ffff_ffff * 0xffff_ffff_ffff_ffff) by (nonlinear_arith)
        requires
            0 <= a <= 0xffff_ffff_ffff_ffff,
            0 <= b <= 0xffff_ffff_ffff_ffff,
    ;
}

/// The fee on `amount` at `fee_bps` basis points, rounded down. The product is formed in
/// 128 bits and narrowed with a check, so a rate above 100% on a large amount is an
/// overflow, never a truncated fee.
pub fn calculate_fee(amount: u64, fee_bps: u16) -> (r: Result<u64, SolSocialError>)
    ensures
        r == fee_result(amount, fee_bps),
{
    proof {
        lemma_product_fits(amount, fee_bps as u64);
    }
    let wide: u128 = (amount as u128) * (fee_bps as u128) / 10000;
    if wide > u64::MAX as u128 {
        Err(SolSocialError::ArithmeticOverflow)
    } else {
        Ok(wide as u64)
    }
}

/// Splits `gross_amount` into the protocol's fee, the creator's fee, the referrer's fee
/// (where a referrer rate is given) and the net amount. The fees are computed in that
/// order, each from the gross amount, and then taken off it in that order.
pub fn split(
    gross_amount: u64,
    protocol_bps: u16,
    creator_bps: u16,
    referrer_bps: Option<u16>,
) -> (r: Result<RevenueDistribution, SolSocialError>)
    ensures
        r == split_result(gross_amount, protocol_bps, creator_bps, referrer_bps),
        r matches Ok(d) ==> d.protocol_fee + d.creator_fee + d.referrer_fee + d.net_amount
            == gross_amount,
{
    let protocol_fee = match calculate_fee(gross_amount, protocol_bps) {
        Ok(fee) => fee,
        Err(e) => {
            return Err(e);
        },
    };
    let creator_fee = match calculate_fee(gross_amount, creator_bps) {
        Ok(fee) => fee,
        Err(e) => {
            return Err(e);
        },
    };
    let referrer_fee = match referrer_bps {
        Some(bps) => match calculate_fee(gross_amount, bps) {
            Ok(fee) => fee,
            Err(e) => {
                return Err(e);
            },
        },
        None => 0,
    };
    let after_protocol = match gross_amount.checked_sub(protocol_fee) {
        Some(rest) => rest,
        None => {
            return Err(SolSocialError::FeeExceedsAmount);
        },
    };
    let after_creator = match after_protocol.checked_sub(creator_fee) {
        Some(rest) => rest,
        None => {
            return Err(SolSocialError::FeeExceedsAmount);
        },
    };
    let net_amount = match after_creator.checked_sub(referrer_fee) {
        Some(rest) => rest,
        None => {
            return Err(SolSocialError::FeeExceedsAmount);
        },
    };
    Ok(RevenueDistribution { protocol_fee, creator_fee, referrer_fee, net_amount })
}

/// Splits `total_amount` at the standard rates: 5% to the protocol, 5% to the creator and,
/// where the trade has a referrer, 1% to the referrer.
pub fn calculate_revenue_distribution(total_amount: u64, has_referrer: bool) -> (r: Result<
    RevenueDistribution,
    SolSocialError,
>)
    ensures
        r == split_result(
            total_amount,
            PROTOCOL_FEE_BPS,
            CREATOR_FEE_BPS,
            standard_referrer_bps(has_referrer),
        ),
        r is Ok,
{
    let referrer_bps = if has_referrer {
        Some(REFERRER_FEE_BPS)
    } else {
        None
    };
    proof {
        lemma_standard_split_succeeds(total_amount, has_referrer);
    }
    split(total_amount, PROTOCOL_FEE_BPS, CREATOR_FEE_BPS, referrer_bps)
}

/// At the standard rates the three fees never come to more than the amount: the split of
/// any amount succeeds.
pub proof fn lemma_standard_split_succeeds(total_amount: u64, has_referrer: bool)
    ensures
        split_result(
            total_amount,
            PROTOCOL_FEE_BPS,
            CREATOR_FEE_BPS,
            standard_referrer_bps(has_referrer),
        ) is Ok,
{
}

/// Accepts a fee configuration whose three rates together stay within the ceiling of
/// 2000 basis points.
pub fn validate_fee_parameters(
    protocol_fee_bps: u16,
    creator_fee_bps: u16,
    referrer_fee_bps: u16,
) -> (r: Result<(), SolSocialError>)
    ensures
        r == fee_parameters_result(protocol_fee_bps, creator_fee_bps, referrer_fee_bps),
{
    let with_creator = match protocol_fee_bps.checked_add(creator_fee_bps) {
        Some(sum) => sum,
        None => {
            return Err(SolSocialError::ArithmeticOverflow);
        },
    };
    let total_fees = match with_creator.checked_add(referrer_fee_bps) {
        Some(sum) => sum,
        None => {
            return Err(SolSocialError::ArithmeticOverflow);
        },
    };
    if total_fees > MAX_TOTAL_FEE_BPS {
        return Err(SolSocialError::InvalidFeeStructure);
    }
    Ok(())
}

/// The part of `reward_pool` that falls to a holder of `user_keys_held` out of
/// `total_supply` keys.
pub fn calculate_holder_rewards(user_keys_held: u64, total_supply: u64, reward_pool: u64) -> (r:
    Result<u64, SolSocialError>)
    ensures
        r == holder_rewards_result(user_keys_held, total_supply, reward_pool),
{
    if total_supply == 0 || user_keys_held == 0 {
        return Ok(0);
    }
    proof {
        lemma_product_fits(user_keys_held, reward_pool);
    }
    let user_share: u128 = (user_keys_held as u128) * (reward_pool as u128) / (
    total_supply as u128);
    if user_share > u64::MAX as u128 {
        Err(SolSocialError::ArithmeticOverflow)
    } else {
        Ok(user_share as u64)
    }
}

/// The reward on a stake held for `staking_duration_days`: the stake times the daily rate
/// times the days. The daily rate is the annual rate over 365 days in whole basis points,
/// and no annual rate that 16 bits can hold reaches one whole basis point a day, so the
/// reward is zero.
pub fn calculate_staking_rewards(
    staked_amount: u64,
    staking_duration_days: u64,
    annual_rate_bps: u16,
) -> (r: Result<u64, SolSocialError>)
    ensures
        r == Ok::<u64, SolSocialError>(
            (staked_amount * daily_rate(annual_rate_bps) * staking_duration_days) as u64,
        ),
        r == Ok::<u64, SolSocialError>(0),
{
    let daily: u128 = (annual_rate_bps as u128) / 3_650_000;
    assert(daily == 0);
    let per_day: u128 = (staked_amount as u128) * daily;
    let rewards: u128 = per_day * (staking_duration_days as u128);
    assert(staked_amount * daily_rate(annual_rate_bps) * staking_duration_days == 0) by {
        assert(daily_rate(annual_rate_bps) == 0);
        assert(staked_amount * 0 == 0);
        assert(0 * staking_duration_days == 0);
    }
    Ok(rewards as u64)
}

/// What `calculate_creator_earnings` and `calculate_protocol_earnings` return: the fee at
/// `fee_bps` on all that was bought and sold.
pub open spec fn earnings_result(volumes: VolumeMetrics, fee_bps: u16) -> Result<
    u64,
    SolSocialError,
> {
    if volumes.total_buy_volume + volumes.total_sell_volume > u64::MAX {
        Err(SolSocialError::ArithmeticOverflow)
    } else {
        fee_result((volumes.total_buy_volume + volumes.total_sell_volume) as u64, fee_bps)
    }
}

/// The volumes after a trade of `amount` lamports, or the overflow that stops the
/// booking.
pub open spec fn volumes_after(volumes: VolumeMetrics, amount: u64, is_buy: bool) -> Result<
    VolumeMetrics,
    SolSocialError,
> {
    let bought = if is_buy {
        volumes.total_buy_volume + amount
    } else {
        volumes.total_buy_volume as int
    };
    let sold = if is_buy {
        volumes.total_sell_volume as int
    } else {
        volumes.total_sell_volume + amount
    };
    if bought > u64::MAX || sold > u64::MAX || bought + sold > u64::MAX {
        Err(SolSocialError::ArithmeticOverflow)
    } else {
        Ok(
            VolumeMetrics {
                total_buy_volume: bought as u64,
                total_sell_volume: sold as u64,
                total_volume: (bought + sold) as u64,
            },
        )
    }
}

/// What `transfer_lamports` returns: the two balances after `amount` has moved from the
/// first to the second. A transfer of nothing always succeeds.
pub open spec fn transfer_result(from_balance: u64, to_balance: u64, amount: u64) -> Result<
    (u64, u64),
    SolSocialError,
> {
    if amount == 0 {
        Ok((from_balance, to_balance))
    } else if from_balance < amount {
        Err(SolSocialError::InsufficientBalance)
    } else if to_balance + amount > u64::MAX {
        Err(SolSocialError::ArithmeticOverflow)
    } else {
        Ok(((from_balance - amount) as u64, (to_balance + amount) as u64))
    }
}

/// The referrer's balance after the referrer's fee has been paid from `payer`, with what
/// the payer keeps. Without a referrer nothing moves.
pub open spec fn referrer_paid(payer: u64, referrer: Option<u64>, referrer_fee: u64) -> Result<
    (u64, Option<u64>),
    SolSocialError,
> {
    match referrer {
        None => Ok((payer, None)),
        Some(balance) => match transfer_result(payer, balance, referrer_fee) {
            Err(e) => Err(e),
            Ok((payer_after, referrer_after)) => Ok((payer_after, Some(referrer_after))),
        },
    }
}

/// The balances after the fees of a purchase of `amount` have been paid: the buyer pays
/// the protocol's fee to the treasury, then the creator's fee to the creator, then the
/// referrer's fee to the referrer.
pub open spec fn buy_revenue_result(balances: TradeBalances, amount: u64) -> Result<
    (TradeBalances, RevenueDistribution),
    SolSocialError,
> {
    match split_result(
        amount,
        PROTOCOL_FEE_BPS,
        CREATOR_FEE_BPS,
        standard_referrer_bps(balances.referrer is Some),
    ) {
        Err(e) => Err(e),
        Ok(d) => match transfer_result(balances.trader, balances.protocol_treasury, d.protocol_fee) {
            Err(e) => Err(e),
            Ok((after_protocol, treasury)) => match transfer_result(
                after_protocol,
                balances.creator,
                d.creator_fee,
            ) {
                Err(e) => Err(e),
                Ok((after_creator, creator)) => match referrer_paid(
                    after_creator,
                    balances.referrer,
                    d.referrer_fee,
                ) {
                    Err(e) => Err(e),
                    Ok((trader, referrer)) => Ok(
                        (
                            TradeBalances {
                                trader,
                                creator,
                                protocol_treasury: treasury,
                                referrer,
                            },
                            d,
                        ),
                    ),
                },
            },
        },
    }
}

/// The balances after the proceeds of a sale of `gross_amount` have been paid: the
/// creator pays the net amount to the seller, then the protocol's fee to the treasury,
/// then the referrer's fee to the referrer, and keeps the creator's fee.
pub open spec fn sell_revenue_result(balances: TradeBalances, gross_amount: u64) -> Result<
    (TradeBalances, RevenueDistribution),
    SolSocialError,
> {
    match split_result(
        gross_amount,
        PROTOCOL_FEE_BPS,
        CREATOR_FEE_BPS,
        standard_referrer_bps(balances.referrer is Some),
    ) {
        Err(e) => Err(e),
        Ok(d) => match transfer_result(balances.creator, balances.trader, d.net_amount) {
            Err(e) => Err(e),
            Ok((after_seller, trader)) => match transfer_result(
                after_seller,
                balances.protocol_treasury,
                d.protocol_fee,
            ) {
                Err(e) => Err(e),
                Ok((after_protocol, treasury)) => match referrer_paid(
                    after_protocol,
                    balances.referrer,
                    d.referrer_fee,
                ) {
                    Err(e) => Err(e),
                    Ok((creator, referrer)) => Ok(
                        (
                            TradeBalances {
                                trader,
                                creator,
                                protocol_treasury: treasury,
                                referrer,
                            },
                            d,
                        ),
                    ),
                },
            },
        },
    }
}

/// The lamports that the four accounts hold between them.
pub open spec fn balances_total(balances: TradeBalances) -> int {
    balances.trader + balances.creator + balances.protocol_treasury + (match balances.referrer {
        Some(balance) => balance as int,
        None => 0,
    })
}

/// Moves `amount` lamports from one balance to another and returns both as they are
/// after. No lamport is made or lost.
pub fn transfer_lamports(from_balance: u64, to_balance: u64, amount: u64) -> (r: Result<
    (u64, u64),
    SolSocialError,
>)
    ensures
        r == transfer_result(from_balance, to_balance, amount),
        r matches Ok((from_after, to_after)) ==> from_after + to_after == from_balance
            + to_balance,
{
    if amount == 0 {
        return Ok((from_balance, to_balance));
    }
    if from_balance < amount {
        return Err(SolSocialError::InsufficientBalance);
    }
    match to_balance.checked_add(amount) {
        Some(to_after) => Ok((from_balance - amount, to_after)),
        None => Err(SolSocialError::ArithmeticOverflow),
    }
}

fn pay_referrer(payer: u64, referrer: Option<u64>, referrer_fee: u64) -> (r: Result<
    (u64, Option<u64>),
    SolSocialError,
>)
    ensures
        r == referrer_paid(payer, referrer, referrer_fee),
{
    match referrer {
        None => Ok((payer, None)),
        Some(balance) => match transfer_lamports(payer, balance, referrer_fee) {
            Ok((payer_after, referrer_after)) => Ok((payer_after, Some(referrer_after))),
            Err(e) => Err(e),
        },
    }
}

/// Pays the fees of a purchase of `amount` out of the buyer's balance, at the standard
/// rates, and returns the balances as they are after, with the distribution. Where a
/// payment cannot be made, none is made.
pub fn distribute_buy_revenue(
    buyer: u64,
    creator: u64,
    protocol_treasury: u64,
    referrer: Option<u64>,
    amount: u64,
) -> (r: Result<(TradeBalances, RevenueDistribution), SolSocialError>)
    ensures
        r == buy_revenue_result(
            (TradeBalances { trader: buyer, creator, protocol_treasury, referrer }),
            amount,
        ),
        r matches Ok((after, d)) ==> {
            &&& balances_total(after) == balances_total(
                (TradeBalances { trader: buyer, creator, protocol_treasury, referrer }),
            )
            &&& after.trader == buyer - d.protocol_fee - d.creator_fee - d.referrer_fee
        },
{
    let d = match calculate_revenue_distribution(amount, referrer.is_some()) {
        Ok(d) => d,
        Err(e) => {
            return Err(e);
        },
    };
    let (after_protocol, treasury_after) = match transfer_lamports(
        buyer,
        protocol_treasury,
        d.protocol_fee,
    ) {
        Ok(moved) => moved,
        Err(e) => {
            return Err(e);
        },
    };
    let (after_creator, creator_after) = match transfer_lamports(
        after_protocol,
        creator,
        d.creator_fee,
    ) {
        Ok(moved) => moved,
        Err(e) => {
            return Err(e);
        },
    };
    let (trader_after, referrer_after) = match pay_referrer(
        after_creator,
        referrer,
        d.referrer_fee,
    ) {
        Ok(moved) => moved,
        Err(e) => {
            return Err(e);
        },
    };
    Ok(
        (
            TradeBalances {
                trader: trader_after,
                creator: creator_after,
                protocol_treasury: treasury_after,
                referrer: referrer_after,
            },
            d,
        ),
    )
}

/// Pays the proceeds of a sale of `gross_amount` out of the creator's balance, at the
/// standard rates, and returns the balances as they are after, with the distribution.
/// Where a payment cannot be made, none is made.
pub fn distribute_sell_revenue(
    seller: u64,
    creator: u64,
    protocol_treasury: u64,
    referrer: Option<u64>,
    gross_amount: u64,
) -> (r: Result<(TradeBalances, RevenueDistribution), SolSocialError>)
    ensures
        r == sell_revenue_result(
            (TradeBalances { trader: seller, creator, protocol_treasury, referrer }),
            gross_amount,
        ),
        r matches Ok((after, d)) ==> {
            &&& balances_total(after) == balances_total(
                (TradeBalances { trader: seller, creator, protocol_treasury, referrer }),
            )
            &&& after.trader == seller + d.net_amount
        },
{
    let d = match calculate_revenue_distribution(gross_amount, referrer.is_some()) {
        Ok(d) => d,
        Err(e) => {
            return Err(e);
        },
    };
    let (after_seller, seller_after) = match transfer_lamports(creator, seller, d.net_amount) {
        Ok(moved) => moved,
        Err(e) => {
            return Err(e);
        },
    };
    let (after_protocol, treasury_after) = match transfer_lamports(
        after_seller,
        protocol_treasury,
        d.protocol_fee,
    ) {
        Ok(moved) => moved,
        Err(e) => {
            return Err(e);
        },
    };
    let (creator_after, referrer_after) = match pay_referrer(
        after_protocol,
        referrer,
        d.referrer_fee,
    ) {
        Ok(moved) => moved,
        Err(e) => {
            return Err(e);
        },
    };
    Ok(
        (
            TradeBalances {
                trader: seller_after,
                creator: creator_after,
                protocol_treasury: treasury_after,
                referrer: referrer_after,
            },
            d,
        ),
    )
}

fn total_traded(volumes: &VolumeMetrics) -> (r: Option<u64>)
    ensures
        r == (if volumes.total_buy_volume + volumes.total_sell_volume > u64::MAX {
            None::<u64>
        } else {
            Some((volumes.total_buy_volume + volumes.total_sell_volume) as u64)
        }),
{
    volumes.total_buy_volume.checked_add(volumes.total_sell_volume)
}

/// What the creator has earned on all purchases and sales of the keys: 5% of the volume.
/// The supply plays no part in it.
pub fn calculate_creator_earnings(keys_account: &VolumeMetrics, _current_supply: u64) -> (r:
    Result<u64, SolSocialError>)
    ensures
        r == earnings_result(*keys_account, CREATOR_FEE_BPS),
{
    match total_traded(keys_account) {
        Some(total_volume) => calculate_fee(total_volume, CREATOR_FEE_BPS),
        None => Err(SolSocialError::ArithmeticOverflow),
    }
}

/// What the protocol has earned on all purchases and sales of the keys: 5% of the volume.
pub fn calculate_protocol_earnings(keys_account: &VolumeMetrics) -> (r: Result<
    u64,
    SolSocialError,
>)
    ensures
        r == earnings_result(*keys_account, PROTOCOL_FEE_BPS),
{
    match total_traded(keys_account) {
        Some(total_volume) => calculate_fee(total_volume, PROTOCOL_FEE_BPS),
        None => Err(SolSocialError::ArithmeticOverflow),
    }
}

/// Books a trade of `amount` lamports into the volume of its direction and into the
/// total. Where a sum does not fit, nothing is booked.
pub fn update_volume_metrics(keys_account: &mut VolumeMetrics, amount: u64, is_buy: bool) -> (r:
    Result<(), SolSocialError>)
    ensures
        match r {
            Ok(()) => volumes_after(*old(keys_account), amount, is_buy) == Ok::<
                VolumeMetrics,
                SolSocialError,
            >(*final(keys_account)),
            Err(e) => volumes_after(*old(keys_account), amount, is_buy) == Err::<
                VolumeMetrics,
                SolSocialError,
            >(e) && *final(keys_account) == *old(keys_account),
        },
{
    let mut updated = *keys_account;
    if is_buy {
        updated.total_buy_volume = match updated.total_buy_volume.checked_add(amount) {
            Some(sum) => sum,
            None => {
                return Err(SolSocialError::ArithmeticOverflow);
            },
        };
    } else {
        updated.total_sell_volume = match updated.total_sell_volume.checked_add(amount) {
            Some(sum) => sum,
            None => {
                return Err(SolSocialError::ArithmeticOverflow);
            },
        };
    }
    updated.total_volume = match total_traded(&updated) {
        Some(sum) => sum,
        None => {
            return Err(SolSocialError::ArithmeticOverflow);
        },
    };
    *keys_account = updated;
    Ok(())
}

/// The shares of all recipients together.
pub open spec fn share_total(recipients: Seq<RewardRecipient>) -> int
    decreases recipients.len(),
{
    if recipients.len() == 0 {
        0
    } else {
        share_total(recipients.drop_last()) + recipients.last().shares
    }
}

/// The part of the reward that falls to `shares` out of `total_shares`, rounded down.
pub open spec fn reward_amount(shares: u64, total_reward_amount: u64, total_shares: int) -> int {
    (shares * total_reward_amount) / total_shares
}

/// The balances of the recipients as they stand.
pub open spec fn balances_of(recipients: Seq<RewardRecipient>) -> Seq<u64> {
    Seq::new(recipients.len(), |i: int| recipients[i].balance)
}

/// The creator's balance and the recipients' balances after each recipient, in order,
/// has been paid its part of the reward out of the creator's balance. The first payment
/// that cannot be made decides the error.
pub open spec fn rewards_paid(
    creator: u64,
    recipients: Seq<RewardRecipient>,
    total_reward_amount: u64,
    total_shares: int,
) -> Result<(u64, Seq<u64>), SolSocialError>
    decreases recipients.len(),
{
    if recipients.len() == 0 {
        Ok((creator, Seq::empty()))
    } else {
        match rewards_paid(creator, recipients.drop_last(), total_reward_amount, total_shares) {
            Err(e) => Err(e),
            Ok((payer, balances)) => match transfer_result(
                payer,
                recipients.last().balance,
                reward_amount(recipients.last().shares, total_reward_amount, total_shares) as u64,
            ) {
                Err(e) => Err(e),
                Ok((payer_after, balance)) => Ok((payer_after, balances.push(balance))),
            },
        }
    }
}

/// What `distribute_activity_rewards` returns. Where no recipient has a share, nothing
/// moves.
pub open spec fn activity_rewards_result(
    creator: u64,
    recipients: Seq<RewardRecipient>,
    total_reward_amount: u64,
) -> Result<(u64, Seq<u64>), SolSocialError> {
    if share_total(recipients) > u64::MAX {
        Err(SolSocialError::ArithmeticOverflow)
    } else if share_total(recipients) == 0 {
        Ok((creator, balances_of(recipients)))
    } else {
        rewards_paid(creator, recipients, total_reward_amount, share_total(recipients))
    }
}

/// The shares of the first `k` recipients are part of the shares of all, and so are the
/// shares of each recipient.
pub proof fn lemma_share_total_prefix(recipients: Seq<RewardRecipient>, k: int)
    requires
        0 <= k <= recipients.len(),
    ensures
        0 <= share_total(recipients.take(k)) <= share_total(recipients),
        k < recipients.len() ==> share_total(recipients.take(k)) + recipients[k].shares
            <= share_total(recipients),
    decreases recipients.len(),
{
    if k == recipients.len() {
        assert(recipients.take(k) =~= recipients);
        if k > 0 {
            lemma_share_total_prefix(recipients.drop_last(), k - 1);
        }
    } else {
        lemma_share_total_prefix(recipients.drop_last(), k);
        assert(recipients.drop_last().take(k) =~= recipients.take(k));
    }
}

/// A payment that fails among the first `k` recipients fails the whole distribution in
/// the same way.
pub proof fn lemma_rewards_error_stays(
    creator: u64,
    recipients: Seq<RewardRecipient>,
    total_reward_amount: u64,
    total_shares: int,
    k: int,
)
    requires
        0 <= k <= recipients.len(),
        rewards_paid(creator, recipients.take(k), total_reward_amount, total_shares) is Err,
    ensures
        rewards_paid(creator, recipients, total_reward_amount, total_shares) == rewards_paid(
            creator,
            recipients.take(k),
            total_reward_amount,
            total_shares,
        ),
    decreases recipients.len() - k,
{
    if k == recipients.len() {
        assert(recipients.take(k) =~= recipients);
    } else {
        assert(recipients.take(k + 1).drop_last() =~= recipients.take(k));
        lemma_rewards_error_stays(creator, recipients, total_reward_amount, total_shares, k + 1);
    }
}

/// A part of the reward is never more than the reward.
pub proof fn lemma_reward_bounded(shares: u64, total_reward_amount: u64, total_shares: u64)
    requires
        shares <= total_shares,
        0 < total_shares,
    ensures
        0 <= reward_amount(shares, total_reward_amount, total_shares as int)
            <= total_reward_amount,
        0 <= shares * total_reward_amount <= u128::MAX,
{
    lemma_product_fits(shares, total_reward_amount);
    assert((shares * total_reward_amount) / (total_shares as int) <= total_reward_amount
        && (shares * total_reward_amount) / (total_shares as int) >= 0) by (nonlinear_arith)
        requires
            0 <= shares <= total_shares,
            0 < total_shares,
            0 <= total_reward_amount,
    ;
}

fn count_shares(recipients: &Vec<RewardRecipient>) -> (r: Option<u64>)
    ensures
        r == (if share_total(recipients@) > u64::MAX {
            None::<u64>
        } else {
            Some(share_total(recipients@) as u64)
        }),
{
    let mut total_shares: u64 = 0;
    let mut i: usize = 0;
    while i < recipients.len()
        invariant
            i <= recipients@.len(),
            total_shares == share_total(recipients@.take(i as int)),
        decreases recipients@.len() - i,
    {
        proof {
            lemma_share_total_prefix(recipients@, i as int);
            assert(recipients@.take(i + 1).drop_last() =~= recipients@.take(i as int));
        }
        total_shares = match total_shares.checked_add(recipients[i].shares) {
            Some(sum) => sum,
            None => {
                return None;
            },
        };
        i = i + 1;
    }
    proof {
        assert(recipients@.take(i as int) =~= recipients@);
    }
    Some(total_shares)
}

/// Pays `total_reward_amount` out of the creator's balance to the recipients in
/// proportion to their shares, each part rounded down, and returns the creator's balance
/// and the recipients' balances, in their order, as they are after. Where a payment
/// cannot be made, none is made.
pub fn distribute_activity_rewards(
    creator: u64,
    reward_recipients: &Vec<RewardRecipient>,
    total_reward_amount: u64,
) -> (r: Result<(u64, Vec<u64>), SolSocialError>)
    ensures
        match r {
            Ok((creator_after, balances)) => activity_rewards_result(
                creator,
                reward_recipients@,
                total_reward_amount,
            ) == Ok::<(u64, Seq<u64>), SolSocialError>((creator_after, balances@)),
            Err(e) => activity_rewards_result(creator, reward_recipients@, total_reward_amount)
                == Err::<(u64, Seq<u64>), SolSocialError>(e),
        },
{
    let total_shares = match count_shares(reward_recipients) {
        Some(total) => total,
        None => {
            return Err(SolSocialError::ArithmeticOverflow);
        },
    };
    proof {
        lemma_share_total_prefix(reward_recipients@, 0);
    }
    let mut payer: u64 = creator;
    let mut balances: Vec<u64> = Vec::new();
    let mut i: usize = 0;
    while i < reward_recipients.len()
        invariant
            i <= reward_recipients@.len(),
            balances@.len() == i,
            total_shares == share_total(reward_recipients@),
            total_shares == 0 ==> payer == creator && balances@ =~= balances_of(
                reward_recipients@.take(i as int),
            ),
            total_shares > 0 ==> rewards_paid(
                creator,
                reward_recipients@.take(i as int),
                total_reward_amount,
                total_shares as int,
            ) == Ok::<(u64, Seq<u64>), SolSocialError>((payer, balances@)),
        decreases reward_recipients@.len() - i,
    {
        let recipient = reward_recipients[i];
        proof {
            assert(reward_recipients@.take(i + 1).drop_last() =~= reward_recipients@.take(
                i as int,
            ));
            lemma_share_total_prefix(reward_recipients@, i as int);
        }
        if total_shares == 0 {
            balances.push(recipient.balance);
        } else {
            proof {
                lemma_reward_bounded(recipient.shares, total_reward_amount, total_shares);
            }
            let reward: u128 = (recipient.shares as u128) * (total_reward_amount as u128) / (
            total_shares as u128);
            let (payer_after, balance) = match transfer_lamports(
                payer,
                recipient.balance,
                reward as u64,
            ) {
                Ok(moved) => moved,
                Err(e) => {
                    proof {
                        lemma_rewards_error_stays(
                            creator,
                            reward_recipients@,
                            total_reward_amount,
                            total_shares as int,
                            i + 1,
                        );
                    }
                    return Err(e);
                },
            };
            payer = payer_after;
            balances.push(balance);
        }
        i = i + 1;
    }
    proof {
        assert(reward_recipients@.take(i as int) =~= reward_recipients@);
    }
    Ok((payer, balances))
}

} // verus!
