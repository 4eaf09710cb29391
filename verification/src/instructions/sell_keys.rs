use crate::error::SolSocialError;
use crate::instructions::buy_keys::{held_before, Payee, Payment};
use crate::state::keys::{KeyHolder, UserKeys};
use vstd::prelude::*;

verus! {

/// What a completed sale moved. Out of the custody of the keys went `price`:
/// `net_proceeds` to the seller, `protocol_fee` to the treasury and `creator_fee` to the
/// subject.
#[derive(Debug, Clone, Copy, PartialEq, Eq)]
pub struct KeysSoldEvent {
    pub seller: [u8; 32],
    pub subject: [u8; 32],
    pub amount: u64,
    /// Curve price of the keys, before fees.
    pub price: u64,
    pub protocol_fee: u64,
    pub creator_fee: u64,
    /// Curve price less both fees.
    pub net_proceeds: u64,
    pub new_supply: u64,
    pub timestamp: i64,
}

/// The payments of a sale, in the order in which they are made, all out of the custody
/// of the keys: the net proceeds to the seller, the protocol's fee, and the subject's fee.
pub open spec fn sell_payments(net_proceeds: u64, creator_fee: u64, protocol_fee: u64) -> [Payment;
    3] {
    [
        Payment { to: Payee::Trader, amount: net_proceeds },
        Payment { to: Payee::ProtocolTreasury, amount: protocol_fee },
        Payment { to: Payee::Subject, amount: creator_fee },
    ]
}

/// A completed sale: the ledger and the seller's position as they are after it, and what
/// there is to report.
#[derive(Debug, Clone, Copy, PartialEq, Eq)]
pub struct SellOutcome {
    pub keys: UserKeys,
    pub holder: KeyHolder,
    /// What is to be paid out of the custody of the keys, in this order.
    pub payments: [Payment; 3],
    pub event: KeysSoldEvent,
}

/// Whether a holder of `held` keys may sell `amount` of them at this state of the
/// ledger: the sale leaves keys outstanding, or it is the whole holding of the only
/// holder.
pub open spec fn sale_permitted(keys: UserKeys, held: u64, amount: u64) -> bool {
    keys.supply > amount || (held == amount && keys.holders == 1)
}

/// The ledger with one holder fewer, where the sale closed a position.
pub open spec fn with_holder_removed(keys: UserKeys, closed: bool) -> Result<
    UserKeys,
    SolSocialError,
> {
    if !closed {
        Ok(keys)
    } else if keys.holders == 0 {
        Err(SolSocialError::ArithmeticUnderflow)
    } else {
        Ok(UserKeys { holders: (keys.holders - 1) as u64, ..keys })
    }
}

/// The sale from the point where it is priced: the checks on the price and on the
/// custody balance, then the bookings.
pub open spec fn priced_sell_result(
    keys: UserKeys,
    held: KeyHolder,
    seller: [u8; 32],
    custody_balance: u64,
    amount: u64,
    min_price: u64,
    now: i64,
    price: u64,
    creator_fee: u64,
    protocol_fee: u64,
) -> Result<SellOutcome, SolSocialError> {
    if price < min_price {
        Err(SolSocialError::SlippageExceeded)
    } else if custody_balance < price {
        Err(SolSocialError::InsufficientBalance)
    } else {
        match keys.after_sell(amount, price, creator_fee, protocol_fee, now) {
            Err(e) => Err(e),
            Ok(traded) => match held.after_sell(amount) {
                Err(e) => Err(e),
                Ok(holder) => match with_holder_removed(traded, holder.amount == 0) {
                    Err(e) => Err(e),
                    Ok(booked) => Ok(
                        SellOutcome {
                            keys: booked,
                            holder,
                            payments: sell_payments(
                                (price - protocol_fee - creator_fee) as u64,
                                creator_fee,
                                protocol_fee,
                            ),
                            event: KeysSoldEvent {
                                seller,
                                subject: keys.user,
                                amount,
                                price,
                                protocol_fee,
                                creator_fee,
                                net_proceeds: (price - protocol_fee - creator_fee) as u64,
                                new_supply: booked.supply,
                                timestamp: now,
                            },
                        },
                    ),
                },
            },
        }
    }
}

/// What `sell_keys` returns. The checks come in this order and the first that fails
/// decides: the amount, the seller's holding, the rule on the last key, the curve price
/// and the fees, the price bound, the custody balance, and the bookings.
pub open spec fn sell_keys_result(
    keys: UserKeys,
    position: Option<KeyHolder>,
    seller: [u8; 32],
    custody_balance: u64,
    amount: u64,
    min_price: u64,
    now: i64,
) -> Result<SellOutcome, SolSocialError> {
    if amount == 0 {
        Err(SolSocialError::InvalidQuantity)
    } else if held_before(position) < amount {
        Err(SolSocialError::InsufficientShares)
    } else if !sale_permitted(keys, held_before(position), amount) {
        Err(SolSocialError::CannotSellLastKey)
    } else {
        match keys.sell_quote(amount) {
            Err(e) => Err(e),
            Ok((price, creator_fee, protocol_fee)) => priced_sell_result(
                keys,
                position->Some_0,
                seller,
                custody_balance,
                amount,
                min_price,
                now,
                price,
                creator_fee,
                protocol_fee,
            ),
        }
    }
}

/// A sale conserves value: the curve price that leaves the custody of the keys is exactly
/// what the seller receives, the protocol's fee and the subject's fee, and the ledger
/// books exactly these amounts.
pub proof fn lemma_sell_conserves_value(
    keys: UserKeys,
    position: Option<KeyHolder>,
    seller: [u8; 32],
    custody_balance: u64,
    amount: u64,
    min_price: u64,
    now: i64,
)
    ensures
        sell_keys_result(keys, position, seller, custody_balance, amount, min_price, now) matches Ok(
            done,
        ) ==> {
            &&& done.event.price == done.event.net_proceeds + done.event.protocol_fee
                + done.event.creator_fee
            &&& done.event.price <= custody_balance
            &&& done.event.price == done.payments[0].amount + done.payments[1].amount
                + done.payments[2].amount
            &&& done.keys.volume == keys.volume + done.event.price
            &&& done.keys.creator_earnings == keys.creator_earnings + done.event.creator_fee
            &&& done.keys.protocol_fees == keys.protocol_fees + done.event.protocol_fee
        },
{
}

/// Sells `amount` keys of the subject of `keys` for `seller`, who holds `position`, at a
/// curve price of at least `min_price`, out of a custody that holds `custody_balance`
/// lamports.
///
/// Nothing is changed: the result holds the ledger and the position as they are after
/// the sale, the payments that the custody of the keys is to make, in their order, and
/// the event to report. A sale that is refused leaves nothing to carry out.
///
/// The fees are taken out of the curve price: the seller receives the curve price less
/// the protocol's fee and the subject's fee.
pub fn sell_keys(
    keys: &UserKeys,
    position: Option<KeyHolder>,
    seller: &[u8; 32],
    custody_balance: u64,
    amount: u64,
    min_price: u64,
    now: i64,
) -> (r: Result<SellOutcome, SolSocialError>)
    ensures
        r == sell_keys_result(*keys, position, *seller, custody_balance, amount, min_price, now),
        r matches Ok(done) ==> {
            &&& done.event.price == done.event.net_proceeds + done.event.protocol_fee
                + done.event.creator_fee
            &&& done.event.price <= custody_balance
            &&& done.payments == sell_payments(
                done.event.net_proceeds,
                done.event.creator_fee,
                done.event.protocol_fee,
            )
            &&& done.keys.supply == keys.supply - amount
            &&& done.holder.amount == held_before(position) - amount
            &&& position matches Some(held) && done.holder.holder == held.holder
                && done.holder.keys_user == held.keys_user
            &&& done.keys.holders == keys.holders - (if done.holder.amount == 0 {
                1int
            } else {
                0int
            })
            &&& done.keys.user == keys.user
            &&& done.keys.curve_params == keys.curve_params
        },
{
    if amount == 0 {
        return Err(SolSocialError::InvalidQuantity);
    }
    let held = match position {
        Some(held) => held,
        None => {
            return Err(SolSocialError::InsufficientShares);
        },
    };
    if held.amount < amount {
        return Err(SolSocialError::InsufficientShares);
    }
    if !(keys.supply > amount || (held.amount == amount && keys.holders == 1)) {
        return Err(SolSocialError::CannotSellLastKey);
    }
    let (price, creator_fee, protocol_fee) = match keys.calculate_sell_price(amount) {
        Ok(quote) => quote,
        Err(e) => {
            return Err(e);
        },
    };
    if price < min_price {
        return Err(SolSocialError::SlippageExceeded);
    }
    if custody_balance < price {
        return Err(SolSocialError::InsufficientBalance);
    }
    let mut booked = *keys;
    match booked.update_after_sell(amount, price, creator_fee, protocol_fee, now) {
        Ok(()) => {},
        Err(e) => {
            return Err(e);
        },
    }
    let mut holder = held;
    match holder.update_after_sell(amount) {
        Ok(()) => {},
        Err(e) => {
            return Err(e);
        },
    }
    if holder.amount == 0 {
        booked.holders = match booked.holders.checked_sub(1) {
            Some(count) => count,
            None => {
                return Err(SolSocialError::ArithmeticUnderflow);
            },
        };
    }
    let event = KeysSoldEvent {
        seller: *seller,
        subject: keys.user,
        amount,
        price,
        protocol_fee,
        creator_fee,
        net_proceeds: price - protocol_fee - creator_fee,
        new_supply: booked.supply,
        timestamp: now,
    };
    let payments = [
        Payment { to: Payee::Trader, amount: event.net_proceeds },
        Payment { to: Payee::ProtocolTreasury, amount: protocol_fee },
        Payment { to: Payee::Subject, amount: creator_fee },
    ];
    Ok(SellOutcome { keys: booked, holder, payments, event })
}

} // verus!
