use crate::error::SolSocialError;
use crate::state::keys::{same_address, KeyHolder, UserKeys};
use vstd::prelude::*;

verus! {

/// Bonus that is reported for the subject when the supply first reaches 100 keys. A
/// purchase reports it; it neither pays it nor books it in the ledger.
pub const MILESTONE_100_BONUS: u64 = 1_000_000;

/// Bonus that is reported for the subject when the supply first reaches 1000 keys.
pub const MILESTONE_1000_BONUS: u64 = 10_000_000;

/// The party that a payment of a trade goes to.
#[derive(Debug, Clone, Copy, PartialEq, Eq, Structural)]
pub enum Payee {
    ProtocolTreasury,
    Subject,
    /// The account that holds the lamports backing the keys.
    Custody,
    Trader,
}

/// One movement of lamports that a trade calls for.
#[derive(Debug, Clone, Copy, PartialEq, Eq)]
pub struct Payment {
    pub to: Payee,
    pub amount: u64,
}

/// The payments of a purchase, in the order in which they are made, all out of the
/// buyer's account: the protocol's fee, the subject's fee, and the curve price into
/// custody.
pub open spec fn buy_payments(price: u64, creator_fee: u64, protocol_fee: u64) -> [Payment; 3] {
    [
        Payment { to: Payee::ProtocolTreasury, amount: protocol_fee },
        Payment { to: Payee::Subject, amount: creator_fee },
        Payment { to: Payee::Custody, amount: price },
    ]
}

/// What a completed purchase moved. The buyer paid `total_paid`: `protocol_fee` to the
/// treasury, `subject_fee` to the subject and `price` into the custody of the keys.
#[derive(Debug, Clone, Copy, PartialEq, Eq)]
pub struct KeysBoughtEvent {
    pub buyer: [u8; 32],
    pub subject: [u8; 32],
    pub amount: u64,
    /// Curve price of the keys, before fees.
    pub price: u64,
    pub protocol_fee: u64,
    pub subject_fee: u64,
    /// Curve price and both fees.
    pub total_paid: u64,
    pub supply_after: u64,
    pub timestamp: i64,
}

/// The first purchase of a subject's keys after the subject's own first key.
#[derive(Debug, Clone, Copy, PartialEq, Eq)]
pub struct FirstKeyBoughtEvent {
    pub buyer: [u8; 32],
    pub subject: [u8; 32],
    pub amount: u64,
    pub price: u64,
    pub timestamp: i64,
}

/// The supply of a subject's keys has reached a milestone for the first time.
#[derive(Debug, Clone, Copy, PartialEq, Eq)]
pub struct MilestoneReachedEvent {
    pub subject: [u8; 32],
    pub milestone: u64,
    pub bonus_amount: u64,
    pub timestamp: i64,
}

/// A completed purchase: the ledger and the buyer's position as they are after it, and
/// what there is to report.
#[derive(Debug, Clone, Copy, PartialEq, Eq)]
pub struct BuyOutcome {
    pub keys: UserKeys,
    pub holder: KeyHolder,
    /// What is to be paid out of the buyer's account, in this order.
    pub payments: [Payment; 3],
    pub event: KeysBoughtEvent,
    pub first_key: Option<FirstKeyBoughtEvent>,
    pub milestone_100: Option<MilestoneReachedEvent>,
    pub milestone_1000: Option<MilestoneReachedEvent>,
}

/// The position that a purchase starts from: the buyer's record, or an empty one where
/// the buyer has none yet.
pub open spec fn position_or_fresh(
    position: Option<KeyHolder>,
    holder: [u8; 32],
    keys_user: [u8; 32],
    now: i64,
) -> KeyHolder {
    match position {
        Some(held) => held,
        None => KeyHolder::fresh(holder, keys_user, now),
    }
}

/// The keys that a position holds: none where there is no record.
pub open spec fn held_before(position: Option<KeyHolder>) -> u64 {
    match position {
        Some(held) => held.amount,
        None => 0,
    }
}

/// The ledger with one more holder, where the purchase opened a position.
pub open spec fn with_holder_counted(keys: UserKeys, opened: bool) -> Result<
    UserKeys,
    SolSocialError,
> {
    if !opened {
        Ok(keys)
    } else if keys.holders + 1 > u64::MAX {
        Err(SolSocialError::ArithmeticOverflow)
    } else {
        Ok(UserKeys { holders: (keys.holders + 1) as u64, ..keys })
    }
}

/// Whether the supply has a milestone of `milestone` keys to report.
pub open spec fn milestone_due(supply: u64, milestone: u64, reached: bool) -> bool {
    supply >= milestone && !reached
}

/// The report of the milestone, where it is due.
pub open spec fn milestone_event(
    keys: UserKeys,
    milestone: u64,
    reached: bool,
    bonus_amount: u64,
    now: i64,
) -> Option<MilestoneReachedEvent> {
    if milestone_due(keys.supply, milestone, reached) {
        Some(MilestoneReachedEvent { subject: keys.user, milestone, bonus_amount, timestamp: now })
    } else {
        None
    }
}

/// The ledger with the milestones marked that its supply has reached.
pub open spec fn with_milestones(keys: UserKeys) -> UserKeys {
    UserKeys {
        milestone_100_reached: keys.milestone_100_reached || keys.supply >= 100,
        milestone_1000_reached: keys.milestone_1000_reached || keys.supply >= 1000,
        ..keys
    }
}

/// The purchase once it is priced and paid for: `before` is the ledger it started from,
/// `booked` the ledger with the trade and the holder count booked, `holder` the buyer's
/// position with the keys in it.
pub open spec fn buy_outcome(
    before: UserKeys,
    booked: UserKeys,
    holder: KeyHolder,
    buyer: [u8; 32],
    amount: u64,
    price: u64,
    creator_fee: u64,
    protocol_fee: u64,
    now: i64,
) -> BuyOutcome {
    BuyOutcome {
        keys: with_milestones(booked),
        holder,
        payments: buy_payments(price, creator_fee, protocol_fee),
        event: KeysBoughtEvent {
            buyer,
            subject: before.user,
            amount,
            price,
            protocol_fee,
            subject_fee: creator_fee,
            total_paid: (price + protocol_fee + creator_fee) as u64,
            supply_after: booked.supply,
            timestamp: now,
        },
        first_key: if before.supply == 1 {
            Some(
                FirstKeyBoughtEvent { buyer, subject: before.user, amount, price, timestamp: now },
            )
        } else {
            None
        },
        milestone_100: milestone_event(
            booked,
            100,
            booked.milestone_100_reached,
            MILESTONE_100_BONUS,
            now,
        ),
        milestone_1000: milestone_event(
            booked,
            1000,
            booked.milestone_1000_reached,
            MILESTONE_1000_BONUS,
            now,
        ),
    }
}

/// The purchase from the point where it is priced: the checks on the price and on the
/// buyer's balance, then the bookings.
pub open spec fn priced_buy_result(
    keys: UserKeys,
    position: Option<KeyHolder>,
    buyer: [u8; 32],
    buyer_balance: u64,
    amount: u64,
    max_price: u64,
    now: i64,
    price: u64,
    creator_fee: u64,
    protocol_fee: u64,
) -> Result<BuyOutcome, SolSocialError> {
    let start = position_or_fresh(position, buyer, keys.user, now);
    if price == 0 {
        Err(SolSocialError::InvalidPrice)
    } else if price > max_price {
        Err(SolSocialError::SlippageExceeded)
    } else if price + protocol_fee + creator_fee > u64::MAX {
        Err(SolSocialError::ArithmeticOverflow)
    } else if buyer_balance < price + protocol_fee + creator_fee {
        Err(SolSocialError::InsufficientBalance)
    } else {
        match keys.after_buy(amount, price, creator_fee, protocol_fee, now) {
            Err(e) => Err(e),
            Ok(traded) => match start.after_buy(amount, price, now) {
                Err(e) => Err(e),
                Ok(holder) => match with_holder_counted(traded, start.amount == 0) {
                    Err(e) => Err(e),
                    Ok(booked) => Ok(
                        buy_outcome(
                            keys,
                            booked,
                            holder,
                            buyer,
                            amount,
                            price,
                            creator_fee,
                            protocol_fee,
                            now,
                        ),
                    ),
                },
            },
        }
    }
}

/// What `buy_keys` returns. The checks come in this order and the first that fails
/// decides: the amount, the state of the ledger, the buyer, the curve price and the
/// fees, the price bounds, the buyer's balance, and the sums of the bookings.
pub open spec fn buy_keys_result(
    keys: UserKeys,
    position: Option<KeyHolder>,
    buyer: [u8; 32],
    buyer_balance: u64,
    amount: u64,
    max_price: u64,
    now: i64,
) -> Result<BuyOutcome, SolSocialError> {
    if amount == 0 {
        Err(SolSocialError::InvalidQuantity)
    } else if !keys.is_active {
        Err(SolSocialError::KeysNotActive)
    } else if buyer == keys.user {
        Err(SolSocialError::CannotBuyOwnKeys)
    } else {
        match keys.buy_quote(amount) {
            Err(e) => Err(e),
            Ok((price, creator_fee, protocol_fee)) => priced_buy_result(
                keys,
                position,
                buyer,
                buyer_balance,
                amount,
                max_price,
                now,
                price,
                creator_fee,
                protocol_fee,
            ),
        }
    }
}

/// A purchase conserves value: what the buyer pays is exactly the protocol's fee, the
/// subject's fee and the curve price that is credited to the custody of the keys, with
/// nothing left over, and the ledger books exactly these amounts.
pub proof fn lemma_buy_conserves_value(
    keys: UserKeys,
    position: Option<KeyHolder>,
    buyer: [u8; 32],
    buyer_balance: u64,
    amount: u64,
    max_price: u64,
    now: i64,
)
    ensures
        buy_keys_result(keys, position, buyer, buyer_balance, amount, max_price, now) matches Ok(
            done,
        ) ==> {
            &&& done.event.total_paid == done.event.protocol_fee + done.event.subject_fee
                + done.event.price
            &&& done.event.total_paid <= buyer_balance
            &&& done.event.total_paid == done.payments[0].amount + done.payments[1].amount
                + done.payments[2].amount
            &&& done.keys.volume == keys.volume + done.event.price
            &&& done.keys.creator_earnings == keys.creator_earnings + done.event.subject_fee
            &&& done.keys.protocol_fees == keys.protocol_fees + done.event.protocol_fee
            &&& done.holder.total_invested == position_or_fresh(
                position,
                buyer,
                keys.user,
                now,
            ).total_invested + done.event.price
        },
{
}

/// Buys `amount` keys of the subject of `keys` for `buyer`, who holds `position` (or no
/// record yet) and has `buyer_balance` lamports, at a curve price of at most `max_price`.
///
/// Nothing is changed: the result holds the ledger and the position as they are after
/// the purchase, the payments that the buyer's account is to make, in their order, and the
/// events to report. A purchase that is refused leaves nothing to carry out.
///
/// The subject itself cannot buy its keys. The fees come on top of the curve price, and
/// what the buyer pays is exactly the protocol's fee, the subject's fee and the curve
/// price that goes into custody.
pub fn buy_keys(
    keys: &UserKeys,
    position: Option<KeyHolder>,
    buyer: &[u8; 32],
    buyer_balance: u64,
    amount: u64,
    max_price: u64,
    now: i64,
) -> (r: Result<BuyOutcome, SolSocialError>)
    ensures
        r == buy_keys_result(*keys, position, *buyer, buyer_balance, amount, max_price, now),
        r matches Ok(done) ==> {
            &&& done.event.total_paid == done.event.protocol_fee + done.event.subject_fee
                + done.event.price
            &&& done.event.total_paid <= buyer_balance
            &&& done.payments == buy_payments(
                done.event.price,
                done.event.subject_fee,
                done.event.protocol_fee,
            )
            &&& done.keys.supply == keys.supply + amount
            &&& done.keys.supply <= keys.curve_params.max_supply
            &&& done.holder.amount == position_or_fresh(position, *buyer, keys.user, now).amount
                + amount
            &&& done.holder.holder == position_or_fresh(position, *buyer, keys.user, now).holder
            &&& done.holder.keys_user == position_or_fresh(
                position,
                *buyer,
                keys.user,
                now,
            ).keys_user
            &&& done.keys.holders == keys.holders + (if held_before(position) == 0 {
                1int
            } else {
                0int
            })
            &&& done.keys.user == keys.user
            &&& done.keys.curve_params == keys.curve_params
        },
{
    if amount == 0 {
        return Err(SolSocialError::InvalidQuantity);
    }
    if !keys.is_active {
        return Err(SolSocialError::KeysNotActive);
    }
    if same_address(buyer, &keys.user) {
        return Err(SolSocialError::CannotBuyOwnKeys);
    }
    let (price, creator_fee, protocol_fee) = match keys.calculate_buy_price(amount) {
        Ok(quote) => quote,
        Err(e) => {
            return Err(e);
        },
    };
    if price == 0 {
        return Err(SolSocialError::InvalidPrice);
    }
    if price > max_price {
        return Err(SolSocialError::SlippageExceeded);
    }
    let with_protocol = match price.checked_add(protocol_fee) {
        Some(sum) => sum,
        None => {
            return Err(SolSocialError::ArithmeticOverflow);
        },
    };
    let total_paid = match with_protocol.checked_add(creator_fee) {
        Some(sum) => sum,
        None => {
            return Err(SolSocialError::ArithmeticOverflow);
        },
    };
    if buyer_balance < total_paid {
        return Err(SolSocialError::InsufficientBalance);
    }
    let mut booked = *keys;
    match booked.update_after_buy(amount, price, creator_fee, protocol_fee, now) {
        Ok(()) => {},
        Err(e) => {
            return Err(e);
        },
    }
    let mut holder = match position {
        Some(held) => held,
        None => KeyHolder::new(*buyer, keys.user, now),
    };
    let opened = holder.amount == 0;
    match holder.update_after_buy(amount, price, now) {
        Ok(()) => {},
        Err(e) => {
            return Err(e);
        },
    }
    if opened {
        booked.holders = match booked.holders.checked_add(1) {
            Some(count) => count,
            None => {
                return Err(SolSocialError::ArithmeticOverflow);
            },
        };
    }
    let event = KeysBoughtEvent {
        buyer: *buyer,
        subject: keys.user,
        amount,
        price,
        protocol_fee,
        subject_fee: creator_fee,
        total_paid,
        supply_after: booked.supply,
        timestamp: now,
    };
    let first_key = if keys.supply == 1 {
        Some(FirstKeyBoughtEvent { buyer: *buyer, subject: keys.user, amount, price, timestamp: now })
    } else {
        None
    };
    let mut milestone_100 = None;
    if booked.supply >= 100 && !booked.milestone_100_reached {
        booked.milestone_100_reached = true;
        milestone_100 =
        Some(
            MilestoneReachedEvent {
                subject: keys.user,
                milestone: 100,
                bonus_amount: MILESTONE_100_BONUS,
                timestamp: now,
            },
        );
    }
    let mut milestone_1000 = None;
    if booked.supply >= 1000 && !booked.milestone_1000_reached {
        booked.milestone_1000_reached = true;
        milestone_1000 =
        Some(
            MilestoneReachedEvent {
                subject: keys.user,
                milestone: 1000,
                bonus_amount: MILESTONE_1000_BONUS,
                timestamp: now,
            },
        );
    }
    let payments = [
        Payment { to: Payee::ProtocolTreasury, amount: protocol_fee },
        Payment { to: Payee::Subject, amount: creator_fee },
        Payment { to: Payee::Custody, amount: price },
    ];
    Ok(BuyOutcome { keys: booked, holder, payments, event, first_key, milestone_100, milestone_1000 })
}

} // verus!
