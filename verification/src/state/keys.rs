use crate::error::SolSocialError;
use crate::utils::bonding_curve::{buy_price_result, price_at_result, sell_price_result};
use crate::utils::revenue_share::{split, split_result};
use anchor_lang::prelude::Pubkey;
use vstd::bytes::{spec_u64_to_le_bytes, u64_to_le_bytes};
use vstd::prelude::*;
use vstd::slice::slice_to_vec;

verus! {

/// The parameters of one subject's bonding curve and the fee rates of its trades. They are
/// fixed when the keys are created.
#[derive(Debug, Clone, Copy, PartialEq, Eq)]
pub struct BondingCurveParams {
    /// Price of the first key, in lamports.
    pub base_price: u64,
    /// Divisor of the quadratic term: a key at supply `s` costs `s * s / price_factor`
    /// lamports over the base price.
    pub price_factor: u64,
    /// Supply at which the curve ends. No key is priced at or beyond it.
    pub max_supply: u64,
    /// Creator's fee, in basis points of the curve price.
    pub creator_fee: u16,
    /// Protocol's fee, in basis points of the curve price.
    pub protocol_fee: u16,
}

impl Default for BondingCurveParams {
    fn default() -> (r: Self)
        ensures
            r == default_curve_params(),
    {
        BondingCurveParams {
            base_price: 1_000_000,
            price_factor: 1_100_000,
            max_supply: 1_000_000,
            creator_fee: 500,
            protocol_fee: 250,
        }
    }
}

/// The direction of a trade.
#[derive(Debug, Clone, Copy, PartialEq, Eq, Structural)]
pub enum TransactionType {
    Buy,
    Sell,
}

/// The ledger of one subject's keys: how many are outstanding, what has been traded and
/// earned, and the curve they are priced on.
#[derive(Debug, Clone, Copy, PartialEq, Eq)]
pub struct UserKeys {
    /// The subject whose keys these are.
    pub user: [u8; 32],
    /// Keys outstanding.
    pub supply: u64,
    /// Sum of the curve prices of all trades, in lamports.
    pub volume: u64,
    /// Number of holders with at least one key.
    pub holders: u64,
    /// Sum of the creator's fees of all trades, in lamports.
    pub creator_earnings: u64,
    /// Sum of the protocol's fees of all trades, in lamports.
    pub protocol_fees: u64,
    pub created_at: i64,
    pub last_trade_at: i64,
    pub curve_params: BondingCurveParams,
    /// Cleared to halt purchases; the record itself stays.
    pub is_active: bool,
    /// Set once the supply has reached 100 keys.
    pub milestone_100_reached: bool,
    /// Set once the supply has reached 1000 keys.
    pub milestone_1000_reached: bool,
}

/// What one holder holds of one subject's keys. A record with no keys is a closed
/// position, and means the same as no record.
#[derive(Debug, Clone, Copy, PartialEq, Eq)]
pub struct KeyHolder {
    pub holder: [u8; 32],
    /// The subject whose keys are held.
    pub keys_user: [u8; 32],
    /// Keys held.
    pub amount: u64,
    /// Average curve price paid per key held, in lamports.
    pub avg_price: u64,
    /// Curve price paid for the keys held, in lamports.
    pub total_invested: u64,
    pub first_purchase_at: i64,
    pub last_purchase_at: i64,
}

/// The record of one trade.
#[derive(Debug, Clone, PartialEq, Eq)]
pub struct KeyTransaction {
    pub transaction_type: TransactionType,
    /// The subject whose keys were traded.
    pub keys_user: [u8; 32],
    pub trader: [u8; 32],
    pub amount: u64,
    pub price_per_key: u64,
    pub total_value: u64,
    pub creator_fee: u64,
    pub protocol_fee: u64,
    pub timestamp: i64,
    /// Signature of the transaction that carried the trade.
    pub signature: String,
}

/// Whether two account addresses are the same.
pub fn same_address(a: &[u8; 32], b: &[u8; 32]) -> (r: bool)
    ensures
        r == (*a == *b),
{
    let mut i: usize = 0;
    while i < 32
        invariant
            i <= 32,
            forall|j: int| 0 <= j < i ==> a@[j] == b@[j],
        decreases 32 - i,
    {
        if a[i] != b[i] {
            return false;
        }
        i = i + 1;
    }
    assert(*a =~= *b);
    true
}

/// The parameters that keys get where none are given.
pub open spec fn default_curve_params() -> BondingCurveParams {
    BondingCurveParams {
        base_price: 1_000_000,
        price_factor: 1_100_000,
        max_supply: 1_000_000,
        creator_fee: 500,
        protocol_fee: 250,
    }
}

/// The curve price of a trade of `amount` keys with the creator's fee and the protocol's
/// fee on it, in this order.
pub open spec fn quote_result(
    curve_price: Result<u64, SolSocialError>,
    params: BondingCurveParams,
) -> Result<(u64, u64, u64), SolSocialError> {
    match curve_price {
        Err(e) => Err(e),
        Ok(total) => match split_result(total, params.protocol_fee, params.creator_fee, None) {
            Err(e) => Err(e),
            Ok(d) => Ok((total, d.creator_fee, d.protocol_fee)),
        },
    }
}

impl UserKeys {
    /// The ledger as `new` makes it.
    pub open spec fn fresh(
        user: [u8; 32],
        curve_params: Option<BondingCurveParams>,
        now: i64,
    ) -> UserKeys {
        UserKeys {
            user,
            supply: 0,
            volume: 0,
            holders: 0,
            creator_earnings: 0,
            protocol_fees: 0,
            created_at: now,
            last_trade_at: now,
            curve_params: match curve_params {
                Some(params) => params,
                None => default_curve_params(),
            },
            is_active: true,
            milestone_100_reached: false,
            milestone_1000_reached: false,
        }
    }

    /// What `calculate_buy_price` returns.
    pub open spec fn buy_quote(self, amount: u64) -> Result<(u64, u64, u64), SolSocialError> {
        quote_result(buy_price_result(self.curve_params, self.supply, amount), self.curve_params)
    }

    /// What `calculate_sell_price` returns.
    pub open spec fn sell_quote(self, amount: u64) -> Result<(u64, u64, u64), SolSocialError> {
        quote_result(sell_price_result(self.curve_params, self.supply, amount), self.curve_params)
    }

    /// The ledger after a purchase of `amount` keys, or the overflow that stops it.
    pub open spec fn after_buy(
        self,
        amount: u64,
        total_cost: u64,
        creator_fee: u64,
        protocol_fee: u64,
        now: i64,
    ) -> Result<UserKeys, SolSocialError> {
        if self.supply + amount > u64::MAX || self.volume + total_cost > u64::MAX
            || self.creator_earnings + creator_fee > u64::MAX || self.protocol_fees + protocol_fee
            > u64::MAX {
            Err(SolSocialError::ArithmeticOverflow)
        } else {
            Ok(
                UserKeys {
                    supply: (self.supply + amount) as u64,
                    volume: (self.volume + total_cost) as u64,
                    creator_earnings: (self.creator_earnings + creator_fee) as u64,
                    protocol_fees: (self.protocol_fees + protocol_fee) as u64,
                    last_trade_at: now,
                    ..self
                },
            )
        }
    }

    /// The ledger after a sale of `amount` keys, or what stops it: more keys than are
    /// outstanding, or an overflow.
    pub open spec fn after_sell(
        self,
        amount: u64,
        total_value: u64,
        creator_fee: u64,
        protocol_fee: u64,
        now: i64,
    ) -> Result<UserKeys, SolSocialError> {
        if amount > self.supply {
            Err(SolSocialError::InsufficientSupply)
        } else if self.volume + total_value > u64::MAX || self.creator_earnings + creator_fee
            > u64::MAX || self.protocol_fees + protocol_fee > u64::MAX {
            Err(SolSocialError::ArithmeticOverflow)
        } else {
            Ok(
                UserKeys {
                    supply: (self.supply - amount) as u64,
                    volume: (self.volume + total_value) as u64,
                    creator_earnings: (self.creator_earnings + creator_fee) as u64,
                    protocol_fees: (self.protocol_fees + protocol_fee) as u64,
                    last_trade_at: now,
                    ..self
                },
            )
        }
    }

    /// An active ledger for `user` with no key outstanding, on the given curve or, where
    /// none is given, on the default one.
    pub fn new(user: [u8; 32], curve_params: Option<BondingCurveParams>, now: i64) -> (r: Self)
        ensures
            r == Self::fresh(user, curve_params, now),
    {
        let params = match curve_params {
            Some(params) => params,
            None => BondingCurveParams::default(),
        };
        UserKeys {
            user,
            supply: 0,
            volume: 0,
            holders: 0,
            creator_earnings: 0,
            protocol_fees: 0,
            created_at: now,
            last_trade_at: now,
            curve_params: params,
            is_active: true,
            milestone_100_reached: false,
            milestone_1000_reached: false,
        }
    }

    /// The price of the key that is minted at `supply` on this ledger's curve.
    pub fn calculate_price(&self, supply: u64) -> (r: Result<u64, SolSocialError>)
        ensures
            r == price_at_result(self.curve_params, supply),
    {
        self.curve_params.price_at(supply)
    }

    /// The curve price of buying `amount` keys now, with the creator's fee and the
    /// protocol's fee on it.
    pub fn calculate_buy_price(&self, amount: u64) -> (r: Result<(u64, u64, u64), SolSocialError>)
        ensures
            r == self.buy_quote(amount),
    {
        let total_cost = match self.curve_params.aggregate_price(
            self.supply,
            amount,
            TransactionType::Buy,
        ) {
            Ok(total) => total,
            Err(e) => {
                return Err(e);
            },
        };
        match split(total_cost, self.curve_params.protocol_fee, self.curve_params.creator_fee, None) {
            Ok(d) => Ok((total_cost, d.creator_fee, d.protocol_fee)),
            Err(e) => Err(e),
        }
    }

    /// The curve price of selling `amount` keys now, with the creator's fee and the
    /// protocol's fee on it.
    pub fn calculate_sell_price(&self, amount: u64) -> (r: Result<(u64, u64, u64), SolSocialError>)
        ensures
            r == self.sell_quote(amount),
    {
        let total_value = match self.curve_params.aggregate_price(
            self.supply,
            amount,
            TransactionType::Sell,
        ) {
            Ok(total) => total,
            Err(e) => {
                return Err(e);
            },
        };
        match split(total_value, self.curve_params.protocol_fee, self.curve_params.creator_fee, None) {
            Ok(d) => Ok((total_value, d.creator_fee, d.protocol_fee)),
            Err(e) => Err(e),
        }
    }

    /// Books a purchase: `amount` more keys outstanding, the curve price added to the
    /// volume and the fees to what the creator and the protocol have earned. Where a sum
    /// does not fit, nothing is booked.
    pub fn update_after_buy(
        &mut self,
        amount: u64,
        total_cost: u64,
        creator_fee: u64,
        protocol_fee: u64,
        now: i64,
    ) -> (r: Result<(), SolSocialError>)
        ensures
            match r {
                Ok(()) => old(self).after_buy(amount, total_cost, creator_fee, protocol_fee, now)
                    == Ok::<UserKeys, SolSocialError>(*final(self)),
                Err(e) => old(self).after_buy(amount, total_cost, creator_fee, protocol_fee, now)
                    == Err::<UserKeys, SolSocialError>(e) && *final(self) == *old(self),
            },
    {
        let supply = match self.supply.checked_add(amount) {
            Some(sum) => sum,
            None => {
                return Err(SolSocialError::ArithmeticOverflow);
            },
        };
        let volume = match self.volume.checked_add(total_cost) {
            Some(sum) => sum,
            None => {
                return Err(SolSocialError::ArithmeticOverflow);
            },
        };
        let creator_earnings = match self.creator_earnings.checked_add(creator_fee) {
            Some(sum) => sum,
            None => {
                return Err(SolSocialError::ArithmeticOverflow);
            },
        };
        let protocol_fees = match self.protocol_fees.checked_add(protocol_fee) {
            Some(sum) => sum,
            None => {
                return Err(SolSocialError::ArithmeticOverflow);
            },
        };
        self.supply = supply;
        self.volume = volume;
        self.creator_earnings = creator_earnings;
        self.protocol_fees = protocol_fees;
        self.last_trade_at = now;
        Ok(())
    }

    /// Books a sale: `amount` fewer keys outstanding, the curve price added to the volume
    /// and the fees to what the creator and the protocol have earned. Where the keys are
    /// not outstanding or a sum does not fit, nothing is booked.
    pub fn update_after_sell(
        &mut self,
        amount: u64,
        total_value: u64,
        creator_fee: u64,
        protocol_fee: u64,
        now: i64,
    ) -> (r: Result<(), SolSocialError>)
        ensures
            match r {
                Ok(()) => old(self).after_sell(amount, total_value, creator_fee, protocol_fee, now)
                    == Ok::<UserKeys, SolSocialError>(*final(self)),
                Err(e) => old(self).after_sell(amount, total_value, creator_fee, protocol_fee, now)
                    == Err::<UserKeys, SolSocialError>(e) && *final(self) == *old(self),
            },
    {
        let supply = match self.supply.checked_sub(amount) {
            Some(rest) => rest,
            None => {
                return Err(SolSocialError::InsufficientSupply);
            },
        };
        let volume = match self.volume.checked_add(total_value) {
            Some(sum) => sum,
            None => {
                return Err(SolSocialError::ArithmeticOverflow);
            },
        };
        let creator_earnings = match self.creator_earnings.checked_add(creator_fee) {
            Some(sum) => sum,
            None => {
                return Err(SolSocialError::ArithmeticOverflow);
            },
        };
        let protocol_fees = match self.protocol_fees.checked_add(protocol_fee) {
            Some(sum) => sum,
            None => {
                return Err(SolSocialError::ArithmeticOverflow);
            },
        };
        self.supply = supply;
        self.volume = volume;
        self.creator_earnings = creator_earnings;
        self.protocol_fees = protocol_fees;
        self.last_trade_at = now;
        Ok(())
    }
}

/// What is left of `total_invested` when a holder of `amount_before` keys keeps
/// `amount_after` of them: the investment times the keys kept over the keys held,
/// rounded down once.
pub open spec fn remaining_investment(total_invested: u64, amount_after: u64, amount_before: u64) -> int {
    (total_invested * amount_after) / (amount_before as int)
}

impl KeyHolder {
    /// The position as `new` makes it.
    pub open spec fn fresh(holder: [u8; 32], keys_user: [u8; 32], now: i64) -> KeyHolder {
        KeyHolder {
            holder,
            keys_user,
            amount: 0,
            avg_price: 0,
            total_invested: 0,
            first_purchase_at: now,
            last_purchase_at: now,
        }
    }

    /// The position after a purchase of `amount` keys for `total_cost`, or the overflow
    /// that stops it. The average price is what was invested in all over the keys held in
    /// all, rounded down.
    pub open spec fn after_buy(self, amount: u64, total_cost: u64, now: i64) -> Result<
        KeyHolder,
        SolSocialError,
    > {
        if self.amount + amount > u64::MAX || self.total_invested + total_cost > u64::MAX {
            Err(SolSocialError::ArithmeticOverflow)
        } else {
            Ok(
                KeyHolder {
                    amount: (self.amount + amount) as u64,
                    avg_price: if self.amount + amount > 0 {
                        ((self.total_invested + total_cost) / (self.amount + amount)) as u64
                    } else {
                        0
                    },
                    total_invested: (self.total_invested + total_cost) as u64,
                    first_purchase_at: if self.amount == 0 {
                        now
                    } else {
                        self.first_purchase_at
                    },
                    last_purchase_at: now,
                    ..self
                },
            )
        }
    }

    /// The position after a sale of `amount` keys, or the refusal where fewer are held.
    /// A position sold down to nothing has neither investment nor average price left; one
    /// that keeps keys keeps its average price and the kept part of its investment.
    pub open spec fn after_sell(self, amount: u64) -> Result<KeyHolder, SolSocialError> {
        if amount > self.amount {
            Err(SolSocialError::InsufficientShares)
        } else if amount == self.amount {
            Ok(KeyHolder { amount: 0, avg_price: 0, total_invested: 0, ..self })
        } else {
            Ok(
                KeyHolder {
                    amount: (self.amount - amount) as u64,
                    total_invested: remaining_investment(
                        self.total_invested,
                        (self.amount - amount) as u64,
                        self.amount,
                    ) as u64,
                    ..self
                },
            )
        }
    }

    /// A position of `holder` in the keys of `keys_user` with no key in it.
    pub fn new(holder: [u8; 32], keys_user: [u8; 32], now: i64) -> (r: Self)
        ensures
            r == Self::fresh(holder, keys_user, now),
    {
        KeyHolder {
            holder,
            keys_user,
            amount: 0,
            avg_price: 0,
            total_invested: 0,
            first_purchase_at: now,
            last_purchase_at: now,
        }
    }

    /// Books a purchase of `amount` keys for `total_cost`. Where a sum does not fit,
    /// nothing is booked.
    pub fn update_after_buy(&mut self, amount: u64, total_cost: u64, now: i64) -> (r: Result<
        (),
        SolSocialError,
    >)
        ensures
            match r {
                Ok(()) => old(self).after_buy(amount, total_cost, now) == Ok::<
                    KeyHolder,
                    SolSocialError,
                >(*final(self)),
                Err(e) => old(self).after_buy(amount, total_cost, now) == Err::<
                    KeyHolder,
                    SolSocialError,
                >(e) && *final(self) == *old(self),
            },
    {
        let total_amount = match self.amount.checked_add(amount) {
            Some(sum) => sum,
            None => {
                return Err(SolSocialError::ArithmeticOverflow);
            },
        };
        let total_value = match self.total_invested.checked_add(total_cost) {
            Some(sum) => sum,
            None => {
                return Err(SolSocialError::ArithmeticOverflow);
            },
        };
        if self.amount == 0 {
            self.first_purchase_at = now;
        }
        self.avg_price = if total_amount > 0 {
            total_value / total_amount
        } else {
            0
        };
        self.amount = total_amount;
        self.total_invested = total_value;
        self.last_purchase_at = now;
        Ok(())
    }

    /// Books a sale of `amount` keys. Where fewer are held, nothing is booked.
    pub fn update_after_sell(&mut self, amount: u64) -> (r: Result<(), SolSocialError>)
        ensures
            match r {
                Ok(()) => old(self).after_sell(amount) == Ok::<KeyHolder, SolSocialError>(
                    *final(self),
                ),
                Err(e) => old(self).after_sell(amount) == Err::<KeyHolder, SolSocialError>(e)
                    && *final(self) == *old(self),
            },
    {
        let before = self.amount;
        let after = match before.checked_sub(amount) {
            Some(rest) => rest,
            None => {
                return Err(SolSocialError::InsufficientShares);
            },
        };
        if after > 0 {
            proof {
                lemma_kept_part(self.total_invested, after, before);
            }
            let kept: u128 = (self.total_invested as u128) * (after as u128) / (before as u128);
            self.total_invested = kept as u64;
        } else {
            self.total_invested = 0;
            self.avg_price = 0;
        }
        self.amount = after;
        Ok(())
    }
}

/// The kept part of an investment is never more than the investment, and the product it
/// is computed from fits 128 bits.
pub proof fn lemma_kept_part(total_invested: u64, amount_after: u64, amount_before: u64)
    requires
        0 < amount_after <= amount_before,
    ensures
        0 <= total_invested * amount_after <= u128::MAX,
        0 <= remaining_investment(total_invested, amount_after, amount_before) <= total_invested,
{
    assert(0 <= total_invested * amount_after <= 0xffff_ffff_ffff_ffff * 0xffff_ffff_ffff_ffff)
        by (nonlinear_arith)
        requires
            0 <= total_invested <= 0xffff_ffff_ffff_ffff,
            0 <= amount_after <= 0xffff_ffff_ffff_ffff,
    ;
    assert(0 <= (total_invested * amount_after) / (amount_before as int) <= total_invested)
        by (nonlinear_arith)
        requires
            0 < amount_after <= amount_before,
            0 <= total_invested,
    ;
}

impl KeyTransaction {
    /// The record of a trade that happened at `now`.
    pub fn new(
        transaction_type: TransactionType,
        keys_user: [u8; 32],
        trader: [u8; 32],
        amount: u64,
        price_per_key: u64,
        total_value: u64,
        creator_fee: u64,
        protocol_fee: u64,
        signature: String,
        now: i64,
    ) -> (r: Self)
        ensures
            r == (KeyTransaction {
                transaction_type,
                keys_user,
                trader,
                amount,
                price_per_key,
                total_value,
                creator_fee,
                protocol_fee,
                timestamp: now,
                signature,
            }),
    {
        KeyTransaction {
            transaction_type,
            keys_user,
            trader,
            amount,
            price_per_key,
            total_value,
            creator_fee,
            protocol_fee,
            timestamp: now,
            signature,
        }
    }
}

/// The seed of the address of a subject's ledger: the bytes of `user_keys`.
pub const USER_KEYS_SEED: [u8; 9] = [117, 115, 101, 114, 95, 107, 101, 121, 115];

/// The seed of the address of a holder's position: the bytes of `key_holder`.
pub const KEY_HOLDER_SEED: [u8; 10] = [107, 101, 121, 95, 104, 111, 108, 100, 101, 114];

/// The seed of the address of a trade's record: the bytes of `key_transaction`.
pub const KEY_TRANSACTION_SEED: [u8; 15] = [
    107,
    101,
    121,
    95,
    116,
    114,
    97,
    110,
    115,
    97,
    99,
    116,
    105,
    111,
    110,
];

/// The program-derived address that the seeds give under a program, with its bump seed,
/// or nothing where the seeds give none.
pub uninterp spec fn program_address(seeds: Seq<Seq<u8>>, program_id: Seq<u8>) -> Option<
    (Seq<u8>, u8),
>;

/// The seeds as plain bytes.
pub open spec fn seed_bytes(seeds: Seq<Vec<u8>>) -> Seq<Seq<u8>> {
    Seq::new(seeds.len(), |i: int| seeds[i]@)
}

/// An address and its bump seed as plain bytes.
pub open spec fn address_bytes(found: Option<([u8; 32], u8)>) -> Option<(Seq<u8>, u8)> {
    match found {
        Some((address, bump)) => Some((address@, bump)),
        None => None,
    }
}

/// Calls `Pubkey::try_find_program_address` of `anchor_lang` (Solana's `Pubkey`). The
/// address is a hash of the seeds, a bump seed and the program id, so it depends on
/// nothing but the arguments; what it is for given seeds is not stated here, only that it
/// is the value `program_address` names.
#[verifier::external_body]
fn find_program_address(seeds: &Vec<Vec<u8>>, program_id: &[u8; 32]) -> (r: Option<([u8; 32], u8)>)
    ensures
        address_bytes(r) == program_address(seed_bytes(seeds@), program_id@),
{
    let mut parts: Vec<&[u8]> = Vec::new();
    for seed in seeds.iter() {
        parts.push(seed.as_slice());
    }
    match Pubkey::try_find_program_address(&parts, &Pubkey::new_from_array(*program_id)) {
        Some((address, bump)) => Some((address.to_bytes(), bump)),
        None => None,
    }
}

/// The seeds of the address of the ledger of `user`.
pub open spec fn user_keys_seeds(user: [u8; 32]) -> Seq<Seq<u8>> {
    seq![USER_KEYS_SEED@, user@]
}

/// The seeds of the address of the position of `holder` in the keys of `keys_user`.
pub open spec fn key_holder_seeds(holder: [u8; 32], keys_user: [u8; 32]) -> Seq<Seq<u8>> {
    seq![KEY_HOLDER_SEED@, holder@, keys_user@]
}

/// The seeds of the address of the record of a trade: the subject, the trader and the
/// time of the trade as eight bytes, lowest first.
pub open spec fn key_transaction_seeds(
    keys_user: [u8; 32],
    trader: [u8; 32],
    timestamp: i64,
) -> Seq<Seq<u8>> {
    seq![KEY_TRANSACTION_SEED@, keys_user@, trader@, spec_u64_to_le_bytes(timestamp as u64)]
}

/// The address of the ledger of `user` under the program, with its bump seed.
pub fn get_user_keys_pda(user: &[u8; 32], program_id: &[u8; 32]) -> (r: Option<([u8; 32], u8)>)
    ensures
        address_bytes(r) == program_address(user_keys_seeds(*user), program_id@),
{
    let mut seeds: Vec<Vec<u8>> = Vec::new();
    seeds.push(slice_to_vec(USER_KEYS_SEED.as_slice()));
    seeds.push(slice_to_vec(user.as_slice()));
    assert(seed_bytes(seeds@) =~~= user_keys_seeds(*user));
    find_program_address(&seeds, program_id)
}

/// The address of the position of `holder` in the keys of `keys_user` under the program,
/// with its bump seed.
pub fn get_key_holder_pda(holder: &[u8; 32], keys_user: &[u8; 32], program_id: &[u8; 32]) -> (r:
    Option<([u8; 32], u8)>)
    ensures
        address_bytes(r) == program_address(key_holder_seeds(*holder, *keys_user), program_id@),
{
    let mut seeds: Vec<Vec<u8>> = Vec::new();
    seeds.push(slice_to_vec(KEY_HOLDER_SEED.as_slice()));
    seeds.push(slice_to_vec(holder.as_slice()));
    seeds.push(slice_to_vec(keys_user.as_slice()));
    assert(seed_bytes(seeds@) =~~= key_holder_seeds(*holder, *keys_user));
    find_program_address(&seeds, program_id)
}

/// The address of the record of the trade that `trader` made in the keys of `keys_user`
/// at `timestamp`, under the program, with its bump seed.
pub fn get_key_transaction_pda(
    keys_user: &[u8; 32],
    trader: &[u8; 32],
    timestamp: i64,
    program_id: &[u8; 32],
) -> (r: Option<([u8; 32], u8)>)
    ensures
        address_bytes(r) == program_address(
            key_transaction_seeds(*keys_user, *trader, timestamp),
            program_id@,
        ),
{
    let mut seeds: Vec<Vec<u8>> = Vec::new();
    seeds.push(slice_to_vec(KEY_TRANSACTION_SEED.as_slice()));
    seeds.push(slice_to_vec(keys_user.as_slice()));
    seeds.push(slice_to_vec(trader.as_slice()));
    seeds.push(u64_to_le_bytes(#[verifier::truncate] (timestamp as u64)));
    assert(seed_bytes(seeds@) =~~= key_transaction_seeds(*keys_user, *trader, timestamp));
    find_program_address(&seeds, program_id)
}

} // verus!
