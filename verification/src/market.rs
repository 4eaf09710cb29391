use crate::error::SolSocialError;
use crate::instructions::buy_keys::{buy_keys, buy_keys_result, BuyOutcome};
use crate::instructions::create_keys::{create_keys_result, handler};
use crate::instructions::sell_keys::{sell_keys, sell_keys_result, SellOutcome};
use crate::state::keys::{same_address, BondingCurveParams, KeyHolder, UserKeys};
use vstd::prelude::*;

verus! {

/// The keys that the positions hold between them.
pub open spec fn total_held(positions: Seq<KeyHolder>) -> int
    decreases positions.len(),
{
    if positions.len() == 0 {
        0
    } else {
        total_held(positions.drop_last()) + positions.last().amount
    }
}

/// One for a position with keys in it, nothing for a closed one.
pub open spec fn counts_as_open(position: KeyHolder) -> int {
    if position.amount > 0 {
        1
    } else {
        0
    }
}

/// The number of positions with at least one key.
pub open spec fn open_positions(positions: Seq<KeyHolder>) -> int
    decreases positions.len(),
{
    if positions.len() == 0 {
        0
    } else {
        open_positions(positions.drop_last()) + counts_as_open(positions.last())
    }
}

/// Whether `holder` has a record among the positions.
pub open spec fn has_position(positions: Seq<KeyHolder>, holder: [u8; 32]) -> bool {
    exists|i: int| 0 <= i < positions.len() && (#[trigger] positions[i]).holder == holder
}

/// Where the record of `holder` stands among the positions.
pub open spec fn position_index(positions: Seq<KeyHolder>, holder: [u8; 32]) -> int {
    choose|i: int| 0 <= i < positions.len() && (#[trigger] positions[i]).holder == holder
}

/// The record of `holder`. No record means the same as a record without keys.
pub open spec fn position_of(positions: Seq<KeyHolder>, holder: [u8; 32]) -> Option<KeyHolder> {
    if has_position(positions, holder) {
        Some(positions[position_index(positions, holder)])
    } else {
        None
    }
}

/// The positions with `record` in the place of its holder's record, or added where the
/// holder had none.
pub open spec fn with_position(positions: Seq<KeyHolder>, record: KeyHolder) -> Seq<KeyHolder> {
    if has_position(positions, record.holder) {
        positions.update(position_index(positions, record.holder), record)
    } else {
        positions.push(record)
    }
}

/// No holder has two records.
pub open spec fn holders_distinct(positions: Seq<KeyHolder>) -> bool {
    forall|i: int, j: int|
        0 <= i < j < positions.len() ==> (#[trigger] positions[i]).holder != (
        #[trigger] positions[j]).holder
}

/// A position without keys has no investment and no average price left.
pub open spec fn closed_means_empty(position: KeyHolder) -> bool {
    position.amount == 0 ==> position.total_invested == 0 && position.avg_price == 0
}

/// The ledger and the positions agree: every position is one in these keys, no holder has
/// two, a closed position is empty, the keys held add up to the supply, and the ledger
/// counts the holders that have keys.
pub open spec fn holdings_consistent(keys: UserKeys, positions: Seq<KeyHolder>) -> bool {
    &&& holders_distinct(positions)
    &&& forall|i: int|
        0 <= i < positions.len() ==> (#[trigger] positions[i]).keys_user == keys.user
    &&& forall|i: int| 0 <= i < positions.len() ==> closed_means_empty(#[trigger] positions[i])
    &&& total_held(positions) == keys.supply
    &&& open_positions(positions) == keys.holders
}

/// Adding a record adds its keys to the total, and one to the open positions if it has
/// keys.
pub proof fn lemma_held_after_push(positions: Seq<KeyHolder>, record: KeyHolder)
    ensures
        total_held(positions.push(record)) == total_held(positions) + record.amount,
        open_positions(positions.push(record)) == open_positions(positions) + counts_as_open(
            record,
        ),
{
    assert(positions.push(record).drop_last() =~= positions);
}

/// Replacing a record changes the total by the difference of the keys, and the open
/// positions by whether the position opened or closed.
pub proof fn lemma_held_after_update(positions: Seq<KeyHolder>, i: int, record: KeyHolder)
    requires
        0 <= i < positions.len(),
    ensures
        total_held(positions.update(i, record)) == total_held(positions) - positions[i].amount
            + record.amount,
        open_positions(positions.update(i, record)) == open_positions(positions) - counts_as_open(
            positions[i],
        ) + counts_as_open(record),
    decreases positions.len(),
{
    if i == positions.len() - 1 {
        assert(positions.update(i, record).drop_last() =~= positions.drop_last());
    } else {
        lemma_held_after_update(positions.drop_last(), i, record);
        assert(positions.update(i, record).drop_last() =~= positions.drop_last().update(
            i,
            record,
        ));
    }
}

/// Where no holder has two records, the record of a holder is the one that bears the
/// holder's address.
pub proof fn lemma_position_at(positions: Seq<KeyHolder>, i: int)
    requires
        holders_distinct(positions),
        0 <= i < positions.len(),
    ensures
        has_position(positions, positions[i].holder),
        position_index(positions, positions[i].holder) == i,
        position_of(positions, positions[i].holder) == Some(positions[i]),
{
    let holder = positions[i].holder;
    assert(has_position(positions, holder));
    let j = position_index(positions, holder);
    if j < i {
        assert(positions[j].holder != positions[i].holder);
    } else if i < j {
        assert(positions[i].holder != positions[j].holder);
    }
}

/// The market in one subject's keys: the ledger, and the positions of all holders.
pub struct Market {
    keys: UserKeys,
    positions: Vec<KeyHolder>,
}

impl Market {
    /// The ledger of the keys.
    pub closed spec fn ledger(&self) -> UserKeys {
        self.keys
    }

    /// The positions in the keys, one record a holder.
    pub closed spec fn holdings(&self) -> Seq<KeyHolder> {
        self.positions@
    }

    /// The ledger and the positions agree. Every market that this module hands out is
    /// well-formed, and every operation keeps it so: after each trade the keys held add
    /// up to the supply.
    pub open spec fn wf(&self) -> bool {
        holdings_consistent(self.ledger(), self.holdings())
    }

    /// Creates the keys of `creator` and the market in them. The creator holds the first
    /// key.
    pub fn create(creator: [u8; 32], curve_params: Option<BondingCurveParams>, now: i64) -> (r:
        Result<Market, SolSocialError>)
        ensures
            match r {
                Ok(market) => {
                    &&& market.wf()
                    &&& market.holdings().len() == 1
                    &&& create_keys_result(creator, curve_params, now) == Ok::<
                        (UserKeys, KeyHolder),
                        SolSocialError,
                    >((market.ledger(), market.holdings()[0]))
                },
                Err(e) => create_keys_result(creator, curve_params, now) == Err::<
                    (UserKeys, KeyHolder),
                    SolSocialError,
                >(e),
            },
    {
        let (keys, holder) = match handler(creator, curve_params, now) {
            Ok(created) => created,
            Err(e) => {
                return Err(e);
            },
        };
        let mut positions: Vec<KeyHolder> = Vec::new();
        positions.push(holder);
        proof {
            lemma_held_after_push(Seq::<KeyHolder>::empty(), holder);
            assert(positions@ =~= Seq::<KeyHolder>::empty().push(holder));
        }
        Ok(Market { keys, positions })
    }

    fn find(&self, holder: &[u8; 32]) -> (r: Option<usize>)
        ensures
            match r {
                Some(i) => i < self.positions@.len() && self.positions@[i as int].holder
                    == *holder,
                None => !has_position(self.positions@, *holder),
            },
    {
        let mut i: usize = 0;
        while i < self.positions.len()
            invariant
                i <= self.positions@.len(),
                forall|j: int| 0 <= j < i ==> (#[trigger] self.positions@[j]).holder != *holder,
            decreases self.positions@.len() - i,
        {
            if same_address(&self.positions[i].holder, holder) {
                return Some(i);
            }
            i = i + 1;
        }
        None
    }

    /// The ledger of the keys.
    pub fn keys(&self) -> (r: UserKeys)
        ensures
            r == self.ledger(),
    {
        self.keys
    }

    /// The record of `holder`, if the holder has one.
    pub fn position(&self, holder: &[u8; 32]) -> (r: Option<KeyHolder>)
        requires
            self.wf(),
        ensures
            r == position_of(self.holdings(), *holder),
    {
        match self.find(holder) {
            Some(i) => {
                proof {
                    lemma_position_at(self.positions@, i as int);
                }
                Some(self.positions[i])
            },
            None => None,
        }
    }

    /// Halts or resumes purchases. Sales and the record itself are not touched.
    pub fn set_active(&mut self, active: bool)
        requires
            old(self).wf(),
        ensures
            final(self).wf(),
            final(self).ledger() == (UserKeys { is_active: active, ..old(self).ledger() }),
            final(self).holdings() == old(self).holdings(),
    {
        self.keys.is_active = active;
    }

    /// Buys `amount` keys for `buyer`, as `buy_keys` does on the ledger and the buyer's
    /// record, and books the result. A purchase that is refused leaves the market as it
    /// was.
    pub fn buy(
        &mut self,
        buyer: &[u8; 32],
        buyer_balance: u64,
        amount: u64,
        max_price: u64,
        now: i64,
    ) -> (r: Result<BuyOutcome, SolSocialError>)
        requires
            old(self).wf(),
        ensures
            final(self).wf(),
            r == buy_keys_result(
                old(self).ledger(),
                position_of(old(self).holdings(), *buyer),
                *buyer,
                buyer_balance,
                amount,
                max_price,
                now,
            ),
            match r {
                Ok(done) => {
                    &&& final(self).ledger() == done.keys
                    &&& final(self).holdings() == with_position(old(self).holdings(), done.holder)
                    &&& total_held(final(self).holdings()) == total_held(old(self).holdings())
                        + amount
                },
                Err(_) => *final(self) == *old(self),
            },
            final(self).ledger().user == old(self).ledger().user,
            final(self).ledger().curve_params == old(self).ledger().curve_params,
    {
        let found = self.find(buyer);
        let position = match found {
            Some(i) => {
                proof {
                    lemma_position_at(self.positions@, i as int);
                }
                Some(self.positions[i])
            },
            None => None,
        };
        let done = match buy_keys(
            &self.keys,
            position,
            buyer,
            buyer_balance,
            amount,
            max_price,
            now,
        ) {
            Ok(done) => done,
            Err(e) => {
                return Err(e);
            },
        };
        let ghost before = self.positions@;
        self.keys = done.keys;
        match found {
            Some(i) => {
                proof {
                    lemma_position_at(before, i as int);
                    lemma_held_after_update(before, i as int, done.holder);
                }
                self.positions[i] = done.holder;
            },
            None => {
                proof {
                    lemma_held_after_push(before, done.holder);
                }
                self.positions.push(done.holder);
            },
        }
        Ok(done)
    }

    /// Sells `amount` keys for `seller`, as `sell_keys` does on the ledger and the
    /// seller's record, and books the result. A sale that is refused leaves the market as
    /// it was.
    pub fn sell(
        &mut self,
        seller: &[u8; 32],
        custody_balance: u64,
        amount: u64,
        min_price: u64,
        now: i64,
    ) -> (r: Result<SellOutcome, SolSocialError>)
        requires
            old(self).wf(),
        ensures
            final(self).wf(),
            r == sell_keys_result(
                old(self).ledger(),
                position_of(old(self).holdings(), *seller),
                *seller,
                custody_balance,
                amount,
                min_price,
                now,
            ),
            match r {
                Ok(done) => {
                    &&& final(self).ledger() == done.keys
                    &&& final(self).holdings() == with_position(old(self).holdings(), done.holder)
                    &&& total_held(final(self).holdings()) == total_held(old(self).holdings())
                        - amount
                },
                Err(_) => *final(self) == *old(self),
            },
            final(self).ledger().user == old(self).ledger().user,
            final(self).ledger().curve_params == old(self).ledger().curve_params,
    {
        let found = self.find(seller);
        let position = match found {
            Some(i) => {
                proof {
                    lemma_position_at(self.positions@, i as int);
                }
                Some(self.positions[i])
            },
            None => None,
        };
        let done = match sell_keys(
            &self.keys,
            position,
            seller,
            custody_balance,
            amount,
            min_price,
            now,
        ) {
            Ok(done) => done,
            Err(e) => {
                return Err(e);
            },
        };
        let ghost before = self.positions@;
        self.keys = done.keys;
        match found {
            Some(i) => {
                proof {
                    lemma_position_at(before, i as int);
                    lemma_held_after_update(before, i as int, done.holder);
                }
                self.positions[i] = done.holder;
            },
            None => {},
        }
        Ok(done)
    }
}

/// Whether keys exist for `subject`.
pub open spec fn has_market(markets: Seq<Market>, subject: [u8; 32]) -> bool {
    exists|i: int| 0 <= i < markets.len() && (#[trigger] markets[i]).ledger().user == subject
}

/// Where the market in the keys of `subject` stands among the markets.
pub open spec fn market_index(markets: Seq<Market>, subject: [u8; 32]) -> int {
    choose|i: int| 0 <= i < markets.len() && (#[trigger] markets[i]).ledger().user == subject
}

/// The market in the keys of `subject`, if keys exist for it.
pub open spec fn market_of(markets: Seq<Market>, subject: [u8; 32]) -> Option<Market> {
    if has_market(markets, subject) {
        Some(markets[market_index(markets, subject)])
    } else {
        None
    }
}

/// No subject has two markets.
pub open spec fn subjects_distinct(markets: Seq<Market>) -> bool {
    forall|i: int, j: int|
        0 <= i < j < markets.len() ==> (#[trigger] markets[i]).ledger().user != (
        #[trigger] markets[j]).ledger().user
}

/// Where no subject has two markets, the market of a subject is the one whose ledger
/// bears the subject's address.
pub proof fn lemma_market_at(markets: Seq<Market>, i: int)
    requires
        subjects_distinct(markets),
        0 <= i < markets.len(),
    ensures
        has_market(markets, markets[i].ledger().user),
        market_index(markets, markets[i].ledger().user) == i,
        market_of(markets, markets[i].ledger().user) == Some(markets[i]),
{
    let subject = markets[i].ledger().user;
    assert(has_market(markets, subject));
    let j = market_index(markets, subject);
    if j < i {
        assert(markets[j].ledger().user != markets[i].ledger().user);
    } else if i < j {
        assert(markets[i].ledger().user != markets[j].ledger().user);
    }
}

/// What `Marketplace::create_keys` decides: keys are created once for a subject.
pub open spec fn marketplace_create_result(
    markets: Seq<Market>,
    creator: [u8; 32],
    curve_params: Option<BondingCurveParams>,
    now: i64,
) -> Result<(UserKeys, KeyHolder), SolSocialError> {
    if has_market(markets, creator) {
        Err(SolSocialError::AlreadyExists)
    } else {
        create_keys_result(creator, curve_params, now)
    }
}

/// What `Marketplace::buy_keys` returns.
pub open spec fn marketplace_buy_result(
    markets: Seq<Market>,
    subject: [u8; 32],
    buyer: [u8; 32],
    buyer_balance: u64,
    amount: u64,
    max_price: u64,
    now: i64,
) -> Result<BuyOutcome, SolSocialError> {
    match market_of(markets, subject) {
        None => Err(SolSocialError::NotFound),
        Some(market) => buy_keys_result(
            market.ledger(),
            position_of(market.holdings(), buyer),
            buyer,
            buyer_balance,
            amount,
            max_price,
            now,
        ),
    }
}

/// What `Marketplace::sell_keys` returns.
pub open spec fn marketplace_sell_result(
    markets: Seq<Market>,
    subject: [u8; 32],
    seller: [u8; 32],
    custody_balance: u64,
    amount: u64,
    min_price: u64,
    now: i64,
) -> Result<SellOutcome, SolSocialError> {
    match market_of(markets, subject) {
        None => Err(SolSocialError::NotFound),
        Some(market) => sell_keys_result(
            market.ledger(),
            position_of(market.holdings(), seller),
            seller,
            custody_balance,
            amount,
            min_price,
            now,
        ),
    }
}

/// The markets after a trade in the keys of `subject`: that market has the new ledger
/// and the trader's new record, and no other market has changed.
pub open spec fn traded(
    before: Seq<Market>,
    after: Seq<Market>,
    subject: [u8; 32],
    keys: UserKeys,
    holder: KeyHolder,
) -> bool {
    let i = market_index(before, subject);
    &&& has_market(before, subject)
    &&& after.len() == before.len()
    &&& after[i].ledger() == keys
    &&& after[i].holdings() == with_position(before[i].holdings(), holder)
    &&& forall|j: int| 0 <= j < before.len() && j != i ==> #[trigger] after[j] == before[j]
}

/// The markets in the keys of all subjects.
pub struct Marketplace {
    markets: Vec<Market>,
}

impl Marketplace {
    /// The markets, one a subject.
    pub closed spec fn markets(&self) -> Seq<Market> {
        self.markets@
    }

    /// Every market is well-formed and no subject has two. Every operation keeps it so:
    /// for every subject the keys held add up to the supply after each operation.
    pub open spec fn wf(&self) -> bool {
        &&& subjects_distinct(self.markets())
        &&& forall|i: int| 0 <= i < self.markets().len() ==> (#[trigger] self.markets()[i]).wf()
    }

    /// A marketplace without keys.
    pub fn new() -> (r: Marketplace)
        ensures
            r.wf(),
            r.markets().len() == 0,
    {
        Marketplace { markets: Vec::new() }
    }

    fn find(&self, subject: &[u8; 32]) -> (r: Option<usize>)
        ensures
            match r {
                Some(i) => i < self.markets@.len() && self.markets@[i as int].ledger().user
                    == *subject,
                None => !has_market(self.markets@, *subject),
            },
    {
        let mut i: usize = 0;
        while i < self.markets.len()
            invariant
                i <= self.markets@.len(),
                forall|j: int|
                    0 <= j < i ==> (#[trigger] self.markets@[j]).ledger().user != *subject,
            decreases self.markets@.len() - i,
        {
            let keys = self.markets[i].keys();
            if same_address(&keys.user, subject) {
                return Some(i);
            }
            i = i + 1;
        }
        None
    }

    /// The ledger of the keys of `subject`, if keys exist for it.
    pub fn keys(&self, subject: &[u8; 32]) -> (r: Option<UserKeys>)
        requires
            self.wf(),
        ensures
            r == (match market_of(self.markets(), *subject) {
                Some(market) => Some(market.ledger()),
                None => None,
            }),
    {
        match self.find(subject) {
            Some(i) => {
                proof {
                    lemma_market_at(self.markets@, i as int);
                }
                Some(self.markets[i].keys())
            },
            None => None,
        }
    }

    /// The record of `holder` in the keys of `subject`, if there is one.
    pub fn position(&self, subject: &[u8; 32], holder: &[u8; 32]) -> (r: Option<KeyHolder>)
        requires
            self.wf(),
        ensures
            r == (match market_of(self.markets(), *subject) {
                Some(market) => position_of(market.holdings(), *holder),
                None => None,
            }),
    {
        match self.find(subject) {
            Some(i) => {
                proof {
                    lemma_market_at(self.markets@, i as int);
                }
                self.markets[i].position(holder)
            },
            None => None,
        }
    }

    /// Creates the keys of `creator`, once: a subject that has keys cannot create them
    /// again. The creator holds the first key. Where the creation is refused, nothing
    /// has changed.
    pub fn create_keys(
        &mut self,
        creator: [u8; 32],
        curve_params: Option<BondingCurveParams>,
        now: i64,
    ) -> (r: Result<(), SolSocialError>)
        requires
            old(self).wf(),
        ensures
            final(self).wf(),
            match r {
                Ok(()) => {
                    &&& final(self).markets().len() == old(self).markets().len() + 1
                    &&& final(self).markets().drop_last() == old(self).markets()
                    &&& final(self).markets().last().holdings().len() == 1
                    &&& marketplace_create_result(old(self).markets(), creator, curve_params, now)
                        == Ok::<(UserKeys, KeyHolder), SolSocialError>(
                        (
                            final(self).markets().last().ledger(),
                            final(self).markets().last().holdings()[0],
                        ),
                    )
                },
                Err(e) => marketplace_create_result(old(self).markets(), creator, curve_params, now)
                    == Err::<(UserKeys, KeyHolder), SolSocialError>(e) && *final(self) == *old(
                    self,
                ),
            },
    {
        if self.find(&creator).is_some() {
            return Err(SolSocialError::AlreadyExists);
        }
        let market = match Market::create(creator, curve_params, now) {
            Ok(market) => market,
            Err(e) => {
                return Err(e);
            },
        };
        let ghost before = self.markets@;
        self.markets.push(market);
        proof {
            assert(self.markets@.drop_last() =~= before);
            assert forall|i: int, j: int| 0 <= i < j < self.markets@.len() implies (
            #[trigger] self.markets@[i]).ledger().user != (
            #[trigger] self.markets@[j]).ledger().user by {
                if j < before.len() {
                    assert(before[i].ledger().user != before[j].ledger().user);
                } else {
                    assert(before[i].ledger().user != creator);
                }
            }
        }
        Ok(())
    }

    /// Halts or resumes purchases of the keys of `subject`. No position and no other
    /// ledger is touched.
    pub fn set_active(&mut self, subject: &[u8; 32], active: bool) -> (r: Result<
        (),
        SolSocialError,
    >)
        requires
            old(self).wf(),
        ensures
            final(self).wf(),
            match r {
                Ok(()) => {
                    let i = market_index(old(self).markets(), *subject);
                    &&& has_market(old(self).markets(), *subject)
                    &&& final(self).markets().len() == old(self).markets().len()
                    &&& final(self).markets()[i].ledger() == (UserKeys {
                        is_active: active,
                        ..old(self).markets()[i].ledger()
                    })
                    &&& final(self).markets()[i].holdings() == old(self).markets()[i].holdings()
                    &&& forall|j: int|
                        0 <= j < old(self).markets().len() && j != i ==> (
                        #[trigger] final(self).markets()[j]) == old(self).markets()[j]
                },
                Err(e) => e == SolSocialError::NotFound && !has_market(
                    old(self).markets(),
                    *subject,
                ) && *final(self) == *old(self),
            },
    {
        let i = match self.find(subject) {
            Some(i) => i,
            None => {
                return Err(SolSocialError::NotFound);
            },
        };
        let ghost before = self.markets@;
        proof {
            lemma_market_at(before, i as int);
        }
        self.markets[i].set_active(active);
        proof {
            assert(self.markets@ =~= before.update(i as int, self.markets@[i as int]));
        }
        Ok(())
    }

    /// Buys `amount` keys of `subject` for `buyer`. A purchase that is refused leaves
    /// every ledger and every position as it was.
    pub fn buy_keys(
        &mut self,
        subject: &[u8; 32],
        buyer: &[u8; 32],
        buyer_balance: u64,
        amount: u64,
        max_price: u64,
        now: i64,
    ) -> (r: Result<BuyOutcome, SolSocialError>)
        requires
            old(self).wf(),
        ensures
            final(self).wf(),
            r == marketplace_buy_result(
                old(self).markets(),
                *subject,
                *buyer,
                buyer_balance,
                amount,
                max_price,
                now,
            ),
            match r {
                Ok(done) => traded(
                    old(self).markets(),
                    final(self).markets(),
                    *subject,
                    done.keys,
                    done.holder,
                ),
                Err(_) => final(self).markets() == old(self).markets(),
            },
    {
        let i = match self.find(subject) {
            Some(i) => i,
            None => {
                return Err(SolSocialError::NotFound);
            },
        };
        let ghost before = self.markets@;
        proof {
            lemma_market_at(before, i as int);
        }
        let r = self.markets[i].buy(buyer, buyer_balance, amount, max_price, now);
        proof {
            assert(self.markets@ =~= before.update(i as int, self.markets@[i as int]));
            if r is Err {
                assert(self.markets@ =~= before);
            }
        }
        r
    }

    /// Sells `amount` keys of `subject` for `seller`. A sale that is refused leaves every
    /// ledger and every position as it was.
    pub fn sell_keys(
        &mut self,
        subject: &[u8; 32],
        seller: &[u8; 32],
        custody_balance: u64,
        amount: u64,
        min_price: u64,
        now: i64,
    ) -> (r: Result<SellOutcome, SolSocialError>)
        requires
            old(self).wf(),
        ensures
            final(self).wf(),
            r == marketplace_sell_result(
                old(self).markets(),
                *subject,
                *seller,
                custody_balance,
                amount,
                min_price,
                now,
            ),
            match r {
                Ok(done) => traded(
                    old(self).markets(),
                    final(self).markets(),
                    *subject,
                    done.keys,
                    done.holder,
                ),
                Err(_) => final(self).markets() == old(self).markets(),
            },
    {
        let i = match self.find(subject) {
            Some(i) => i,
            None => {
                return Err(SolSocialError::NotFound);
            },
        };
        let ghost before = self.markets@;
        proof {
            lemma_market_at(before, i as int);
        }
        let r = self.markets[i].sell(seller, custody_balance, amount, min_price, now);
        proof {
            assert(self.markets@ =~= before.update(i as int, self.markets@[i as int]));
            if r is Err {
                assert(self.markets@ =~= before);
            }
        }
        r
    }
}

} // verus!
