use vstd::prelude::*;

verus! {

/// Every way an operation of the key market can be refused.
///
/// No operation recovers from one of these by itself or substitutes a default:
/// the first check that fails ends the operation, and nothing has been changed.
#[derive(Debug, Clone, Copy, PartialEq, Eq, Structural)]
pub enum SolSocialError {
    /// A trade for zero keys.
    InvalidQuantity,
    /// A trade for more keys than one trade may move.
    AmountTooLarge,
    /// The supply is at, or the purchase would take it over, the curve's maximum supply.
    SupplyLimitExceeded,
    /// A sale of more keys than are outstanding.
    InsufficientSupply,
    /// A sale of more keys than the seller holds.
    InsufficientShares,
    /// The paying account does not hold the lamports that the operation moves.
    InsufficientBalance,
    /// A sum, product or quotient does not fit the integer that holds it.
    ArithmeticOverflow,
    /// A counter would go below zero.
    ArithmeticUnderflow,
    /// The fees are larger than the amount they are taken from.
    FeeExceedsAmount,
    /// The fee rates add up to more than the ceiling.
    InvalidFeeStructure,
    /// The curve prices the trade at nothing.
    InvalidPrice,
    /// Keys already exist for this subject.
    AlreadyExists,
    /// No keys exist for this subject.
    NotFound,
    /// The trade moves the marginal price by more than the bound.
    PriceImpactTooHigh,
    /// The curve price is beyond the bound the trader gave.
    SlippageExceeded,
    /// The keys have been deactivated and take no purchases.
    KeysNotActive,
    /// The subject tried to buy its own keys.
    CannotBuyOwnKeys,
    /// The sale would burn the last key while it is not the seller's whole and only holding.
    CannotSellLastKey,
}

} // verus!
