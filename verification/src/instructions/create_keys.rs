use crate::error::SolSocialError;
use crate::state::keys::{default_curve_params, BondingCurveParams, KeyHolder, UserKeys};
use crate::utils::revenue_share::{fee_parameters_result, validate_fee_parameters};
use vstd::prelude::*;

verus! {

/// The curve that keys are created on: the one given, or the default one.
pub open spec fn chosen_curve(curve_params: Option<BondingCurveParams>) -> BondingCurveParams {
    match curve_params {
        Some(params) => params,
        None => default_curve_params(),
    }
}

/// The ledger of newly created keys: one key outstanding, held by the creator, and
/// nothing traded or earned yet.
pub open spec fn genesis_keys(
    creator: [u8; 32],
    curve_params: Option<BondingCurveParams>,
    now: i64,
) -> UserKeys {
    UserKeys { supply: 1, holders: 1, ..UserKeys::fresh(creator, curve_params, now) }
}

/// The creator's position in newly created keys: one key, which cost nothing.
pub open spec fn genesis_holder(creator: [u8; 32], now: i64) -> KeyHolder {
    KeyHolder { amount: 1, ..KeyHolder::fresh(creator, creator, now) }
}

/// What `handler` returns: the new ledger and the creator's position, unless the fee
/// rates of the curve are refused.
pub open spec fn create_keys_result(
    creator: [u8; 32],
    curve_params: Option<BondingCurveParams>,
    now: i64,
) -> Result<(UserKeys, KeyHolder), SolSocialError> {
    let params = chosen_curve(curve_params);
    match fee_parameters_result(params.protocol_fee, params.creator_fee, 0) {
        Err(e) => Err(e),
        Ok(()) => Ok((genesis_keys(creator, curve_params, now), genesis_holder(creator, now))),
    }
}

/// Creates the keys of `creator` on the given curve, or on the default one. The creator
/// receives the first key free of charge, so the keys start with a supply of one and one
/// holder. The fee rates of the curve are validated here, once, and stay as they are.
pub fn handler(creator: [u8; 32], curve_params: Option<BondingCurveParams>, now: i64) -> (r:
    Result<(UserKeys, KeyHolder), SolSocialError>)
    ensures
        r == create_keys_result(creator, curve_params, now),
        r matches Ok((keys, holder)) ==> {
            &&& keys.supply == 1
            &&& keys.holders == 1
            &&& keys.user == creator
            &&& keys.volume == 0 && keys.creator_earnings == 0 && keys.protocol_fees == 0
            &&& holder.holder == creator && holder.keys_user == creator
            &&& holder.amount == 1
            &&& holder.avg_price == 0 && holder.total_invested == 0
        },
{
    let mut keys = UserKeys::new(creator, curve_params, now);
    match validate_fee_parameters(keys.curve_params.protocol_fee, keys.curve_params.creator_fee, 0) {
        Ok(()) => {},
        Err(e) => {
            return Err(e);
        },
    }
    keys.supply = 1;
    keys.holders = 1;
    let mut holder = KeyHolder::new(creator, creator, now);
    holder.amount = 1;
    Ok((keys, holder))
}

} // verus!
