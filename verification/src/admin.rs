//! Operations reserved to the program owner beyond the registry.

use vstd::prelude::*;
use crate::model::{ContractError, Effect, GlobalState};
use crate::burn::transfer_effect;

verus! {

/// What an order of `sender` to send `amount` of the reward asset to
/// `address` gives: `Unauthorized` exactly when `sender` is not the owner,
/// and otherwise the transfer.
pub open spec fn send_back_outcome(
    state: GlobalState,
    sender: Seq<char>,
    amount: u128,
    address: String,
    r: Result<Effect, ContractError>,
) -> bool {
    match r {
        Err(e) => e == ContractError::Unauthorized && sender != state.owner@,
        Ok(effect) => sender == state.owner@ && effect == transfer_effect(
            state.reward_asset,
            amount,
            address,
        ),
    }
}

/// Sends `amount` of the reward asset to `address` on the owner's order. The
/// outcome is that of `send_back_outcome`. The state is only read: the amount
/// does not count as reward paid.
pub fn try_send_shill_back(state: &GlobalState, sender: &String, amount: u128, address: &String) -> (r:
    Result<Effect, ContractError>)
    ensures
        send_back_outcome(*state, sender@, amount, *address, r),
{
    if *sender != state.owner {
        return Err(ContractError::Unauthorized);
    }
    Ok(
        Effect::Transfer {
            asset: state.reward_asset.address.clone(),
            code_hash: state.reward_asset.code_hash.clone(),
            amount,
            destination: address.clone(),
        },
    )
}

} // verus!
