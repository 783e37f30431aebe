//! Encoding of commands for the host ledger.
//!
//! The payload of each command is built by the token toolkit; this module
//! chooses the builder and the contract that the message is addressed to.

use vstd::prelude::*;
use secret_cosmwasm_std::{CosmosMsg, Uint128, WasmMsg};
use secret_toolkit::snip20::transfer_msg;
use secret_toolkit::snip721::{batch_burn_nft_msg, register_receive_nft_msg, set_viewing_key_msg, Burn};
use crate::model::Effect;

verus! {

/// The size of the blocks to which the program pads its messages.
pub const BLOCK_SIZE: usize = 256;

/// A message for a contract of the host ledger, ready to be sent.
#[derive(Debug, Clone, PartialEq, Eq)]
pub struct HostMessage {
    /// The contract that the message is for.
    pub contract_addr: String,
    /// The code hash of that contract.
    pub code_hash: String,
    /// The padded payload.
    pub payload: Vec<u8>,
}

/// The payload with which the toolkit asks a collection to burn the items
/// `token_ids` in one batch, padded to `block_size`; `None` where the toolkit
/// fails to build it.
pub uninterp spec fn burn_payload(token_ids: Seq<Seq<char>>, block_size: usize) -> Option<Seq<u8>>;

/// The payload with which the toolkit asks a token contract to move `amount`
/// to `recipient`, padded to `block_size`; `None` where the toolkit fails to
/// build it.
pub uninterp spec fn transfer_payload(recipient: Seq<char>, amount: u128, block_size: usize) -> Option<Seq<u8>>;

/// The payload with which the toolkit registers the code hash `callback` with
/// a collection, padded to `block_size`; `None` where the toolkit fails to
/// build it.
pub uninterp spec fn register_payload(callback: Seq<char>, batch: bool, block_size: usize) -> Option<Seq<u8>>;

/// The payload with which the toolkit sets the viewing key `key`, padded to
/// `block_size`; `None` where the toolkit fails to build it.
pub uninterp spec fn viewing_key_payload(key: Seq<char>, block_size: usize) -> Option<Seq<u8>>;

/// The items as sequences of characters.
pub open spec fn ids_view(token_ids: Seq<String>) -> Seq<Seq<char>> {
    token_ids.map_values(|id: String| id@)
}

/// Whether `r` is the message for the contract `contract_addr` with the code
/// hash `code_hash` that carries `payload`, or no message where there is no
/// payload.
pub open spec fn is_message(
    r: Option<HostMessage>,
    contract_addr: Seq<char>,
    code_hash: Seq<char>,
    payload: Option<Seq<u8>>,
) -> bool {
    match payload {
        Some(bytes) => match r {
            Some(m) => m.contract_addr@ == contract_addr && m.code_hash@ == code_hash && m.payload@
                == bytes,
            None => false,
        },
        None => r is None,
    }
}

/// Calls `secret_toolkit::snip721::batch_burn_nft_msg` with one burn that
/// holds all of `token_ids`, without memo or padding string. The contract
/// claims that the message goes to `contract_addr` with `code_hash` as given,
/// and names its payload; nothing is claimed of what the payload holds. The
/// toolkit reserves memory for up to `block_size` bytes of padding, so the
/// block size is kept small.
#[verifier::external_body]
fn burn_message(token_ids: &Vec<String>, block_size: usize, code_hash: &String, contract_addr: &String) -> (r: Option<HostMessage>)
    requires
        block_size <= BLOCK_SIZE,
    ensures
        is_message(r, contract_addr@, code_hash@, burn_payload(ids_view(token_ids@), block_size)),
{
    let burns = vec![Burn { token_ids: token_ids.clone(), memo: None }];
    match batch_burn_nft_msg(burns, None, block_size, code_hash.clone(), contract_addr.clone()) {
        Ok(CosmosMsg::Wasm(WasmMsg::Execute { contract_addr, code_hash, msg, .. })) => Some(
            HostMessage { contract_addr, code_hash, payload: msg.0 },
        ),
        _ => None,
    }
}

/// Calls `secret_toolkit::snip20::transfer_msg` without memo or padding
/// string. The contract claims that the message goes to `contract_addr` with
/// `code_hash` as given, and names its payload. The block size is kept small
/// for the reason given at `burn_message`.
#[verifier::external_body]
fn transfer_message(recipient: &String, amount: u128, block_size: usize, code_hash: &String, contract_addr: &String) -> (r: Option<HostMessage>)
    requires
        block_size <= BLOCK_SIZE,
    ensures
        is_message(r, contract_addr@, code_hash@, transfer_payload(recipient@, amount, block_size)),
{
    let amount = Uint128::new(amount);
    match transfer_msg(recipient.clone(), amount, None, None, block_size, code_hash.clone(), contract_addr.clone()) {
        Ok(CosmosMsg::Wasm(WasmMsg::Execute { contract_addr, code_hash, msg, .. })) => Some(
            HostMessage { contract_addr, code_hash, payload: msg.0 },
        ),
        _ => None,
    }
}

/// Calls `secret_toolkit::snip721::register_receive_nft_msg` without padding
/// string; `batch` says whether the program also takes batch notifications.
/// The contract claims that the message goes to `contract_addr` with
/// `code_hash` as given, and names its payload. The block size is kept small
/// for the reason given at `burn_message`.
#[verifier::external_body]
fn register_receive_message(callback: &String, batch: bool, block_size: usize, code_hash: &String, contract_addr: &String) -> (r: Option<HostMessage>)
    requires
        block_size <= BLOCK_SIZE,
    ensures
        is_message(r, contract_addr@, code_hash@, register_payload(callback@, batch, block_size)),
{
    match register_receive_nft_msg(callback.clone(), Some(batch), None, block_size, code_hash.clone(), contract_addr.clone()) {
        Ok(CosmosMsg::Wasm(WasmMsg::Execute { contract_addr, code_hash, msg, .. })) => Some(
            HostMessage { contract_addr, code_hash, payload: msg.0 },
        ),
        _ => None,
    }
}

/// Calls `secret_toolkit::snip721::set_viewing_key_msg` without padding
/// string. The contract claims that the message goes to `contract_addr` with
/// `code_hash` as given, and names its payload. The block size is kept small
/// for the reason given at `burn_message`.
#[verifier::external_body]
fn viewing_key_message(key: &String, block_size: usize, code_hash: &String, contract_addr: &String) -> (r: Option<HostMessage>)
    requires
        block_size <= BLOCK_SIZE,
    ensures
        is_message(r, contract_addr@, code_hash@, viewing_key_payload(key@, block_size)),
{
    match set_viewing_key_msg(key.clone(), None, block_size, code_hash.clone(), contract_addr.clone()) {
        Ok(CosmosMsg::Wasm(WasmMsg::Execute { contract_addr, code_hash, msg, .. })) => Some(
            HostMessage { contract_addr, code_hash, payload: msg.0 },
        ),
        _ => None,
    }
}

/// The contract that `effect` is addressed to.
pub open spec fn target_of(effect: Effect) -> Seq<char> {
    match effect {
        Effect::Destroy { collection, .. } => collection@,
        Effect::Transfer { asset, .. } => asset@,
        Effect::RegisterReceive { collection, .. } => collection@,
        Effect::SetViewingKey { asset, .. } => asset@,
    }
}

/// The code hash of the contract that `effect` is addressed to.
pub open spec fn target_hash_of(effect: Effect) -> Seq<char> {
    match effect {
        Effect::Destroy { code_hash, .. } => code_hash@,
        Effect::Transfer { code_hash, .. } => code_hash@,
        Effect::RegisterReceive { code_hash, .. } => code_hash@,
        Effect::SetViewingKey { code_hash, .. } => code_hash@,
    }
}

/// The payload of `effect`, padded to `BLOCK_SIZE`. A registration always
/// announces that the program takes batch notifications.
pub open spec fn payload_of(effect: Effect) -> Option<Seq<u8>> {
    match effect {
        Effect::Destroy { token_ids, .. } => burn_payload(ids_view(token_ids@), BLOCK_SIZE),
        Effect::Transfer { amount, destination, .. } => transfer_payload(
            destination@,
            amount,
            BLOCK_SIZE,
        ),
        Effect::RegisterReceive { callback_code_hash, .. } => register_payload(
            callback_code_hash@,
            true,
            BLOCK_SIZE,
        ),
        Effect::SetViewingKey { key, .. } => viewing_key_payload(key@, BLOCK_SIZE),
    }
}

/// Whether `r` is what encoding `effect` gives.
pub open spec fn is_encoding_of(r: Option<HostMessage>, effect: Effect) -> bool {
    is_message(r, target_of(effect), target_hash_of(effect), payload_of(effect))
}

/// Encodes one command as a message to the contract it concerns; `None`
/// exactly when the toolkit builds no payload for it.
pub fn encode(effect: &Effect) -> (r: Option<HostMessage>)
    ensures
        is_encoding_of(r, *effect),
{
    match effect {
        Effect::Destroy { collection, code_hash, token_ids } => burn_message(
            token_ids,
            BLOCK_SIZE,
            code_hash,
            collection,
        ),
        Effect::Transfer { asset, code_hash, amount, destination } => transfer_message(
            destination,
            *amount,
            BLOCK_SIZE,
            code_hash,
            asset,
        ),
        Effect::RegisterReceive { collection, code_hash, callback_code_hash } => {
            register_receive_message(callback_code_hash, true, BLOCK_SIZE, code_hash, collection)
        },
        Effect::SetViewingKey { asset, code_hash, key } => viewing_key_message(
            key,
            BLOCK_SIZE,
            code_hash,
            asset,
        ),
    }
}

/// Encodes the commands in order. The result is `None` exactly when the
/// toolkit builds no payload for one of them; otherwise it holds one message
/// per command, each the encoding of the command at its position.
pub fn encode_all(effects: &Vec<Effect>) -> (r: Option<Vec<HostMessage>>)
    ensures
        match r {
            Some(messages) => {
                &&& messages@.len() == effects@.len()
                &&& forall|i: int|
                    0 <= i < effects@.len() ==> is_encoding_of(
                        Some(#[trigger] messages@[i]),
                        effects@[i],
                    )
            },
            None => exists|i: int|
                0 <= i < effects@.len() && payload_of(#[trigger] effects@[i]) is None,
        },
{
    let mut messages: Vec<HostMessage> = Vec::new();
    let mut i: usize = 0;
    while i < effects.len()
        invariant
            i <= effects@.len(),
            messages@.len() == i,
            forall|k: int|
                0 <= k < i ==> is_encoding_of(Some(#[trigger] messages@[k]), effects@[k]),
        decreases effects.len() - i,
    {
        match encode(&effects[i]) {
            None => {
                assert(payload_of(effects@[i as int]) is None);
                return None;
            },
            Some(m) => {
                messages.push(m);
            },
        }
        i += 1;
    }
    Some(messages)
}

} // verus!
