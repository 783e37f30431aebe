//! The registry of collections: creation of the state, registration, reward
//! rates and the read-only views of the state.

use vstd::prelude::*;
use crate::model::{CollectionInfo, ContractError, Effect, GlobalState, RewardAsset, is_registered, slot_of, distinct_addresses};

verus! {

/// The command that asks the collection `info` to notify this program, whose
/// code hash is `own_code_hash`, of the items it receives.
pub open spec fn register_effect(info: CollectionInfo, own_code_hash: String) -> Effect {
    Effect::RegisterReceive {
        collection: info.address,
        code_hash: info.code_hash,
        callback_code_hash: own_code_hash,
    }
}

/// The commands that creation emits: one registration per collection, in
/// order, then the establishment of the access key.
pub open spec fn setup_effects(
    cols: Seq<CollectionInfo>,
    asset: RewardAsset,
    key: String,
    own_code_hash: String,
) -> Seq<Effect> {
    Seq::new(cols.len(), |i: int| register_effect(cols[i], own_code_hash)).push(
        Effect::SetViewingKey { asset: asset.address, code_hash: asset.code_hash, key: key },
    )
}

/// Finds the first entry of `cols` whose address is `addr`.
pub fn find_collection(cols: &Vec<CollectionInfo>, addr: &String) -> (r: Option<usize>)
    ensures
        match r {
            Some(i) => i < cols.len() && cols@[i as int].address@ == addr@ && forall|j: int|
                0 <= j < i ==> (#[trigger] cols@[j]).address@ != addr@,
            None => !is_registered(cols@, addr@),
        },
{
    let mut i: usize = 0;
    while i < cols.len()
        invariant
            i <= cols.len(),
            forall|j: int| 0 <= j < i ==> (#[trigger] cols@[j]).address@ != addr@,
        decreases cols.len() - i,
    {
        if cols[i].address == *addr {
            return Some(i);
        }
        i += 1;
    }
    None
}

/// Tells whether the addresses of `cols` are pairwise distinct.
pub fn has_distinct_addresses(cols: &Vec<CollectionInfo>) -> (r: bool)
    ensures
        r == distinct_addresses(cols@),
{
    let mut j: usize = 0;
    while j < cols.len()
        invariant
            j <= cols.len(),
            distinct_addresses(cols@.take(j as int)),
        decreases cols.len() - j,
    {
        let mut i: usize = 0;
        while i < j
            invariant
                i <= j < cols.len(),
                forall|k: int| 0 <= k < i ==> (#[trigger] cols@[k]).address@ != cols@[j as int].address@,
            decreases j - i,
        {
            if cols[i].address == cols[j].address {
                return false;
            }
            i += 1;
        }
        assert(distinct_addresses(cols@.take(j + 1))) by {
            assert forall|a: int, b: int| 0 <= a < b < j + 1 implies (#[trigger] cols@.take(
                j + 1,
            )[a]).address@ != (#[trigger] cols@.take(j + 1)[b]).address@ by {
                if b < j {
                    assert(cols@.take(j as int)[a].address@ != cols@.take(j as int)[b].address@);
                }
            }
        }
        j += 1;
    }
    assert(cols@.take(j as int) == cols@);
    true
}

/// Creates the state of a new program owned by `owner`.
///
/// Fails with `AlreadyRegistered` exactly when two of the initial collections
/// share an address. Otherwise the totals start at zero, `entropy` becomes the
/// cached access key, and the commands returned are those of `setup_effects`.
pub fn instantiate(
    owner: String,
    collections: Vec<CollectionInfo>,
    reward_asset: RewardAsset,
    entropy: String,
    own_code_hash: &String,
) -> (r: Result<(GlobalState, Vec<Effect>), ContractError>)
    ensures
        match r {
            Err(e) => e == ContractError::AlreadyRegistered && !distinct_addresses(collections@),
            Ok((state, effects)) => {
                &&& distinct_addresses(collections@)
                &&& state.wf()
                &&& state.owner == owner
                &&& state.collections == collections
                &&& state.reward_asset.address == reward_asset.address
                &&& state.reward_asset.code_hash == reward_asset.code_hash
                &&& state.reward_asset.viewing_key == Some(entropy)
                &&& state.total_burned == 0
                &&& state.total_reward_paid == 0
                &&& effects@ == setup_effects(collections@, reward_asset, entropy, *own_code_hash)
            },
        },
{
    if !has_distinct_addresses(&collections) {
        return Err(ContractError::AlreadyRegistered);
    }
    let mut effects: Vec<Effect> = Vec::new();
    let mut i: usize = 0;
    while i < collections.len()
        invariant
            i <= collections.len(),
            effects@ == Seq::new(i as nat, |k: int| register_effect(collections@[k], *own_code_hash)),
        decreases collections.len() - i,
    {
        let info = &collections[i];
        effects.push(
            Effect::RegisterReceive {
                collection: info.address.clone(),
                code_hash: info.code_hash.clone(),
                callback_code_hash: own_code_hash.clone(),
            },
        );
        assert(effects@ =~= Seq::new((i + 1) as nat, |k: int| register_effect(collections@[k], *own_code_hash)));
        i += 1;
    }
    effects.push(
        Effect::SetViewingKey {
            asset: reward_asset.address.clone(),
            code_hash: reward_asset.code_hash.clone(),
            key: entropy.clone(),
        },
    );
    let state = GlobalState {
        owner,
        collections,
        reward_asset: RewardAsset {
            address: reward_asset.address,
            code_hash: reward_asset.code_hash,
            viewing_key: Some(entropy),
        },
        total_burned: 0,
        total_reward_paid: 0,
    };
    Ok((state, effects))
}

/// Restores a state from stored fields.
///
/// Fails with `StorageCorrupt` exactly when two collections share an address;
/// otherwise the state holds the fields as given.
pub fn restore(
    owner: String,
    collections: Vec<CollectionInfo>,
    reward_asset: RewardAsset,
    total_burned: u64,
    total_reward_paid: u128,
) -> (r: Result<GlobalState, ContractError>)
    ensures
        match r {
            Err(e) => e == ContractError::StorageCorrupt && !distinct_addresses(collections@),
            Ok(state) => {
                &&& distinct_addresses(collections@)
                &&& state.wf()
                &&& state == (GlobalState {
                    owner,
                    collections,
                    reward_asset,
                    total_burned,
                    total_reward_paid,
                })
            },
        },
{
    if !has_distinct_addresses(&collections) {
        return Err(ContractError::StorageCorrupt);
    }
    Ok(GlobalState { owner, collections, reward_asset, total_burned, total_reward_paid })
}

/// What registering `info` makes of the state `pre`: the state `post` and the
/// result `r`.
///
/// The result is `AlreadyRegistered`, with the state as it was, exactly when
/// the address is already registered. Otherwise `info` is appended to the
/// registry, nothing else changes, and the command asks the collection to
/// notify this program.
pub open spec fn register_outcome(
    pre: GlobalState,
    info: CollectionInfo,
    own_code_hash: String,
    post: GlobalState,
    r: Result<Effect, ContractError>,
) -> bool {
    match r {
        Err(e) => {
            &&& e == ContractError::AlreadyRegistered
            &&& pre.has_collection(info.address@)
            &&& post == pre
        },
        Ok(effect) => {
            &&& !pre.has_collection(info.address@)
            &&& post.collections@ == pre.collections@.push(info)
            &&& post == (GlobalState { collections: post.collections, ..pre })
            &&& effect == register_effect(info, own_code_hash)
        },
    }
}

/// Registers the collection `info`. Any account may do so; `_sender` is not
/// consulted. The outcome is that of `register_outcome`.
pub fn try_register_nft_receive(
    state: &mut GlobalState,
    _sender: &String,
    info: CollectionInfo,
    own_code_hash: &String,
) -> (r: Result<Effect, ContractError>)
    requires
        old(state).wf(),
    ensures
        final(state).wf(),
        register_outcome(*old(state), info, *own_code_hash, *final(state), r),
{
    if find_collection(&state.collections, &info.address).is_some() {
        return Err(ContractError::AlreadyRegistered);
    }
    let effect = Effect::RegisterReceive {
        collection: info.address.clone(),
        code_hash: info.code_hash.clone(),
        callback_code_hash: own_code_hash.clone(),
    };
    state.collections.push(info);
    Ok(effect)
}

/// What an order of `sender` to pay `new_rate` per item of the collection
/// `address` makes of the state `pre`: the state `post` and the result `r`.
///
/// The result is `Unauthorized` exactly when `sender` is not the owner, and
/// `UnknownCollection` exactly when the owner names an address that is not
/// registered; the state is then as it was. Otherwise only the rate of that
/// one entry changes.
pub open spec fn change_reward_outcome(
    pre: GlobalState,
    sender: Seq<char>,
    address: Seq<char>,
    new_rate: u128,
    post: GlobalState,
    r: Result<(), ContractError>,
) -> bool {
    match r {
        Err(e) => {
            &&& post == pre
            &&& if sender != pre.owner@ {
                e == ContractError::Unauthorized
            } else {
                e == ContractError::UnknownCollection && !pre.has_collection(address)
            }
        },
        Ok(_) => {
            &&& sender == pre.owner@
            &&& pre.has_collection(address)
            &&& post.collections@ == pre.collections@.update(
                slot_of(pre.collections@, address),
                (CollectionInfo {
                    reward_rate: new_rate,
                    ..pre.collections@[slot_of(pre.collections@, address)]
                }),
            )
            &&& post.rate_of(address) == new_rate
            &&& post == (GlobalState { collections: post.collections, ..pre })
        },
    }
}

/// Sets the reward rate of the collection `address` to `new_rate` on the
/// owner's order. The outcome is that of `change_reward_outcome`.
pub fn try_change_shill_reward(
    state: &mut GlobalState,
    sender: &String,
    address: &String,
    new_rate: u128,
) -> (r: Result<(), ContractError>)
    requires
        old(state).wf(),
    ensures
        final(state).wf(),
        change_reward_outcome(*old(state), sender@, address@, new_rate, *final(state), r),
{
    if *sender != state.owner {
        return Err(ContractError::Unauthorized);
    }
    match find_collection(&state.collections, address) {
        None => Err(ContractError::UnknownCollection),
        Some(i) => {
            proof {
                lemma_slot_is(state.collections@, address@, i as int);
            }
            state.collections[i].reward_rate = new_rate;
            proof {
                assert(final(state).collections@[i as int].address@ == address@);
                lemma_slot_is(state.collections@, address@, i as int);
            }
            Ok(())
        },
    }
}

/// Where addresses are distinct, an entry with the address `addr` stands at
/// `slot_of` and nowhere else.
pub proof fn lemma_slot_is(cols: Seq<CollectionInfo>, addr: Seq<char>, i: int)
    requires
        distinct_addresses(cols),
        0 <= i < cols.len(),
        cols[i].address@ == addr,
    ensures
        is_registered(cols, addr),
        slot_of(cols, addr) == i,
{
    let s = slot_of(cols, addr);
    if s < i {
        assert(cols[s].address@ != cols[i].address@);
    } else if i < s {
        assert(cols[i].address@ != cols[s].address@);
    }
}

/// The registered collections, in order of registration.
pub fn query_contracts(state: &GlobalState) -> (r: &Vec<CollectionInfo>)
    ensures
        r@ == state.collections@,
{
    &state.collections
}

/// The running totals: items burned, reward paid.
pub fn query_burn_info(state: &GlobalState) -> (r: (u64, u128))
    ensures
        r.0 == state.total_burned,
        r.1 == state.total_reward_paid,
{
    (state.total_burned, state.total_reward_paid)
}

} // verus!
