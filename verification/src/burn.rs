//! Processing of burn submissions: the reward of a batch, the commands it
//! emits, the running totals and the history record.

use vstd::prelude::*;
use crate::model::{CollectionInfo, ContractError, Effect, GlobalState, HistoryRecord, RewardAsset, slot_of};
use crate::ledger::HistoryLedger;
use crate::registry::{find_collection, lemma_slot_is};

verus! {

/// `x`, or `cap` where `x` is larger.
pub open spec fn capped(x: int, cap: int) -> int {
    if x > cap {
        cap
    } else {
        x
    }
}

/// The reward of a batch of `count` items at `rate` per item: their product,
/// held at the largest amount where it would pass it.
pub open spec fn reward_for(rate: u128, count: nat) -> u128 {
    capped(rate * count, u128::MAX as int) as u128
}

/// The count of burned items after `count` more, held at the largest count.
pub open spec fn burned_after(total: u64, count: nat) -> u64 {
    capped(total + count, u64::MAX as int) as u64
}

/// The reward paid after `reward` more, held at the largest amount.
pub open spec fn paid_after(total: u128, reward: u128) -> u128 {
    capped(total + reward, u128::MAX as int) as u128
}

/// Whether `e` is the command that destroys the items `ids` of the collection
/// `entry`.
pub open spec fn is_destroy_of(e: Effect, entry: CollectionInfo, ids: Seq<String>) -> bool {
    match e {
        Effect::Destroy { collection, code_hash, token_ids } => {
            &&& collection == entry.address
            &&& code_hash == entry.code_hash
            &&& token_ids@ == ids
        },
        _ => false,
    }
}

/// The command that moves `amount` of `asset` to `destination`.
pub open spec fn transfer_effect(asset: RewardAsset, amount: u128, destination: String) -> Effect {
    Effect::Transfer { asset: asset.address, code_hash: asset.code_hash, amount, destination }
}

/// What a processed batch hands back.
#[derive(Debug, Clone, PartialEq, Eq)]
pub struct BatchOutcome {
    /// The commands for the host, in the order in which they were emitted.
    pub effects: Vec<Effect>,
    /// The reward of the batch.
    pub reward_amount: u128,
}

/// A copy of `ids`.
pub fn copy_ids(ids: &Vec<String>) -> (r: Vec<String>)
    ensures
        r@ == ids@,
{
    let mut out: Vec<String> = Vec::new();
    let mut i: usize = 0;
    while i < ids.len()
        invariant
            i <= ids.len(),
            out@ == ids@.take(i as int),
        decreases ids.len() - i,
    {
        out.push(ids[i].clone());
        assert(out@ =~= ids@.take(i + 1));
        i += 1;
    }
    assert(ids@.take(i as int) =~= ids@);
    out
}

/// What a batch `token_ids`, submitted by `owner_account` through the
/// collection `collection` at the time `now`, makes of the state `pre` and the
/// ledger `pre_ledger`.
///
/// The result is `UnknownCollection` exactly when the collection is not
/// registered, and `EmptyBatch` exactly when it is registered and the batch
/// holds no item; state and ledger are then as they were. Otherwise the
/// reward is the collection's current rate times the number of items; one
/// destroy command for all items is emitted, followed by one transfer of the
/// reward to the account where the reward is not zero; the totals grow by the
/// number of items and by the reward; and one record is appended to the
/// history of the account, no other history changing.
pub open spec fn batch_outcome(
    pre: GlobalState,
    pre_ledger: HistoryLedger,
    collection: Seq<char>,
    owner_account: String,
    token_ids: Vec<String>,
    now: u64,
    post: GlobalState,
    post_ledger: HistoryLedger,
    r: Result<BatchOutcome, ContractError>,
) -> bool {
    match r {
        Err(e) => {
            &&& post == pre
            &&& post_ledger == pre_ledger
            &&& if !pre.has_collection(collection) {
                e == ContractError::UnknownCollection
            } else {
                e == ContractError::EmptyBatch && token_ids@.len() == 0
            }
        },
        Ok(out) => {
            let entry = pre.collections@[slot_of(pre.collections@, collection)];
            let reward = reward_for(entry.reward_rate, token_ids@.len());
            &&& pre.has_collection(collection)
            &&& token_ids@.len() > 0
            &&& out.reward_amount == reward
            &&& out.effects@.len() == if reward > 0 { 2int } else { 1int }
            &&& is_destroy_of(out.effects@[0], entry, token_ids@)
            &&& reward > 0 ==> out.effects@[1] == transfer_effect(
                pre.reward_asset,
                reward,
                owner_account,
            )
            &&& post.total_burned == burned_after(pre.total_burned, token_ids@.len())
            &&& post.total_reward_paid == paid_after(pre.total_reward_paid, reward)
            &&& post == (GlobalState {
                total_burned: post.total_burned,
                total_reward_paid: post.total_reward_paid,
                ..pre
            })
            &&& post_ledger.history(owner_account@) == pre_ledger.history(owner_account@).push(
                (HistoryRecord {
                    token_ids,
                    owner_account,
                    source_collection: entry.address,
                    burn_timestamp: now,
                    reward_amount: reward,
                }),
            )
            &&& post_ledger.history(owner_account@).len() == pre_ledger.history(
                owner_account@,
            ).len() + 1
            &&& forall|b: Seq<char>|
                b != owner_account@ ==> post_ledger.history(b) == pre_ledger.history(b)
        },
    }
}

/// Processes the batch `token_ids` that `owner_account` submitted through
/// `submitting_collection` at the time `now`. The outcome is that of
/// `batch_outcome`.
pub fn try_batch_receive(
    state: &mut GlobalState,
    ledger: &mut HistoryLedger,
    submitting_collection: &String,
    owner_account: &String,
    token_ids: Vec<String>,
    now: u64,
) -> (r: Result<BatchOutcome, ContractError>)
    requires
        old(state).wf(),
        old(ledger).wf(),
    ensures
        final(state).wf(),
        final(ledger).wf(),
        batch_outcome(
            *old(state),
            *old(ledger),
            submitting_collection@,
            *owner_account,
            token_ids,
            now,
            *final(state),
            *final(ledger),
            r,
        ),
{
    let i = match find_collection(&state.collections, submitting_collection) {
        None => {
            return Err(ContractError::UnknownCollection);
        },
        Some(i) => i,
    };
    proof {
        lemma_slot_is(state.collections@, submitting_collection@, i as int);
    }
    let count: usize = token_ids.len();
    if count == 0 {
        return Err(ContractError::EmptyBatch);
    }
    let rate: u128 = state.collections[i].reward_rate;
    let reward: u128 = match rate.checked_mul(count as u128) {
        Some(product) => product,
        None => u128::MAX,
    };
    let mut effects: Vec<Effect> = Vec::new();
    effects.push(
        Effect::Destroy {
            collection: state.collections[i].address.clone(),
            code_hash: state.collections[i].code_hash.clone(),
            token_ids: copy_ids(&token_ids),
        },
    );
    if reward > 0 {
        effects.push(
            Effect::Transfer {
                asset: state.reward_asset.address.clone(),
                code_hash: state.reward_asset.code_hash.clone(),
                amount: reward,
                destination: owner_account.clone(),
            },
        );
        state.total_reward_paid = state.total_reward_paid.saturating_add(reward);
    }
    state.total_burned = state.total_burned.saturating_add(count as u64);
    let record = HistoryRecord {
        token_ids,
        owner_account: owner_account.clone(),
        source_collection: state.collections[i].address.clone(),
        burn_timestamp: now,
        reward_amount: reward,
    };
    ledger.append(owner_account, record);
    Ok(BatchOutcome { effects, reward_amount: reward })
}

/// The totals do not depend on the order in which two batches are processed.
pub proof fn lemma_totals_commute(burned: u64, paid: u128, count_a: nat, reward_a: u128, count_b: nat, reward_b: u128)
    ensures
        burned_after(burned_after(burned, count_a), count_b) == burned_after(
            burned_after(burned, count_b),
            count_a,
        ),
        paid_after(paid_after(paid, reward_a), reward_b) == paid_after(
            paid_after(paid, reward_b),
            reward_a,
        ),
{
}

/// The totals never decrease.
pub proof fn lemma_totals_monotonic(burned: u64, paid: u128, count: nat, reward: u128)
    ensures
        burned_after(burned, count) >= burned,
        paid_after(paid, reward) >= paid,
{
}

} // verus!
